//! The syntax tree the transform works on: ECMAScript with JSX.
//!
//! JSX nodes and the few ECMAScript nodes that the transform builds are spelled
//! out. Every other ECMAScript node is a [`HostNode`]: a number by which the
//! caller finds the node again, and the expressions directly below it.

use vstd::prelude::*;

verus! {

/// A range of byte positions in the source text, with the hygiene context of
/// the text it covers.
#[derive(Clone, Copy, Debug, PartialEq, Eq, Structural)]
pub struct Span {
    pub lo: u32,
    pub hi: u32,
    pub ctxt: u32,
}

/// An identifier. Two identifiers name the same binding when symbol and
/// hygiene context of the span agree.
#[derive(Clone, Debug, PartialEq, Eq)]
pub struct Ident {
    pub span: Span,
    pub sym: String,
}

/// A string literal. `raw` is the literal as it was written, if known.
#[derive(Clone, Debug, PartialEq, Eq)]
pub struct Str {
    pub span: Span,
    pub value: String,
    pub raw: Option<String>,
}

/// A literal. `Other` is a literal of a kind the transform never builds
/// (number, big integer, regular expression), kept by the caller under `id`.
#[derive(Clone, Debug, PartialEq, Eq)]
pub enum Lit {
    Str(Str),
    Bool { span: Span, value: bool },
    Null { span: Span },
    Other { id: u64 },
}

/// `ns:name`
#[derive(Clone, Debug, PartialEq, Eq)]
pub struct JSXNamespacedName {
    pub ns: Ident,
    pub name: Ident,
}

/// The left side of a dotted tag name.
#[derive(Debug, PartialEq, Eq)]
pub enum JSXObject {
    JSXMemberExpr(Box<JSXMemberExpr>),
    Ident(Ident),
}

/// `obj.prop` as a tag name.
#[derive(Debug, PartialEq, Eq)]
pub struct JSXMemberExpr {
    pub obj: JSXObject,
    pub prop: Ident,
}

/// The name of an element's tag.
#[derive(Debug, PartialEq, Eq)]
pub enum JSXElementName {
    Ident(Ident),
    JSXMemberExpr(JSXMemberExpr),
    JSXNamespacedName(JSXNamespacedName),
}

/// The name of an attribute.
#[derive(Debug, PartialEq, Eq)]
pub enum JSXAttrName {
    Ident(Ident),
    JSXNamespacedName(JSXNamespacedName),
}

/// `{}` or `{/* comment */}`: braces with no expression in them.
#[derive(Clone, Copy, Debug, PartialEq, Eq, Structural)]
pub struct JSXEmptyExpr {
    pub span: Span,
}

/// What stands between the braces of an expression container.
#[derive(Debug, PartialEq, Eq)]
pub enum JSXExpr {
    JSXEmptyExpr(JSXEmptyExpr),
    Expr(Box<Expr>),
}

/// `{expr}`
#[derive(Debug, PartialEq, Eq)]
pub struct JSXExprContainer {
    pub span: Span,
    pub expr: JSXExpr,
}

/// `{...expr}` among the children of an element or fragment.
#[derive(Debug, PartialEq, Eq)]
pub struct JSXSpreadChild {
    pub span: Span,
    pub expr: Box<Expr>,
}

/// Text among the children of an element or fragment.
#[derive(Clone, Debug, PartialEq, Eq)]
pub struct JSXText {
    pub span: Span,
    pub value: String,
    pub raw: String,
}

/// The value of an attribute.
#[derive(Debug, PartialEq, Eq)]
pub enum JSXAttrValue {
    Lit(Lit),
    JSXExprContainer(JSXExprContainer),
    JSXElement(Box<JSXElement>),
    JSXFragment(JSXFragment),
}

/// `name`, `name=value` or `name={value}`
#[derive(Debug, PartialEq, Eq)]
pub struct JSXAttr {
    pub span: Span,
    pub name: JSXAttrName,
    pub value: Option<JSXAttrValue>,
}

/// `...expr` in an attribute list or an object literal.
#[derive(Debug, PartialEq, Eq)]
pub struct SpreadElement {
    pub dot3_token: Span,
    pub expr: Box<Expr>,
}

/// One entry of an attribute list.
#[derive(Debug, PartialEq, Eq)]
pub enum JSXAttrOrSpread {
    JSXAttr(JSXAttr),
    SpreadElement(SpreadElement),
}

/// `<name attrs>` or `<name attrs />`
#[derive(Debug, PartialEq, Eq)]
pub struct JSXOpeningElement {
    pub name: JSXElementName,
    pub span: Span,
    pub attrs: Vec<JSXAttrOrSpread>,
    pub self_closing: bool,
}

/// `</name>`
#[derive(Debug, PartialEq, Eq)]
pub struct JSXClosingElement {
    pub span: Span,
    pub name: JSXElementName,
}

/// An element: opening tag, children, and the closing tag unless the element
/// closes itself.
#[derive(Debug, PartialEq, Eq)]
pub struct JSXElement {
    pub span: Span,
    pub opening: JSXOpeningElement,
    pub children: Vec<JSXElementChild>,
    pub closing: Option<JSXClosingElement>,
}

/// One child of an element or fragment.
#[derive(Debug, PartialEq, Eq)]
pub enum JSXElementChild {
    JSXText(JSXText),
    JSXExprContainer(JSXExprContainer),
    JSXSpreadChild(JSXSpreadChild),
    JSXElement(Box<JSXElement>),
    JSXFragment(JSXFragment),
}

/// `<>children</>`; `opening` and `closing` are the spans of the two tags.
#[derive(Debug, PartialEq, Eq)]
pub struct JSXFragment {
    pub span: Span,
    pub opening: Span,
    pub children: Vec<JSXElementChild>,
    pub closing: Span,
}

/// `callee(args)`
#[derive(Debug, PartialEq, Eq)]
pub struct CallExpr {
    pub span: Span,
    pub callee: Box<Expr>,
    pub args: Vec<Expr>,
}

/// `"key": value` in an object literal.
#[derive(Debug, PartialEq, Eq)]
pub struct KeyValueProp {
    pub key: Str,
    pub value: Box<Expr>,
}

/// One entry of an object literal.
#[derive(Debug, PartialEq, Eq)]
pub enum PropOrSpread {
    Spread(SpreadElement),
    Prop(KeyValueProp),
}

/// `{ props }`
#[derive(Debug, PartialEq, Eq)]
pub struct ObjectLit {
    pub span: Span,
    pub props: Vec<PropOrSpread>,
}

/// A node of the surrounding language that the transform looks through but
/// never into: `id` is the caller's number for it, `children` are the
/// expressions directly below it, in source order.
#[derive(Debug, PartialEq, Eq)]
pub struct HostNode {
    pub id: u64,
    pub children: Vec<Expr>,
}

/// An expression.
#[derive(Debug, PartialEq, Eq)]
pub enum Expr {
    Ident(Ident),
    Lit(Lit),
    Call(CallExpr),
    Object(ObjectLit),
    JSXMember(JSXMemberExpr),
    JSXNamespacedName(JSXNamespacedName),
    JSXEmpty(JSXEmptyExpr),
    JSXElement(Box<JSXElement>),
    JSXFragment(JSXFragment),
    Host(HostNode),
}

/// `local` or `imported as local` between the braces of an import.
#[derive(Debug, PartialEq, Eq)]
pub struct ImportSpecifier {
    pub span: Span,
    pub local: Ident,
    pub imported: Option<Ident>,
}

/// `import { specifiers } from "src"`
#[derive(Debug, PartialEq, Eq)]
pub struct ImportDecl {
    pub span: Span,
    pub specifiers: Vec<ImportSpecifier>,
    pub src: Str,
}

/// A top-level item of a module: an import of named bindings, or any other
/// statement or declaration.
#[derive(Debug, PartialEq, Eq)]
pub enum ModuleItem {
    Import(ImportDecl),
    Host(HostNode),
}

/// A compilation unit with imports and exports.
#[derive(Debug, PartialEq, Eq)]
pub struct Module {
    pub span: Span,
    pub body: Vec<ModuleItem>,
}

/// A compilation unit without imports and exports.
#[derive(Debug, PartialEq, Eq)]
pub struct Script {
    pub span: Span,
    pub body: Vec<HostNode>,
}

/// A compilation unit.
#[derive(Debug, PartialEq, Eq)]
pub enum Program {
    Module(Module),
    Script(Script),
}

/// The span of a node that stands nowhere in the source text.
pub open spec fn dummy_span() -> Span {
    Span { lo: 0, hi: 0, ctxt: 0 }
}

/// The span of a synthesized node whose identifiers live in hygiene context
/// `ctxt`.
pub open spec fn private_span(ctxt: u32) -> Span {
    Span { lo: 0, hi: 0, ctxt }
}

impl Span {
    /// The span of a node that stands nowhere in the source text.
    pub fn dummy() -> (span: Span)
        ensures
            span == dummy_span(),
    {
        Span { lo: 0, hi: 0, ctxt: 0 }
    }

    /// The dummy span, moved into hygiene context `ctxt`.
    pub fn private(ctxt: u32) -> (span: Span)
        ensures
            span == private_span(ctxt),
    {
        Span { lo: 0, hi: 0, ctxt }
    }
}

} // verus!
