//! The mathematical model of the syntax tree: each node type has a view in
//! which strings are sequences of characters and lists are sequences.
//! Contracts speak of these views.

use crate::ast::{
    CallExpr, Expr, HostNode, Ident, ImportDecl, ImportSpecifier, JSXAttrName, JSXAttrOrSpread,
    JSXAttrValue, JSXClosingElement, JSXElement, JSXElementChild, JSXElementName, JSXEmptyExpr,
    JSXExpr, JSXExprContainer, JSXFragment, JSXMemberExpr, JSXNamespacedName, JSXObject,
    JSXOpeningElement, JSXText, Lit, Module, ModuleItem, ObjectLit, Program, PropOrSpread, Script,
    Span, SpreadElement, Str,
};
use vstd::prelude::*;

verus! {

pub struct IdentView {
    pub span: Span,
    pub sym: Seq<char>,
}

pub struct StrView {
    pub span: Span,
    pub value: Seq<char>,
    pub raw: Option<Seq<char>>,
}

pub enum LitView {
    Str(StrView),
    Bool { span: Span, value: bool },
    Null { span: Span },
    Other { id: u64 },
}

pub struct JSXNamespacedNameView {
    pub ns: IdentView,
    pub name: IdentView,
}

pub enum JSXObjectView {
    JSXMemberExpr(Box<JSXMemberExprView>),
    Ident(IdentView),
}

pub struct JSXMemberExprView {
    pub obj: JSXObjectView,
    pub prop: IdentView,
}

pub enum JSXElementNameView {
    Ident(IdentView),
    JSXMemberExpr(JSXMemberExprView),
    JSXNamespacedName(JSXNamespacedNameView),
}

pub enum JSXAttrNameView {
    Ident(IdentView),
    JSXNamespacedName(JSXNamespacedNameView),
}

pub enum JSXExprView {
    JSXEmptyExpr(JSXEmptyExpr),
    Expr(Box<ExprView>),
}

pub struct JSXExprContainerView {
    pub span: Span,
    pub expr: JSXExprView,
}

pub struct JSXSpreadChildView {
    pub span: Span,
    pub expr: Box<ExprView>,
}

pub struct JSXTextView {
    pub span: Span,
    pub value: Seq<char>,
    pub raw: Seq<char>,
}

pub enum JSXAttrValueView {
    Lit(LitView),
    JSXExprContainer(JSXExprContainerView),
    JSXElement(Box<JSXElementView>),
    JSXFragment(JSXFragmentView),
}

pub struct JSXAttrView {
    pub span: Span,
    pub name: JSXAttrNameView,
    pub value: Option<JSXAttrValueView>,
}

pub struct SpreadElementView {
    pub dot3_token: Span,
    pub expr: Box<ExprView>,
}

pub enum JSXAttrOrSpreadView {
    JSXAttr(JSXAttrView),
    SpreadElement(SpreadElementView),
}

pub struct JSXOpeningElementView {
    pub name: JSXElementNameView,
    pub span: Span,
    pub attrs: Seq<JSXAttrOrSpreadView>,
    pub self_closing: bool,
}

pub struct JSXClosingElementView {
    pub span: Span,
    pub name: JSXElementNameView,
}

pub struct JSXElementView {
    pub span: Span,
    pub opening: JSXOpeningElementView,
    pub children: Seq<JSXElementChildView>,
    pub closing: Option<JSXClosingElementView>,
}

pub enum JSXElementChildView {
    JSXText(JSXTextView),
    JSXExprContainer(JSXExprContainerView),
    JSXSpreadChild(JSXSpreadChildView),
    JSXElement(Box<JSXElementView>),
    JSXFragment(JSXFragmentView),
}

pub struct JSXFragmentView {
    pub span: Span,
    pub opening: Span,
    pub children: Seq<JSXElementChildView>,
    pub closing: Span,
}

pub struct CallExprView {
    pub span: Span,
    pub callee: Box<ExprView>,
    pub args: Seq<ExprView>,
}

pub struct KeyValuePropView {
    pub key: StrView,
    pub value: Box<ExprView>,
}

pub enum PropOrSpreadView {
    Spread(SpreadElementView),
    Prop(KeyValuePropView),
}

pub struct ObjectLitView {
    pub span: Span,
    pub props: Seq<PropOrSpreadView>,
}

pub struct HostNodeView {
    pub id: u64,
    pub children: Seq<ExprView>,
}

pub enum ExprView {
    Ident(IdentView),
    Lit(LitView),
    Call(CallExprView),
    Object(ObjectLitView),
    JSXMember(JSXMemberExprView),
    JSXNamespacedName(JSXNamespacedNameView),
    JSXEmpty(JSXEmptyExpr),
    JSXElement(Box<JSXElementView>),
    JSXFragment(JSXFragmentView),
    Host(HostNodeView),
}

pub struct ImportSpecifierView {
    pub span: Span,
    pub local: IdentView,
    pub imported: Option<IdentView>,
}

pub struct ImportDeclView {
    pub span: Span,
    pub specifiers: Seq<ImportSpecifierView>,
    pub src: StrView,
}

pub enum ModuleItemView {
    Import(ImportDeclView),
    Host(HostNodeView),
}

pub struct ModuleView {
    pub span: Span,
    pub body: Seq<ModuleItemView>,
}

pub struct ScriptView {
    pub span: Span,
    pub body: Seq<HostNodeView>,
}

pub enum ProgramView {
    Module(ModuleView),
    Script(ScriptView),
}

impl View for Ident {
    type V = IdentView;

    open spec fn view(&self) -> IdentView {
        IdentView { span: self.span, sym: self.sym@ }
    }
}

impl View for Str {
    type V = StrView;

    open spec fn view(&self) -> StrView {
        StrView {
            span: self.span,
            value: self.value@,
            raw: match self.raw {
                Some(raw) => Some(raw@),
                None => None,
            },
        }
    }
}

impl View for Lit {
    type V = LitView;

    open spec fn view(&self) -> LitView {
        match *self {
            Lit::Str(s) => LitView::Str(s@),
            Lit::Bool { span, value } => LitView::Bool { span, value },
            Lit::Null { span } => LitView::Null { span },
            Lit::Other { id } => LitView::Other { id },
        }
    }
}

impl View for JSXNamespacedName {
    type V = JSXNamespacedNameView;

    open spec fn view(&self) -> JSXNamespacedNameView {
        JSXNamespacedNameView { ns: self.ns@, name: self.name@ }
    }
}

pub open spec fn view_jsx_object(obj: JSXObject) -> JSXObjectView
    decreases obj,
{
    match obj {
        JSXObject::JSXMemberExpr(member) => JSXObjectView::JSXMemberExpr(
            Box::new(view_jsx_member(*member)),
        ),
        JSXObject::Ident(ident) => JSXObjectView::Ident(ident@),
    }
}

pub open spec fn view_jsx_member(member: JSXMemberExpr) -> JSXMemberExprView
    decreases member,
{
    JSXMemberExprView { obj: view_jsx_object(member.obj), prop: member.prop@ }
}

impl View for JSXObject {
    type V = JSXObjectView;

    open spec fn view(&self) -> JSXObjectView {
        view_jsx_object(*self)
    }
}

impl View for JSXMemberExpr {
    type V = JSXMemberExprView;

    open spec fn view(&self) -> JSXMemberExprView {
        view_jsx_member(*self)
    }
}

impl View for JSXElementName {
    type V = JSXElementNameView;

    open spec fn view(&self) -> JSXElementNameView {
        match *self {
            JSXElementName::Ident(ident) => JSXElementNameView::Ident(ident@),
            JSXElementName::JSXMemberExpr(member) => JSXElementNameView::JSXMemberExpr(member@),
            JSXElementName::JSXNamespacedName(name) => JSXElementNameView::JSXNamespacedName(
                name@,
            ),
        }
    }
}

impl View for JSXAttrName {
    type V = JSXAttrNameView;

    open spec fn view(&self) -> JSXAttrNameView {
        match *self {
            JSXAttrName::Ident(ident) => JSXAttrNameView::Ident(ident@),
            JSXAttrName::JSXNamespacedName(name) => JSXAttrNameView::JSXNamespacedName(name@),
        }
    }
}

impl View for JSXText {
    type V = JSXTextView;

    open spec fn view(&self) -> JSXTextView {
        JSXTextView { span: self.span, value: self.value@, raw: self.raw@ }
    }
}

impl View for JSXClosingElement {
    type V = JSXClosingElementView;

    open spec fn view(&self) -> JSXClosingElementView {
        JSXClosingElementView { span: self.span, name: self.name@ }
    }
}

pub open spec fn view_expr(expr: Expr) -> ExprView
    decreases expr,
{
    match expr {
        Expr::Ident(ident) => ExprView::Ident(ident@),
        Expr::Lit(lit) => ExprView::Lit(lit@),
        Expr::Call(call) => ExprView::Call(view_call(call)),
        Expr::Object(object) => ExprView::Object(view_object(object)),
        Expr::JSXMember(member) => ExprView::JSXMember(member@),
        Expr::JSXNamespacedName(name) => ExprView::JSXNamespacedName(name@),
        Expr::JSXEmpty(empty) => ExprView::JSXEmpty(empty),
        Expr::JSXElement(element) => ExprView::JSXElement(Box::new(view_element(*element))),
        Expr::JSXFragment(fragment) => ExprView::JSXFragment(view_fragment(fragment)),
        Expr::Host(node) => ExprView::Host(view_host(node)),
    }
}

pub open spec fn view_exprs(exprs: Seq<Expr>) -> Seq<ExprView>
    decreases exprs,
{
    Seq::new(
        exprs.len(),
        |i: int|
            if 0 <= i < exprs.len() {
                view_expr(exprs[i])
            } else {
                arbitrary()
            },
    )
}

pub open spec fn view_call(call: CallExpr) -> CallExprView
    decreases call,
{
    CallExprView {
        span: call.span,
        callee: Box::new(view_expr(*call.callee)),
        args: view_exprs(call.args@),
    }
}

pub open spec fn view_spread(spread: SpreadElement) -> SpreadElementView
    decreases spread,
{
    SpreadElementView { dot3_token: spread.dot3_token, expr: Box::new(view_expr(*spread.expr)) }
}

pub open spec fn view_prop(prop: PropOrSpread) -> PropOrSpreadView
    decreases prop,
{
    match prop {
        PropOrSpread::Spread(spread) => PropOrSpreadView::Spread(view_spread(spread)),
        PropOrSpread::Prop(kv) => PropOrSpreadView::Prop(
            KeyValuePropView { key: kv.key@, value: Box::new(view_expr(*kv.value)) },
        ),
    }
}

pub open spec fn view_props(props: Seq<PropOrSpread>) -> Seq<PropOrSpreadView>
    decreases props,
{
    Seq::new(
        props.len(),
        |i: int|
            if 0 <= i < props.len() {
                view_prop(props[i])
            } else {
                arbitrary()
            },
    )
}

pub open spec fn view_object(object: ObjectLit) -> ObjectLitView
    decreases object,
{
    ObjectLitView { span: object.span, props: view_props(object.props@) }
}

pub open spec fn view_host(node: HostNode) -> HostNodeView
    decreases node,
{
    HostNodeView { id: node.id, children: view_exprs(node.children@) }
}

pub open spec fn view_container(container: JSXExprContainer) -> JSXExprContainerView
    decreases container,
{
    JSXExprContainerView {
        span: container.span,
        expr: match container.expr {
            JSXExpr::JSXEmptyExpr(empty) => JSXExprView::JSXEmptyExpr(empty),
            JSXExpr::Expr(expr) => JSXExprView::Expr(Box::new(view_expr(*expr))),
        },
    }
}

pub open spec fn view_attr_value(value: JSXAttrValue) -> JSXAttrValueView
    decreases value,
{
    match value {
        JSXAttrValue::Lit(lit) => JSXAttrValueView::Lit(lit@),
        JSXAttrValue::JSXExprContainer(container) => JSXAttrValueView::JSXExprContainer(
            view_container(container),
        ),
        JSXAttrValue::JSXElement(element) => JSXAttrValueView::JSXElement(
            Box::new(view_element(*element)),
        ),
        JSXAttrValue::JSXFragment(fragment) => JSXAttrValueView::JSXFragment(
            view_fragment(fragment),
        ),
    }
}

pub open spec fn view_attr(attr: JSXAttrOrSpread) -> JSXAttrOrSpreadView
    decreases attr,
{
    match attr {
        JSXAttrOrSpread::JSXAttr(attr) => JSXAttrOrSpreadView::JSXAttr(
            JSXAttrView {
                span: attr.span,
                name: attr.name@,
                value: match attr.value {
                    Some(value) => Some(view_attr_value(value)),
                    None => None,
                },
            },
        ),
        JSXAttrOrSpread::SpreadElement(spread) => JSXAttrOrSpreadView::SpreadElement(
            view_spread(spread),
        ),
    }
}

pub open spec fn view_attrs(attrs: Seq<JSXAttrOrSpread>) -> Seq<JSXAttrOrSpreadView>
    decreases attrs,
{
    Seq::new(
        attrs.len(),
        |i: int|
            if 0 <= i < attrs.len() {
                view_attr(attrs[i])
            } else {
                arbitrary()
            },
    )
}

pub open spec fn view_opening(opening: JSXOpeningElement) -> JSXOpeningElementView
    decreases opening,
{
    JSXOpeningElementView {
        name: opening.name@,
        span: opening.span,
        attrs: view_attrs(opening.attrs@),
        self_closing: opening.self_closing,
    }
}

pub open spec fn view_element(element: JSXElement) -> JSXElementView
    decreases element,
{
    JSXElementView {
        span: element.span,
        opening: view_opening(element.opening),
        children: view_children(element.children@),
        closing: match element.closing {
            Some(closing) => Some(closing@),
            None => None,
        },
    }
}

pub open spec fn view_child(child: JSXElementChild) -> JSXElementChildView
    decreases child,
{
    match child {
        JSXElementChild::JSXText(text) => JSXElementChildView::JSXText(text@),
        JSXElementChild::JSXExprContainer(container) => JSXElementChildView::JSXExprContainer(
            view_container(container),
        ),
        JSXElementChild::JSXSpreadChild(spread) => JSXElementChildView::JSXSpreadChild(
            JSXSpreadChildView { span: spread.span, expr: Box::new(view_expr(*spread.expr)) },
        ),
        JSXElementChild::JSXElement(element) => JSXElementChildView::JSXElement(
            Box::new(view_element(*element)),
        ),
        JSXElementChild::JSXFragment(fragment) => JSXElementChildView::JSXFragment(
            view_fragment(fragment),
        ),
    }
}

pub open spec fn view_children(children: Seq<JSXElementChild>) -> Seq<JSXElementChildView>
    decreases children,
{
    Seq::new(
        children.len(),
        |i: int|
            if 0 <= i < children.len() {
                view_child(children[i])
            } else {
                arbitrary()
            },
    )
}

pub open spec fn view_fragment(fragment: JSXFragment) -> JSXFragmentView
    decreases fragment,
{
    JSXFragmentView {
        span: fragment.span,
        opening: fragment.opening,
        children: view_children(fragment.children@),
        closing: fragment.closing,
    }
}

impl View for Expr {
    type V = ExprView;

    open spec fn view(&self) -> ExprView {
        view_expr(*self)
    }
}

impl View for CallExpr {
    type V = CallExprView;

    open spec fn view(&self) -> CallExprView {
        view_call(*self)
    }
}

impl View for SpreadElement {
    type V = SpreadElementView;

    open spec fn view(&self) -> SpreadElementView {
        view_spread(*self)
    }
}

impl View for PropOrSpread {
    type V = PropOrSpreadView;

    open spec fn view(&self) -> PropOrSpreadView {
        view_prop(*self)
    }
}

impl View for ObjectLit {
    type V = ObjectLitView;

    open spec fn view(&self) -> ObjectLitView {
        view_object(*self)
    }
}

impl View for HostNode {
    type V = HostNodeView;

    open spec fn view(&self) -> HostNodeView {
        view_host(*self)
    }
}

impl View for JSXExprContainer {
    type V = JSXExprContainerView;

    open spec fn view(&self) -> JSXExprContainerView {
        view_container(*self)
    }
}

impl View for JSXAttrValue {
    type V = JSXAttrValueView;

    open spec fn view(&self) -> JSXAttrValueView {
        view_attr_value(*self)
    }
}

impl View for JSXAttrOrSpread {
    type V = JSXAttrOrSpreadView;

    open spec fn view(&self) -> JSXAttrOrSpreadView {
        view_attr(*self)
    }
}

impl View for JSXOpeningElement {
    type V = JSXOpeningElementView;

    open spec fn view(&self) -> JSXOpeningElementView {
        view_opening(*self)
    }
}

impl View for JSXElement {
    type V = JSXElementView;

    open spec fn view(&self) -> JSXElementView {
        view_element(*self)
    }
}

impl View for JSXElementChild {
    type V = JSXElementChildView;

    open spec fn view(&self) -> JSXElementChildView {
        view_child(*self)
    }
}

impl View for JSXFragment {
    type V = JSXFragmentView;

    open spec fn view(&self) -> JSXFragmentView {
        view_fragment(*self)
    }
}

impl View for ImportSpecifier {
    type V = ImportSpecifierView;

    open spec fn view(&self) -> ImportSpecifierView {
        ImportSpecifierView {
            span: self.span,
            local: self.local@,
            imported: match self.imported {
                Some(imported) => Some(imported@),
                None => None,
            },
        }
    }
}

pub open spec fn view_specifiers(specifiers: Seq<ImportSpecifier>) -> Seq<ImportSpecifierView> {
    Seq::new(specifiers.len(), |i: int| specifiers[i]@)
}

impl View for ImportDecl {
    type V = ImportDeclView;

    open spec fn view(&self) -> ImportDeclView {
        ImportDeclView {
            span: self.span,
            specifiers: view_specifiers(self.specifiers@),
            src: self.src@,
        }
    }
}

impl View for ModuleItem {
    type V = ModuleItemView;

    open spec fn view(&self) -> ModuleItemView {
        match *self {
            ModuleItem::Import(import) => ModuleItemView::Import(import@),
            ModuleItem::Host(node) => ModuleItemView::Host(node@),
        }
    }
}

pub open spec fn view_items(items: Seq<ModuleItem>) -> Seq<ModuleItemView> {
    Seq::new(items.len(), |i: int| items[i]@)
}

pub open spec fn view_hosts(nodes: Seq<HostNode>) -> Seq<HostNodeView> {
    Seq::new(nodes.len(), |i: int| nodes[i]@)
}

impl View for Module {
    type V = ModuleView;

    open spec fn view(&self) -> ModuleView {
        ModuleView { span: self.span, body: view_items(self.body@) }
    }
}

impl View for Script {
    type V = ScriptView;

    open spec fn view(&self) -> ScriptView {
        ScriptView { span: self.span, body: view_hosts(self.body@) }
    }
}

impl View for Program {
    type V = ProgramView;

    open spec fn view(&self) -> ProgramView {
        match *self {
            Program::Module(module) => ProgramView::Module(module@),
            Program::Script(script) => ProgramView::Script(script@),
        }
    }
}

} // verus!
