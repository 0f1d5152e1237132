//! The node transcoder: what an element's tag and attribute list become as
//! arguments of the call that replaces the element. Nothing here looks below
//! the tag and the attribute entries, and nothing touches the visitor's state.

use crate::ast::{
    Expr, JSXAttr, JSXAttrName, JSXAttrOrSpread, JSXAttrValue, JSXElementName, JSXExpr,
    KeyValueProp, Lit, ObjectLit, PropOrSpread, Span, Str, dummy_span,
};
use crate::model::{
    ExprView, JSXAttrNameView, JSXAttrOrSpreadView, JSXAttrValueView, JSXElementNameView,
    JSXExprView, KeyValuePropView, LitView, ObjectLitView, PropOrSpreadView, view_attr, view_attrs,
    view_prop,
};
use crate::registry::{VueJsxTransformVisitor, quote_str};
use vstd::prelude::*;
use vstd::string::StringExecFns;

verus! {

/// The expression that names what a tag names: the same identifier, dotted
/// path or namespaced name, now read as an expression.
pub open spec fn tag_expr(name: JSXElementNameView) -> ExprView {
    match name {
        JSXElementNameView::Ident(ident) => ExprView::Ident(ident),
        JSXElementNameView::JSXMemberExpr(member) => ExprView::JSXMember(member),
        JSXElementNameView::JSXNamespacedName(name) => ExprView::JSXNamespacedName(name),
    }
}

/// The text of the key that an attribute name becomes: the name itself, or
/// namespace, colon and name.
pub open spec fn attr_key_text(name: JSXAttrNameView) -> Seq<char> {
    match name {
        JSXAttrNameView::Ident(ident) => ident.sym,
        JSXAttrNameView::JSXNamespacedName(name) => name.ns.sym + seq![':'] + name.name.sym,
    }
}

/// The literal `true`, as the transform writes it.
pub open spec fn true_lit() -> ExprView {
    ExprView::Lit(LitView::Bool { span: dummy_span(), value: true })
}

/// The literal `null`, as the transform writes it.
pub open spec fn null_lit() -> ExprView {
    ExprView::Lit(LitView::Null { span: dummy_span() })
}

/// The expression that an attribute's value becomes. An attribute without a
/// value stands for `true`; braces are stripped from an expression; empty
/// braces, elements and fragments are kept as expressions of their kind.
pub open spec fn attr_value_expr(value: Option<JSXAttrValueView>) -> ExprView {
    match value {
        None => true_lit(),
        Some(JSXAttrValueView::Lit(lit)) => ExprView::Lit(lit),
        Some(JSXAttrValueView::JSXExprContainer(container)) => match container.expr {
            JSXExprView::Expr(expr) => *expr,
            JSXExprView::JSXEmptyExpr(empty) => ExprView::JSXEmpty(empty),
        },
        Some(JSXAttrValueView::JSXElement(element)) => ExprView::JSXElement(element),
        Some(JSXAttrValueView::JSXFragment(fragment)) => ExprView::JSXFragment(fragment),
    }
}

/// The property that one attribute entry becomes: a spread stays a spread, an
/// attribute becomes key and value.
pub open spec fn attr_prop(attr: JSXAttrOrSpreadView) -> PropOrSpreadView {
    match attr {
        JSXAttrOrSpreadView::JSXAttr(attr) => PropOrSpreadView::Prop(
            KeyValuePropView {
                key: quote_str(attr_key_text(attr.name)),
                value: Box::new(attr_value_expr(attr.value)),
            },
        ),
        JSXAttrOrSpreadView::SpreadElement(spread) => PropOrSpreadView::Spread(spread),
    }
}

/// The properties that an attribute list becomes: one per entry, in the
/// order of the entries.
pub open spec fn attr_props(attrs: Seq<JSXAttrOrSpreadView>) -> Seq<PropOrSpreadView> {
    Seq::new(attrs.len(), |i: int| attr_prop(attrs[i]))
}

/// The object literal that an attribute list becomes.
pub open spec fn attrs_object(attrs: Seq<JSXAttrOrSpreadView>) -> ObjectLitView {
    ObjectLitView { span: dummy_span(), props: attr_props(attrs) }
}

/// The key of the property that an attribute called `name` becomes.
pub fn transform_attr_name(name: JSXAttrName) -> (key: Str)
    ensures
        key@ == quote_str(attr_key_text(name@)),
{
    match name {
        JSXAttrName::Ident(ident) => Str::quote(ident.sym),
        JSXAttrName::JSXNamespacedName(name) => {
            let mut text = name.ns.sym;
            text.append(":");
            text.append(name.name.sym.as_str());
            proof {
                reveal_strlit(":");
                assert(":"@ =~= seq![':']);
            }
            Str::quote(text)
        },
    }
}

/// The value of the property that an attribute with value `value` becomes.
pub fn transform_attr_value(value: Option<JSXAttrValue>) -> (expr: Expr)
    ensures
        expr@ == attr_value_expr(
            match value {
                Some(value) => Some(value@),
                None => None,
            },
        ),
{
    match value {
        None => Expr::Lit(Lit::Bool { span: Span::dummy(), value: true }),
        Some(JSXAttrValue::Lit(lit)) => Expr::Lit(lit),
        Some(JSXAttrValue::JSXExprContainer(container)) => match container.expr {
            JSXExpr::Expr(expr) => *expr,
            JSXExpr::JSXEmptyExpr(empty) => Expr::JSXEmpty(empty),
        },
        Some(JSXAttrValue::JSXElement(element)) => Expr::JSXElement(element),
        Some(JSXAttrValue::JSXFragment(fragment)) => Expr::JSXFragment(fragment),
    }
}

/// The property that the attribute entry `attr` becomes.
pub fn transform_attr(attr: JSXAttrOrSpread) -> (prop: PropOrSpread)
    ensures
        prop@ == attr_prop(attr@),
{
    match attr {
        JSXAttrOrSpread::JSXAttr(JSXAttr { span: _, name, value }) => {
            let key = transform_attr_name(name);
            let value = transform_attr_value(value);
            PropOrSpread::Prop(KeyValueProp { key, value: Box::new(value) })
        },
        JSXAttrOrSpread::SpreadElement(spread) => PropOrSpread::Spread(spread),
    }
}

impl VueJsxTransformVisitor {
    /// The expression for an element's tag: identifier, dotted path and
    /// namespaced name each stay what they are.
    pub fn transform_tag(&mut self, jsx_element_name: JSXElementName) -> (expr: Expr)
        ensures
            expr@ == tag_expr(jsx_element_name@),
            *final(self) == *old(self),
    {
        match jsx_element_name {
            JSXElementName::Ident(ident) => Expr::Ident(ident),
            JSXElementName::JSXMemberExpr(member) => Expr::JSXMember(member),
            JSXElementName::JSXNamespacedName(name) => Expr::JSXNamespacedName(name),
        }
    }

    /// The object literal for an element's attribute list: one property per
    /// entry, in source order.
    pub fn transform_attrs(&mut self, attrs: Vec<JSXAttrOrSpread>) -> (object: ObjectLit)
        ensures
            object@ == attrs_object(view_attrs(attrs@)),
            *final(self) == *old(self),
    {
        let ghost entries = attrs@;
        let mut props: Vec<PropOrSpread> = Vec::new();
        for attr in it: attrs
            invariant
                it.seq() == entries,
                props.len() == it.index(),
                forall|j: int|
                    0 <= j < props.len() ==> #[trigger] view_prop(props@[j]) == attr_prop(
                        view_attr(entries[j]),
                    ),
        {
            let prop = transform_attr(attr);
            props.push(prop);
        }
        let object = ObjectLit { span: Span::dummy(), props };
        assert(object@.props =~= attr_props(view_attrs(entries))) by {
            assert forall|j: int| 0 <= j < entries.len() implies object@.props[j] == attr_props(
                view_attrs(entries),
            )[j] by {
                assert(object@.props[j] == view_prop(object.props@[j]));
                assert(view_attrs(entries)[j] == view_attr(entries[j]));
            }
        }
        object
    }
}

} // verus!
