//! What the rewrite does, as functions on the model.
//!
//! An element in expression position becomes a call of the helper; the visit
//! then goes on below the call, so elements nested in its attributes are
//! rewritten too. A fragment stays, and so does an element among a fragment's
//! children: below these the visit looks for expressions only. The children
//! of an element that becomes a call are dropped with it.

use crate::ast::dummy_span;
use crate::model::{
    CallExprView, ExprView, HostNodeView, IdentView, JSXAttrOrSpreadView,
    JSXAttrValueView, JSXAttrView, JSXElementChildView, JSXElementView, JSXExprContainerView,
    JSXExprView, JSXFragmentView, JSXOpeningElementView, JSXSpreadChildView, KeyValuePropView,
    ModuleItemView, ModuleView, ObjectLitView, ProgramView, PropOrSpreadView, ScriptView,
    SpreadElementView,
};
use crate::registry::{
    VisitorView, callee_of, fresh_state, import_of, quote_str, registered_if,
};
use crate::transcoder::{attr_key_text, attrs_object, null_lit, tag_expr, true_lit};
use vstd::prelude::*;

verus! {

/// The second argument of the call for an element with attribute list
/// `attrs`: `null` for an empty list, else the object literal of the list.
pub open spec fn attrs_argument(attrs: Seq<JSXAttrOrSpreadView>) -> ExprView {
    if attrs.len() == 0 {
        null_lit()
    } else {
        ExprView::Object(attrs_object(attrs))
    }
}

/// The call that takes the place of `element`, before the visit goes on
/// below it: `callee(tag, attributes)`.
pub open spec fn element_call(element: JSXElementView, callee: IdentView) -> ExprView {
    ExprView::Call(
        CallExprView {
            span: dummy_span(),
            callee: Box::new(ExprView::Ident(callee)),
            args: seq![tag_expr(element.opening.name), attrs_argument(element.opening.attrs)],
        },
    )
}

/// `expr` after the visit, where `callee` is the helper's local name.
pub open spec fn rewrite_expr(expr: ExprView, callee: IdentView) -> ExprView
    decreases expr,
{
    match expr {
        ExprView::JSXElement(element) => rewrite_element(*element, callee),
        ExprView::Call(call) => ExprView::Call(
            CallExprView {
                span: call.span,
                callee: Box::new(rewrite_expr(*call.callee, callee)),
                args: rewrite_exprs(call.args, callee),
            },
        ),
        ExprView::Object(object) => ExprView::Object(
            ObjectLitView { span: object.span, props: rewrite_props(object.props, callee) },
        ),
        ExprView::JSXFragment(fragment) => ExprView::JSXFragment(
            rewrite_fragment(fragment, callee),
        ),
        ExprView::Host(node) => ExprView::Host(rewrite_host(node, callee)),
        ExprView::Ident(_) => expr,
        ExprView::Lit(_) => expr,
        ExprView::JSXMember(_) => expr,
        ExprView::JSXNamespacedName(_) => expr,
        ExprView::JSXEmpty(_) => expr,
    }
}

/// Each of `exprs` after the visit.
pub open spec fn rewrite_exprs(exprs: Seq<ExprView>, callee: IdentView) -> Seq<ExprView>
    decreases exprs,
{
    Seq::new(
        exprs.len(),
        |i: int|
            if 0 <= i < exprs.len() {
                rewrite_expr(exprs[i], callee)
            } else {
                arbitrary()
            },
    )
}

/// The call that an element in expression position ends up as: the tag as
/// first argument; as second `null`, or an object literal with one property
/// for each attribute entry, in order, the values visited.
pub open spec fn rewrite_element(element: JSXElementView, callee: IdentView) -> ExprView
    decreases element,
{
    ExprView::Call(
        CallExprView {
            span: dummy_span(),
            callee: Box::new(ExprView::Ident(callee)),
            args: seq![
                tag_expr(element.opening.name),
                if element.opening.attrs.len() == 0 {
                    null_lit()
                } else {
                    ExprView::Object(
                        ObjectLitView {
                            span: dummy_span(),
                            props: rewrite_attr_props(element.opening.attrs, callee),
                        },
                    )
                },
            ],
        },
    )
}

/// The properties that the attribute list of a rewritten element ends up as.
pub open spec fn rewrite_attr_props(
    attrs: Seq<JSXAttrOrSpreadView>,
    callee: IdentView,
) -> Seq<PropOrSpreadView>
    decreases attrs,
{
    Seq::new(
        attrs.len(),
        |i: int|
            if 0 <= i < attrs.len() {
                rewrite_attr_prop(attrs[i], callee)
            } else {
                arbitrary()
            },
    )
}

/// The property that one attribute entry of a rewritten element ends up as.
pub open spec fn rewrite_attr_prop(attr: JSXAttrOrSpreadView, callee: IdentView) -> PropOrSpreadView
    decreases attr,
{
    match attr {
        JSXAttrOrSpreadView::JSXAttr(attr) => PropOrSpreadView::Prop(
            KeyValuePropView {
                key: quote_str(attr_key_text(attr.name)),
                value: Box::new(rewrite_attr_value(attr.value, callee)),
            },
        ),
        JSXAttrOrSpreadView::SpreadElement(spread) => PropOrSpreadView::Spread(
            rewrite_spread(spread, callee),
        ),
    }
}

/// The expression that the value of an attribute of a rewritten element ends
/// up as.
pub open spec fn rewrite_attr_value(value: Option<JSXAttrValueView>, callee: IdentView) -> ExprView
    decreases value,
{
    match value {
        None => true_lit(),
        Some(JSXAttrValueView::Lit(lit)) => ExprView::Lit(lit),
        Some(JSXAttrValueView::JSXExprContainer(container)) => match container.expr {
            JSXExprView::Expr(expr) => rewrite_expr(*expr, callee),
            JSXExprView::JSXEmptyExpr(empty) => ExprView::JSXEmpty(empty),
        },
        Some(JSXAttrValueView::JSXElement(element)) => rewrite_element(*element, callee),
        Some(JSXAttrValueView::JSXFragment(fragment)) => ExprView::JSXFragment(
            rewrite_fragment(fragment, callee),
        ),
    }
}

/// `spread` after the visit.
pub open spec fn rewrite_spread(spread: SpreadElementView, callee: IdentView) -> SpreadElementView
    decreases spread,
{
    SpreadElementView {
        dot3_token: spread.dot3_token,
        expr: Box::new(rewrite_expr(*spread.expr, callee)),
    }
}

/// `prop` after the visit.
pub open spec fn rewrite_prop(prop: PropOrSpreadView, callee: IdentView) -> PropOrSpreadView
    decreases prop,
{
    match prop {
        PropOrSpreadView::Spread(spread) => PropOrSpreadView::Spread(
            rewrite_spread(spread, callee),
        ),
        PropOrSpreadView::Prop(kv) => PropOrSpreadView::Prop(
            KeyValuePropView { key: kv.key, value: Box::new(rewrite_expr(*kv.value, callee)) },
        ),
    }
}

/// Each of `props` after the visit.
pub open spec fn rewrite_props(props: Seq<PropOrSpreadView>, callee: IdentView) -> Seq<
    PropOrSpreadView,
>
    decreases props,
{
    Seq::new(
        props.len(),
        |i: int|
            if 0 <= i < props.len() {
                rewrite_prop(props[i], callee)
            } else {
                arbitrary()
            },
    )
}

/// `node` after the visit.
pub open spec fn rewrite_host(node: HostNodeView, callee: IdentView) -> HostNodeView
    decreases node,
{
    HostNodeView { id: node.id, children: rewrite_exprs(node.children, callee) }
}

/// `container` after the visit.
pub open spec fn rewrite_container(
    container: JSXExprContainerView,
    callee: IdentView,
) -> JSXExprContainerView
    decreases container,
{
    JSXExprContainerView {
        span: container.span,
        expr: match container.expr {
            JSXExprView::Expr(expr) => JSXExprView::Expr(Box::new(rewrite_expr(*expr, callee))),
            JSXExprView::JSXEmptyExpr(empty) => JSXExprView::JSXEmptyExpr(empty),
        },
    }
}

/// `fragment` after the visit.
pub open spec fn rewrite_fragment(fragment: JSXFragmentView, callee: IdentView) -> JSXFragmentView
    decreases fragment,
{
    JSXFragmentView {
        span: fragment.span,
        opening: fragment.opening,
        children: rewrite_children(fragment.children, callee),
        closing: fragment.closing,
    }
}

/// Each of `children` after the visit.
pub open spec fn rewrite_children(children: Seq<JSXElementChildView>, callee: IdentView) -> Seq<
    JSXElementChildView,
>
    decreases children,
{
    Seq::new(
        children.len(),
        |i: int|
            if 0 <= i < children.len() {
                rewrite_child(children[i], callee)
            } else {
                arbitrary()
            },
    )
}

/// `child` after the visit. An element here is no expression: it stays an
/// element, visited inside.
pub open spec fn rewrite_child(child: JSXElementChildView, callee: IdentView) -> JSXElementChildView
    decreases child,
{
    match child {
        JSXElementChildView::JSXText(_) => child,
        JSXElementChildView::JSXExprContainer(container) => JSXElementChildView::JSXExprContainer(
            rewrite_container(container, callee),
        ),
        JSXElementChildView::JSXSpreadChild(spread) => JSXElementChildView::JSXSpreadChild(
            JSXSpreadChildView {
                span: spread.span,
                expr: Box::new(rewrite_expr(*spread.expr, callee)),
            },
        ),
        JSXElementChildView::JSXElement(element) => JSXElementChildView::JSXElement(
            Box::new(rewrite_inside_element(*element, callee)),
        ),
        JSXElementChildView::JSXFragment(fragment) => JSXElementChildView::JSXFragment(
            rewrite_fragment(fragment, callee),
        ),
    }
}

/// An element that stands where no expression stands, after the visit: the
/// expressions in its attributes and children are visited, the element stays.
pub open spec fn rewrite_inside_element(
    element: JSXElementView,
    callee: IdentView,
) -> JSXElementView
    decreases element,
{
    JSXElementView {
        span: element.span,
        opening: JSXOpeningElementView {
            name: element.opening.name,
            span: element.opening.span,
            attrs: rewrite_inside_attrs(element.opening.attrs, callee),
            self_closing: element.opening.self_closing,
        },
        children: rewrite_children(element.children, callee),
        closing: element.closing,
    }
}

/// The attribute list of an element that stays, after the visit.
pub open spec fn rewrite_inside_attrs(attrs: Seq<JSXAttrOrSpreadView>, callee: IdentView) -> Seq<
    JSXAttrOrSpreadView,
>
    decreases attrs,
{
    Seq::new(
        attrs.len(),
        |i: int|
            if 0 <= i < attrs.len() {
                rewrite_inside_attr(attrs[i], callee)
            } else {
                arbitrary()
            },
    )
}

/// One attribute entry of an element that stays, after the visit.
pub open spec fn rewrite_inside_attr(
    attr: JSXAttrOrSpreadView,
    callee: IdentView,
) -> JSXAttrOrSpreadView
    decreases attr,
{
    match attr {
        JSXAttrOrSpreadView::JSXAttr(attr) => JSXAttrOrSpreadView::JSXAttr(
            JSXAttrView {
                span: attr.span,
                name: attr.name,
                value: match attr.value {
                    Some(value) => Some(rewrite_inside_attr_value(value, callee)),
                    None => None,
                },
            },
        ),
        JSXAttrOrSpreadView::SpreadElement(spread) => JSXAttrOrSpreadView::SpreadElement(
            rewrite_spread(spread, callee),
        ),
    }
}

/// The value of an attribute of an element that stays, after the visit.
pub open spec fn rewrite_inside_attr_value(
    value: JSXAttrValueView,
    callee: IdentView,
) -> JSXAttrValueView
    decreases value,
{
    match value {
        JSXAttrValueView::Lit(_) => value,
        JSXAttrValueView::JSXExprContainer(container) => JSXAttrValueView::JSXExprContainer(
            rewrite_container(container, callee),
        ),
        JSXAttrValueView::JSXElement(element) => JSXAttrValueView::JSXElement(
            Box::new(rewrite_inside_element(*element, callee)),
        ),
        JSXAttrValueView::JSXFragment(fragment) => JSXAttrValueView::JSXFragment(
            rewrite_fragment(fragment, callee),
        ),
    }
}

/// Whether the visit of `expr` rewrites an element, and so needs the helper.
pub open spec fn needs_helper_expr(expr: ExprView) -> bool
    decreases expr,
{
    match expr {
        ExprView::JSXElement(_) => true,
        ExprView::Call(call) => needs_helper_expr(*call.callee) || needs_helper_exprs(call.args),
        ExprView::Object(object) => needs_helper_props(object.props),
        ExprView::JSXFragment(fragment) => needs_helper_children(fragment.children),
        ExprView::Host(node) => needs_helper_exprs(node.children),
        ExprView::Ident(_) => false,
        ExprView::Lit(_) => false,
        ExprView::JSXMember(_) => false,
        ExprView::JSXNamespacedName(_) => false,
        ExprView::JSXEmpty(_) => false,
    }
}

/// Whether the visit of one of `exprs` rewrites an element.
pub open spec fn needs_helper_exprs(exprs: Seq<ExprView>) -> bool
    decreases exprs,
{
    exists|i: int| 0 <= i < exprs.len() && needs_helper_expr(#[trigger] exprs[i])
}

/// Whether the visit of `prop` rewrites an element.
pub open spec fn needs_helper_prop(prop: PropOrSpreadView) -> bool
    decreases prop,
{
    match prop {
        PropOrSpreadView::Spread(spread) => needs_helper_expr(*spread.expr),
        PropOrSpreadView::Prop(kv) => needs_helper_expr(*kv.value),
    }
}

/// Whether the visit of one of `props` rewrites an element.
pub open spec fn needs_helper_props(props: Seq<PropOrSpreadView>) -> bool
    decreases props,
{
    exists|i: int| 0 <= i < props.len() && needs_helper_prop(#[trigger] props[i])
}

/// Whether the visit of `container` rewrites an element.
pub open spec fn needs_helper_container(container: JSXExprContainerView) -> bool
    decreases container,
{
    match container.expr {
        JSXExprView::Expr(expr) => needs_helper_expr(*expr),
        JSXExprView::JSXEmptyExpr(_) => false,
    }
}

/// Whether the visit of `child` rewrites an element.
pub open spec fn needs_helper_child(child: JSXElementChildView) -> bool
    decreases child,
{
    match child {
        JSXElementChildView::JSXText(_) => false,
        JSXElementChildView::JSXExprContainer(container) => needs_helper_container(container),
        JSXElementChildView::JSXSpreadChild(spread) => needs_helper_expr(*spread.expr),
        JSXElementChildView::JSXElement(element) => needs_helper_inside_element(*element),
        JSXElementChildView::JSXFragment(fragment) => needs_helper_children(fragment.children),
    }
}

/// Whether the visit of one of `children` rewrites an element.
pub open spec fn needs_helper_children(children: Seq<JSXElementChildView>) -> bool
    decreases children,
{
    exists|i: int| 0 <= i < children.len() && needs_helper_child(#[trigger] children[i])
}

/// Whether the visit of an element that stays rewrites an element inside it.
pub open spec fn needs_helper_inside_element(element: JSXElementView) -> bool
    decreases element,
{
    needs_helper_inside_attrs(element.opening.attrs) || needs_helper_children(element.children)
}

/// Whether the visit of an attribute entry of an element that stays rewrites
/// an element.
pub open spec fn needs_helper_inside_attr(attr: JSXAttrOrSpreadView) -> bool
    decreases attr,
{
    match attr {
        JSXAttrOrSpreadView::JSXAttr(attr) => match attr.value {
            Some(JSXAttrValueView::Lit(_)) => false,
            Some(JSXAttrValueView::JSXExprContainer(container)) => needs_helper_container(
                container,
            ),
            Some(JSXAttrValueView::JSXElement(element)) => needs_helper_inside_element(*element),
            Some(JSXAttrValueView::JSXFragment(fragment)) => needs_helper_children(
                fragment.children,
            ),
            None => false,
        },
        JSXAttrOrSpreadView::SpreadElement(spread) => needs_helper_expr(*spread.expr),
    }
}

/// Whether the visit of the attribute list of an element that stays rewrites
/// an element.
pub open spec fn needs_helper_inside_attrs(attrs: Seq<JSXAttrOrSpreadView>) -> bool
    decreases attrs,
{
    exists|i: int| 0 <= i < attrs.len() && needs_helper_inside_attr(#[trigger] attrs[i])
}

/// A top-level item after the visit. An import has no expression in it.
pub open spec fn rewrite_item(item: ModuleItemView, callee: IdentView) -> ModuleItemView {
    match item {
        ModuleItemView::Import(_) => item,
        ModuleItemView::Host(node) => ModuleItemView::Host(rewrite_host(node, callee)),
    }
}

/// Each of `items` after the visit.
pub open spec fn rewrite_items(items: Seq<ModuleItemView>, callee: IdentView) -> Seq<
    ModuleItemView,
> {
    Seq::new(items.len(), |i: int| rewrite_item(items[i], callee))
}

/// Each of `nodes` after the visit.
pub open spec fn rewrite_hosts(nodes: Seq<HostNodeView>, callee: IdentView) -> Seq<HostNodeView> {
    Seq::new(nodes.len(), |i: int| rewrite_host(nodes[i], callee))
}

/// Whether the visit of `item` rewrites an element.
pub open spec fn needs_helper_item(item: ModuleItemView) -> bool {
    match item {
        ModuleItemView::Import(_) => false,
        ModuleItemView::Host(node) => needs_helper_exprs(node.children),
    }
}

/// Whether the visit of one of `items` rewrites an element.
pub open spec fn needs_helper_items(items: Seq<ModuleItemView>) -> bool {
    exists|i: int| 0 <= i < items.len() && needs_helper_item(#[trigger] items[i])
}

/// Whether the visit of one of `nodes` rewrites an element.
pub open spec fn needs_helper_hosts(nodes: Seq<HostNodeView>) -> bool {
    exists|i: int| 0 <= i < nodes.len() && needs_helper_exprs((#[trigger] nodes[i]).children)
}

/// `module` after a visitor in state `state` went over it: the items are
/// visited, and in front of them stands one import for every helper that
/// the visitor has registered by then.
pub open spec fn rewrite_module(module: ModuleView, state: VisitorView) -> ModuleView {
    ModuleView {
        span: module.span,
        body: seq![
            ModuleItemView::Import(
                import_of(registered_if(state, needs_helper_items(module.body)).imports),
            ),
        ] + rewrite_items(module.body, callee_of(state)),
    }
}

/// `script` after the visit. A script cannot import, so nothing is put in
/// front of it.
pub open spec fn rewrite_script(script: ScriptView, callee: IdentView) -> ScriptView {
    ScriptView { span: script.span, body: rewrite_hosts(script.body, callee) }
}

/// `program` after a visitor in state `state` went over it.
pub open spec fn rewrite_program(program: ProgramView, state: VisitorView) -> ProgramView {
    match program {
        ProgramView::Module(module) => ProgramView::Module(rewrite_module(module, state)),
        ProgramView::Script(script) => ProgramView::Script(
            rewrite_script(script, callee_of(state)),
        ),
    }
}

/// Whether the visit of `program` rewrites an element.
pub open spec fn needs_helper_program(program: ProgramView) -> bool {
    match program {
        ProgramView::Module(module) => needs_helper_items(module.body),
        ProgramView::Script(script) => needs_helper_hosts(script.body),
    }
}

/// What the transform makes of `program` when `ctxt` is the hygiene context
/// of the identifiers it synthesizes.
pub open spec fn transformed(program: ProgramView, ctxt: u32) -> ProgramView {
    rewrite_program(program, fresh_state(ctxt))
}

} // verus!
