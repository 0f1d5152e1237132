//! Which elements are left after the rewrite.
//!
//! An element in expression position becomes a call, and so does an element
//! that is the value of an attribute of such an element. An element among the
//! children of a fragment that stays is no expression and stays too. The
//! rewrite leaves no element anywhere exactly when the input has no such
//! stray element.

use crate::model::{
    ExprView, IdentView, JSXAttrOrSpreadView, JSXAttrValueView, JSXElementChildView,
    JSXElementView, JSXExprContainerView, JSXExprView, ModuleItemView, ModuleView,
    PropOrSpreadView,
};
use crate::registry::{VisitorView, callee_of};
use crate::rewrite::{
    rewrite_attr_prop, rewrite_attr_props, rewrite_child, rewrite_children, rewrite_container,
    rewrite_element, rewrite_expr, rewrite_exprs, rewrite_fragment, rewrite_host, rewrite_item,
    rewrite_module, rewrite_prop, rewrite_props,
};
use vstd::prelude::*;

verus! {

/// No element stands in `expr` or anywhere below it.
pub open spec fn element_free_expr(expr: ExprView) -> bool
    decreases expr,
{
    match expr {
        ExprView::JSXElement(_) => false,
        ExprView::Call(call) => element_free_expr(*call.callee) && element_free_exprs(call.args),
        ExprView::Object(object) => element_free_props(object.props),
        ExprView::JSXFragment(fragment) => element_free_children(fragment.children),
        ExprView::Host(node) => element_free_exprs(node.children),
        ExprView::Ident(_) => true,
        ExprView::Lit(_) => true,
        ExprView::JSXMember(_) => true,
        ExprView::JSXNamespacedName(_) => true,
        ExprView::JSXEmpty(_) => true,
    }
}

/// No element stands in or below any of `exprs`.
pub open spec fn element_free_exprs(exprs: Seq<ExprView>) -> bool
    decreases exprs,
{
    forall|i: int| 0 <= i < exprs.len() ==> element_free_expr(#[trigger] exprs[i])
}

/// No element stands below `prop`.
pub open spec fn element_free_prop(prop: PropOrSpreadView) -> bool
    decreases prop,
{
    match prop {
        PropOrSpreadView::Spread(spread) => element_free_expr(*spread.expr),
        PropOrSpreadView::Prop(kv) => element_free_expr(*kv.value),
    }
}

/// No element stands below any of `props`.
pub open spec fn element_free_props(props: Seq<PropOrSpreadView>) -> bool
    decreases props,
{
    forall|i: int| 0 <= i < props.len() ==> element_free_prop(#[trigger] props[i])
}

/// No element stands between the braces of `container`.
pub open spec fn element_free_container(container: JSXExprContainerView) -> bool
    decreases container,
{
    match container.expr {
        JSXExprView::Expr(expr) => element_free_expr(*expr),
        JSXExprView::JSXEmptyExpr(_) => true,
    }
}

/// `child` is no element and has none below it.
pub open spec fn element_free_child(child: JSXElementChildView) -> bool
    decreases child,
{
    match child {
        JSXElementChildView::JSXText(_) => true,
        JSXElementChildView::JSXExprContainer(container) => element_free_container(container),
        JSXElementChildView::JSXSpreadChild(spread) => element_free_expr(*spread.expr),
        JSXElementChildView::JSXElement(_) => false,
        JSXElementChildView::JSXFragment(fragment) => element_free_children(fragment.children),
    }
}

/// None of `children` is an element or has one below it.
pub open spec fn element_free_children(children: Seq<JSXElementChildView>) -> bool
    decreases children,
{
    forall|i: int| 0 <= i < children.len() ==> element_free_child(#[trigger] children[i])
}

/// Every element that the visit of `expr` meets stands where an expression
/// stands, or is the value of an attribute of an element that does: none is
/// a child of a fragment that stays. What stands among the children of an
/// element that becomes a call does not count: it is dropped with them.
pub open spec fn no_stray_expr(expr: ExprView) -> bool
    decreases expr,
{
    match expr {
        ExprView::JSXElement(element) => no_stray_call_attrs(element.opening.attrs),
        ExprView::Call(call) => no_stray_expr(*call.callee) && no_stray_exprs(call.args),
        ExprView::Object(object) => no_stray_props(object.props),
        ExprView::JSXFragment(fragment) => no_stray_children(fragment.children),
        ExprView::Host(node) => no_stray_exprs(node.children),
        ExprView::Ident(_) => true,
        ExprView::Lit(_) => true,
        ExprView::JSXMember(_) => true,
        ExprView::JSXNamespacedName(_) => true,
        ExprView::JSXEmpty(_) => true,
    }
}

/// [`no_stray_expr`] of each of `exprs`.
pub open spec fn no_stray_exprs(exprs: Seq<ExprView>) -> bool
    decreases exprs,
{
    forall|i: int| 0 <= i < exprs.len() ==> no_stray_expr(#[trigger] exprs[i])
}

/// [`no_stray_expr`] of the expression in `prop`.
pub open spec fn no_stray_prop(prop: PropOrSpreadView) -> bool
    decreases prop,
{
    match prop {
        PropOrSpreadView::Spread(spread) => no_stray_expr(*spread.expr),
        PropOrSpreadView::Prop(kv) => no_stray_expr(*kv.value),
    }
}

/// [`no_stray_prop`] of each of `props`.
pub open spec fn no_stray_props(props: Seq<PropOrSpreadView>) -> bool
    decreases props,
{
    forall|i: int| 0 <= i < props.len() ==> no_stray_prop(#[trigger] props[i])
}

/// [`no_stray_expr`] of the expression between the braces, if there is one.
pub open spec fn no_stray_container(container: JSXExprContainerView) -> bool
    decreases container,
{
    match container.expr {
        JSXExprView::Expr(expr) => no_stray_expr(*expr),
        JSXExprView::JSXEmptyExpr(_) => true,
    }
}

/// `child` of a fragment that stays is no element, and below it no stray
/// element is met.
pub open spec fn no_stray_child(child: JSXElementChildView) -> bool
    decreases child,
{
    match child {
        JSXElementChildView::JSXText(_) => true,
        JSXElementChildView::JSXExprContainer(container) => no_stray_container(container),
        JSXElementChildView::JSXSpreadChild(spread) => no_stray_expr(*spread.expr),
        JSXElementChildView::JSXElement(_) => false,
        JSXElementChildView::JSXFragment(fragment) => no_stray_children(fragment.children),
    }
}

/// [`no_stray_child`] of each of `children`.
pub open spec fn no_stray_children(children: Seq<JSXElementChildView>) -> bool
    decreases children,
{
    forall|i: int| 0 <= i < children.len() ==> no_stray_child(#[trigger] children[i])
}

/// No stray element is met in the value of an attribute of an element that
/// becomes a call.
pub open spec fn no_stray_call_attr_value(value: Option<JSXAttrValueView>) -> bool
    decreases value,
{
    match value {
        None => true,
        Some(JSXAttrValueView::Lit(_)) => true,
        Some(JSXAttrValueView::JSXExprContainer(container)) => no_stray_container(container),
        Some(JSXAttrValueView::JSXElement(element)) => no_stray_call_attrs(
            element.opening.attrs,
        ),
        Some(JSXAttrValueView::JSXFragment(fragment)) => no_stray_children(fragment.children),
    }
}

/// No stray element is met in one attribute entry of an element that
/// becomes a call.
pub open spec fn no_stray_call_attr(attr: JSXAttrOrSpreadView) -> bool
    decreases attr,
{
    match attr {
        JSXAttrOrSpreadView::JSXAttr(attr) => no_stray_call_attr_value(attr.value),
        JSXAttrOrSpreadView::SpreadElement(spread) => no_stray_expr(*spread.expr),
    }
}

/// [`no_stray_call_attr`] of each of `attrs`.
pub open spec fn no_stray_call_attrs(attrs: Seq<JSXAttrOrSpreadView>) -> bool
    decreases attrs,
{
    forall|i: int| 0 <= i < attrs.len() ==> no_stray_call_attr(#[trigger] attrs[i])
}

/// The rewrite of `expr` leaves no element in it exactly when the visit meets
/// no stray element.
pub proof fn lemma_rewrite_leaves_no_element(expr: ExprView, callee: IdentView)
    ensures
        element_free_expr(rewrite_expr(expr, callee)) <==> no_stray_expr(expr),
    decreases expr,
{
    let after = rewrite_expr(expr, callee);
    match expr {
        ExprView::JSXElement(element) => {
            lemma_call_leaves_no_element(*element, callee);
            assert(after == rewrite_element(*element, callee));
        },
        ExprView::Call(call) => {
            lemma_rewrite_leaves_no_element(*call.callee, callee);
            lemma_exprs_leave_no_element(call.args, callee);
            assert(element_free_expr(after) <==> no_stray_expr(expr));
        },
        ExprView::Object(object) => {
            lemma_props_leave_no_element(object.props, callee);
            assert(element_free_expr(after) <==> no_stray_expr(expr));
        },
        ExprView::JSXFragment(fragment) => {
            lemma_children_leave_no_element(fragment.children, callee);
            assert(rewrite_fragment(fragment, callee).children == rewrite_children(
                fragment.children,
                callee,
            ));
            assert(element_free_expr(after) <==> no_stray_expr(expr));
        },
        ExprView::Host(node) => {
            lemma_exprs_leave_no_element(node.children, callee);
            assert(rewrite_host(node, callee).children == rewrite_exprs(node.children, callee));
            assert(element_free_expr(after) <==> no_stray_expr(expr));
        },
        ExprView::Ident(_) => {},
        ExprView::Lit(_) => {},
        ExprView::JSXMember(_) => {},
        ExprView::JSXNamespacedName(_) => {},
        ExprView::JSXEmpty(_) => {},
    }
}

/// [`lemma_rewrite_leaves_no_element`] for each of `exprs`.
pub proof fn lemma_exprs_leave_no_element(exprs: Seq<ExprView>, callee: IdentView)
    ensures
        element_free_exprs(rewrite_exprs(exprs, callee)) <==> no_stray_exprs(exprs),
    decreases exprs,
{
    let after = rewrite_exprs(exprs, callee);
    assert forall|i: int| 0 <= i < exprs.len() implies (element_free_expr(#[trigger] after[i])
        <==> no_stray_expr(exprs[i])) by {
        lemma_rewrite_leaves_no_element(exprs[i], callee);
    }
    if no_stray_exprs(exprs) {
        assert forall|i: int| 0 <= i < after.len() implies element_free_expr(
            #[trigger] after[i],
        ) by {
            assert(no_stray_expr(exprs[i]));
        }
    }
    if element_free_exprs(after) {
        assert forall|i: int| 0 <= i < exprs.len() implies no_stray_expr(#[trigger] exprs[i]) by {
            assert(element_free_expr(after[i]));
        }
    }
}

/// [`lemma_rewrite_leaves_no_element`] for the expression in `prop`.
pub proof fn lemma_prop_leaves_no_element(prop: PropOrSpreadView, callee: IdentView)
    ensures
        element_free_prop(rewrite_prop(prop, callee)) <==> no_stray_prop(prop),
    decreases prop,
{
    match prop {
        PropOrSpreadView::Spread(spread) => {
            lemma_rewrite_leaves_no_element(*spread.expr, callee);
        },
        PropOrSpreadView::Prop(kv) => {
            lemma_rewrite_leaves_no_element(*kv.value, callee);
        },
    }
}

/// [`lemma_prop_leaves_no_element`] for each of `props`.
pub proof fn lemma_props_leave_no_element(props: Seq<PropOrSpreadView>, callee: IdentView)
    ensures
        element_free_props(rewrite_props(props, callee)) <==> no_stray_props(props),
    decreases props,
{
    let after = rewrite_props(props, callee);
    assert forall|i: int| 0 <= i < props.len() implies (element_free_prop(#[trigger] after[i])
        <==> no_stray_prop(props[i])) by {
        lemma_prop_leaves_no_element(props[i], callee);
    }
    if no_stray_props(props) {
        assert forall|i: int| 0 <= i < after.len() implies element_free_prop(
            #[trigger] after[i],
        ) by {
            assert(no_stray_prop(props[i]));
        }
    }
    if element_free_props(after) {
        assert forall|i: int| 0 <= i < props.len() implies no_stray_prop(#[trigger] props[i]) by {
            assert(element_free_prop(after[i]));
        }
    }
}

/// [`lemma_rewrite_leaves_no_element`] for the expression in `container`.
pub proof fn lemma_container_leaves_no_element(container: JSXExprContainerView, callee: IdentView)
    ensures
        element_free_container(rewrite_container(container, callee)) <==> no_stray_container(
            container,
        ),
    decreases container,
{
    match container.expr {
        JSXExprView::Expr(expr) => {
            lemma_rewrite_leaves_no_element(*expr, callee);
        },
        JSXExprView::JSXEmptyExpr(_) => {},
    }
}

/// A child of a fragment that stays is left without an element exactly when
/// it is none and no stray element is met below it.
pub proof fn lemma_child_leaves_no_element(child: JSXElementChildView, callee: IdentView)
    ensures
        element_free_child(rewrite_child(child, callee)) <==> no_stray_child(child),
    decreases child,
{
    match child {
        JSXElementChildView::JSXText(_) => {},
        JSXElementChildView::JSXExprContainer(container) => {
            lemma_container_leaves_no_element(container, callee);
        },
        JSXElementChildView::JSXSpreadChild(spread) => {
            lemma_rewrite_leaves_no_element(*spread.expr, callee);
        },
        JSXElementChildView::JSXElement(_) => {},
        JSXElementChildView::JSXFragment(fragment) => {
            lemma_children_leave_no_element(fragment.children, callee);
        },
    }
}

/// [`lemma_child_leaves_no_element`] for each of `children`.
pub proof fn lemma_children_leave_no_element(
    children: Seq<JSXElementChildView>,
    callee: IdentView,
)
    ensures
        element_free_children(rewrite_children(children, callee)) <==> no_stray_children(
            children,
        ),
    decreases children,
{
    let after = rewrite_children(children, callee);
    assert forall|i: int| 0 <= i < children.len() implies (element_free_child(
        #[trigger] after[i],
    ) <==> no_stray_child(children[i])) by {
        lemma_child_leaves_no_element(children[i], callee);
    }
    if no_stray_children(children) {
        assert forall|i: int| 0 <= i < after.len() implies element_free_child(
            #[trigger] after[i],
        ) by {
            assert(no_stray_child(children[i]));
        }
    }
    if element_free_children(after) {
        assert forall|i: int| 0 <= i < children.len() implies no_stray_child(
            #[trigger] children[i],
        ) by {
            assert(element_free_child(after[i]));
        }
    }
}

/// The call that takes the place of `element` has no element in it exactly
/// when no stray element is met in the element's attributes.
pub proof fn lemma_call_leaves_no_element(element: JSXElementView, callee: IdentView)
    ensures
        element_free_expr(rewrite_element(element, callee)) <==> no_stray_call_attrs(
            element.opening.attrs,
        ),
    decreases element,
{
    let attrs = element.opening.attrs;
    let call = rewrite_element(element, callee);
    let args = call->Call_0.args;
    lemma_call_attrs_leave_no_element(attrs, callee);
    assert(element_free_expr(*call->Call_0.callee));
    assert(element_free_expr(args[0]));
    assert(element_free_expr(args[1]) <==> no_stray_call_attrs(attrs));
    if no_stray_call_attrs(attrs) {
        assert forall|i: int| 0 <= i < args.len() implies element_free_expr(#[trigger] args[i]) by {
            if i == 0 {
            } else {
                assert(i == 1);
            }
        }
        assert(element_free_exprs(args));
    }
    if element_free_expr(call) {
        assert(element_free_exprs(args));
        assert(element_free_expr(args[1]));
    }
}

/// [`lemma_call_leaves_no_element`] for the properties that `attrs` become.
pub proof fn lemma_call_attrs_leave_no_element(
    attrs: Seq<JSXAttrOrSpreadView>,
    callee: IdentView,
)
    ensures
        element_free_props(rewrite_attr_props(attrs, callee)) <==> no_stray_call_attrs(attrs),
    decreases attrs,
{
    let after = rewrite_attr_props(attrs, callee);
    assert forall|i: int| 0 <= i < attrs.len() implies (element_free_prop(#[trigger] after[i])
        <==> no_stray_call_attr(attrs[i])) by {
        lemma_call_attr_leaves_no_element(attrs[i], callee);
    }
    if no_stray_call_attrs(attrs) {
        assert forall|i: int| 0 <= i < after.len() implies element_free_prop(
            #[trigger] after[i],
        ) by {
            assert(no_stray_call_attr(attrs[i]));
        }
    }
    if element_free_props(after) {
        assert forall|i: int| 0 <= i < attrs.len() implies no_stray_call_attr(
            #[trigger] attrs[i],
        ) by {
            assert(element_free_prop(after[i]));
        }
    }
}

/// [`lemma_call_leaves_no_element`] for the property that `attr` becomes.
pub proof fn lemma_call_attr_leaves_no_element(attr: JSXAttrOrSpreadView, callee: IdentView)
    ensures
        element_free_prop(rewrite_attr_prop(attr, callee)) <==> no_stray_call_attr(attr),
    decreases attr,
{
    match attr {
        JSXAttrOrSpreadView::JSXAttr(attr) => {
            match attr.value {
                None => {},
                Some(JSXAttrValueView::Lit(_)) => {},
                Some(JSXAttrValueView::JSXExprContainer(container)) => {
                    match container.expr {
                        JSXExprView::Expr(expr) => {
                            lemma_rewrite_leaves_no_element(*expr, callee);
                        },
                        JSXExprView::JSXEmptyExpr(_) => {},
                    }
                },
                Some(JSXAttrValueView::JSXElement(element)) => {
                    lemma_call_leaves_no_element(*element, callee);
                },
                Some(JSXAttrValueView::JSXFragment(fragment)) => {
                    lemma_children_leave_no_element(fragment.children, callee);
                },
            }
        },
        JSXAttrOrSpreadView::SpreadElement(spread) => {
            lemma_rewrite_leaves_no_element(*spread.expr, callee);
        },
    }
}

/// No element stands anywhere in `item`.
pub open spec fn element_free_item(item: ModuleItemView) -> bool {
    match item {
        ModuleItemView::Import(_) => true,
        ModuleItemView::Host(node) => element_free_exprs(node.children),
    }
}

/// No element stands anywhere in `module`.
pub open spec fn element_free_module(module: ModuleView) -> bool {
    forall|i: int| 0 <= i < module.body.len() ==> element_free_item(#[trigger] module.body[i])
}

/// The visit of `item` meets no stray element.
pub open spec fn no_stray_item(item: ModuleItemView) -> bool {
    match item {
        ModuleItemView::Import(_) => true,
        ModuleItemView::Host(node) => no_stray_exprs(node.children),
    }
}

/// The visit of `module` meets no stray element.
pub open spec fn no_stray_module(module: ModuleView) -> bool {
    forall|i: int| 0 <= i < module.body.len() ==> no_stray_item(#[trigger] module.body[i])
}

/// The rewrite of a module leaves no element anywhere in it exactly when the
/// visit meets no stray element: then every element, at every depth, has
/// become a call or gone with the children of one that has.
pub proof fn lemma_module_leaves_no_element(module: ModuleView, state: VisitorView)
    ensures
        element_free_module(rewrite_module(module, state)) <==> no_stray_module(module),
{
    let callee = callee_of(state);
    let after = rewrite_module(module, state);
    assert(after.body.len() == module.body.len() + 1);
    assert(element_free_item(after.body[0]));
    assert forall|i: int| 0 <= i < module.body.len() implies (element_free_item(
        #[trigger] after.body[i + 1],
    ) <==> no_stray_item(module.body[i])) by {
        assert(after.body[i + 1] == rewrite_item(module.body[i], callee));
        match module.body[i] {
            ModuleItemView::Import(_) => {},
            ModuleItemView::Host(node) => {
                lemma_exprs_leave_no_element(node.children, callee);
            },
        }
    }
    if no_stray_module(module) {
        assert forall|i: int| 0 <= i < after.body.len() implies element_free_item(
            #[trigger] after.body[i],
        ) by {
            if i > 0 {
                assert(no_stray_item(module.body[i - 1]));
                assert(element_free_item(after.body[(i - 1) + 1]));
            }
        }
    }
    if element_free_module(after) {
        assert forall|i: int| 0 <= i < module.body.len() implies no_stray_item(
            #[trigger] module.body[i],
        ) by {
            assert(element_free_item(after.body[i + 1]));
        }
    }
}

} // verus!
