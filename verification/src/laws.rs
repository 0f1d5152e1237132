//! What holds of the rewrite whatever the input, proved from the definitions
//! that the contracts use.

use crate::ast::dummy_span;
use crate::hygiene::quote_ident;
use crate::model::{
    ExprView, IdentView, ImportSpecifierView, JSXAttrOrSpreadView, JSXAttrView, JSXElementNameView,
    JSXElementView, LitView, ModuleView,
};
use crate::registry::{
    Helper, fresh_state, helper_ident, helper_name, is_registered, quote_str, registered_if,
    runtime_module,
};
use crate::rewrite::{
    attrs_argument, element_call, needs_helper_items, rewrite_attr_prop, rewrite_attr_props,
    rewrite_element, rewrite_expr, rewrite_exprs, rewrite_item, rewrite_module, rewrite_prop,
    rewrite_props,
};
use crate::transcoder::{
    attr_key_text, attr_prop, attr_props, attrs_object, null_lit, tag_expr, true_lit,
};
use vstd::prelude::*;

verus! {

/// A tag keeps its shape: an identifier becomes an identifier expression, a
/// dotted path a member expression, a namespaced name a namespaced-name
/// expression, each with the same content, and nothing else. So different
/// tags give different expressions.
pub proof fn lemma_tag_keeps_shape(name: JSXElementNameView, other: JSXElementNameView)
    ensures
        name is Ident <==> tag_expr(name) is Ident,
        name is JSXMemberExpr <==> tag_expr(name) is JSXMember,
        name is JSXNamespacedName <==> tag_expr(name) is JSXNamespacedName,
        name is Ident ==> tag_expr(name)->Ident_0 == name->Ident_0,
        name is JSXMemberExpr ==> tag_expr(name)->JSXMember_0 == name->JSXMemberExpr_0,
        name is JSXNamespacedName ==> tag_expr(name)->JSXNamespacedName_0
            == name->JSXNamespacedName_0,
        tag_expr(name) == tag_expr(other) ==> name == other,
{
}

/// The object literal has one property for each attribute entry, at the
/// entry's position: a spread where the entry is a spread, with the same
/// expression, and a key and value where it is an attribute.
pub proof fn lemma_attrs_keep_order(attrs: Seq<JSXAttrOrSpreadView>, i: int)
    requires
        0 <= i < attrs.len(),
    ensures
        attrs_object(attrs).props.len() == attrs.len(),
        attrs_object(attrs).props[i] == attr_prop(attrs[i]),
        attrs[i] is SpreadElement <==> attrs_object(attrs).props[i] is Spread,
        attrs[i] is SpreadElement ==> attrs_object(attrs).props[i]->Spread_0
            == attrs[i]->SpreadElement_0,
        attrs[i] is JSXAttr ==> attrs_object(attrs).props[i]->Prop_0.key.value == attr_key_text(
            attrs[i]->JSXAttr_0.name,
        ),
{
}

/// An attribute written without a value becomes a property whose value is the
/// literal `true`.
pub proof fn lemma_attr_without_value_is_true(attr: JSXAttrView)
    requires
        attr.value is None,
    ensures
        attr_prop(JSXAttrOrSpreadView::JSXAttr(attr)) is Prop,
        *attr_prop(JSXAttrOrSpreadView::JSXAttr(attr))->Prop_0.value == true_lit(),
        true_lit() == ExprView::Lit(LitView::Bool { span: dummy_span(), value: true }),
{
}

/// The call for an element has exactly two arguments. The second is the
/// literal `null` if and only if the element has no attribute entries;
/// otherwise it is an object literal with as many properties as entries,
/// never an empty one.
pub proof fn lemma_no_attrs_give_null(element: JSXElementView, callee: IdentView)
    ensures
        rewrite_element(element, callee) is Call,
        rewrite_element(element, callee)->Call_0.callee == Box::new(ExprView::Ident(callee)),
        rewrite_element(element, callee)->Call_0.args.len() == 2,
        rewrite_element(element, callee)->Call_0.args[0] == tag_expr(element.opening.name),
        element.opening.attrs.len() == 0 <==> rewrite_element(element, callee)->Call_0.args[1]
            == null_lit(),
        element.opening.attrs.len() != 0 ==> {
            &&& rewrite_element(element, callee)->Call_0.args[1] is Object
            &&& rewrite_element(element, callee)->Call_0.args[1]->Object_0.props.len()
                == element.opening.attrs.len()
        },
{
}

/// Visiting an element is visiting the call that takes its place: the
/// rewrite builds `callee(tag, attributes)` from the transcoded tag and
/// attribute list and then goes on below that call.
pub proof fn lemma_element_is_replaced_then_visited(element: JSXElementView, callee: IdentView)
    ensures
        rewrite_expr(ExprView::JSXElement(Box::new(element)), callee) == rewrite_expr(
            element_call(element, callee),
            callee,
        ),
{
    let attrs = element.opening.attrs;
    let call = element_call(element, callee);
    let left = rewrite_element(element, callee);
    let right = rewrite_expr(call, callee);
    assert(rewrite_expr(tag_expr(element.opening.name), callee) == tag_expr(
        element.opening.name,
    ));
    assert(rewrite_expr(ExprView::Ident(callee), callee) == ExprView::Ident(callee));
    assert(rewrite_expr(attrs_argument(attrs), callee) == left->Call_0.args[1]) by {
        if attrs.len() != 0 {
            assert(rewrite_props(attr_props(attrs), callee) =~= rewrite_attr_props(attrs, callee))
                by {
                assert forall|i: int| 0 <= i < attrs.len() implies rewrite_props(
                    attr_props(attrs),
                    callee,
                )[i] == rewrite_attr_props(attrs, callee)[i] by {
                    assert(attr_props(attrs)[i] == attr_prop(attrs[i]));
                    assert(rewrite_prop(attr_prop(attrs[i]), callee) == rewrite_attr_prop(
                        attrs[i],
                        callee,
                    ));
                }
            }
        }
    }
    assert(right->Call_0.args =~= left->Call_0.args) by {
        assert(call->Call_0.args[0] == tag_expr(element.opening.name));
        assert(call->Call_0.args[1] == attrs_argument(attrs));
        assert(rewrite_exprs(call->Call_0.args, callee)[0] == rewrite_expr(
            call->Call_0.args[0],
            callee,
        ));
        assert(rewrite_exprs(call->Call_0.args, callee)[1] == rewrite_expr(
            call->Call_0.args[1],
            callee,
        ));
    }
}

/// A module always gets exactly one import, in front, from the runtime
/// module, and behind it the items it had, visited, in their order. If the
/// visit rewrote at least one element, the import of a fresh visitor has
/// exactly one specifier, however many elements there were: the vnode helper
/// under the visitor's local name. If it rewrote none, the import has no
/// specifier.
pub proof fn lemma_single_import(module: ModuleView, ctxt: u32)
    ensures
        rewrite_module(module, fresh_state(ctxt)).body.len() == module.body.len() + 1,
        rewrite_module(module, fresh_state(ctxt)).body[0] is Import,
        rewrite_module(module, fresh_state(ctxt)).body[0]->Import_0.src == quote_str(
            runtime_module(),
        ),
        forall|i: int|
            0 <= i < module.body.len() ==> #[trigger] rewrite_module(
                module,
                fresh_state(ctxt),
            ).body[i + 1] == rewrite_item(
                module.body[i],
                helper_ident(Helper::CreateVNode, ctxt),
            ),
        needs_helper_items(module.body) ==> rewrite_module(
            module,
            fresh_state(ctxt),
        ).body[0]->Import_0.specifiers =~= seq![
            ImportSpecifierView {
                span: dummy_span(),
                local: helper_ident(Helper::CreateVNode, ctxt),
                imported: Some(quote_ident(helper_name(Helper::CreateVNode))),
            },
        ],
        !needs_helper_items(module.body) ==> rewrite_module(
            module,
            fresh_state(ctxt),
        ).body[0]->Import_0.specifiers.len() == 0,
{
    let state = fresh_state(ctxt);
    assert(!is_registered(state.imports, Helper::CreateVNode));
    let after = registered_if(state, needs_helper_items(module.body));
    if needs_helper_items(module.body) {
        assert(after.imports.len() == 1);
        assert(after.imports[0].imported == Helper::CreateVNode);
    }
}

/// The helper's local name lives in the visitor's hygiene context and
/// nowhere else: it is a different identifier from every identifier of
/// another context, whatever that one is called. So a unit in which nothing
/// lives in the visitor's context has no binding that the name could collide
/// with.
pub proof fn lemma_helper_name_is_private(helper: Helper, ctxt: u32, other: IdentView)
    requires
        other.span.ctxt != ctxt,
    ensures
        helper_ident(helper, ctxt) != other,
        helper_ident(helper, ctxt).span.ctxt == ctxt,
        helper_ident(helper, ctxt).sym == helper_name(helper),
{
}

} // verus!
