//! The rewrite visitor: walks a compilation unit, replaces each element in
//! expression position by a call of the vnode helper, and afterwards puts one
//! import for the helpers in front of the unit.

use crate::ast::{
    CallExpr, Expr, HostNode, JSXAttr, JSXAttrOrSpread, JSXAttrValue, JSXElement, JSXElementChild,
    JSXExpr, JSXExprContainer, JSXFragment, JSXOpeningElement, JSXSpreadChild, KeyValueProp, Lit,
    Module, ModuleItem, ObjectLit, Program, PropOrSpread, Script, Span, SpreadElement,
};
use crate::model::{
    ExprView, view_attr, view_attrs, view_child, view_children, view_expr, view_exprs, view_hosts,
    view_items, view_prop, view_props,
};
use crate::registry::{
    Helper, VueJsxTransformVisitor, callee_of, is_registered, lemma_registered_if_twice,
    lemma_registered_is_registered, lemma_registered_stays, registered, registered_if,
};
use crate::rewrite::{
    needs_helper_hosts, needs_helper_item, needs_helper_items, needs_helper_program,
    rewrite_hosts, rewrite_item, rewrite_items, rewrite_module, rewrite_program, transformed,
    needs_helper_child, needs_helper_children, needs_helper_container, needs_helper_expr,
    needs_helper_exprs, needs_helper_inside_attr, needs_helper_inside_attrs,
    needs_helper_inside_element, needs_helper_prop, needs_helper_props, rewrite_attr_prop,
    rewrite_attr_props, rewrite_child, rewrite_children, rewrite_container, rewrite_element,
    rewrite_expr, rewrite_exprs, rewrite_fragment, rewrite_host, rewrite_inside_attr,
    rewrite_inside_attrs, rewrite_inside_element, rewrite_prop, rewrite_props, rewrite_spread,
};
use crate::transcoder::{attr_prop, attr_props};
use swc_core::common::Globals;
use vstd::prelude::*;

verus! {

impl VueJsxTransformVisitor {
    /// Visits `expr`: an element becomes its call, and the visit goes on
    /// below whatever stands there then.
    pub fn fold_expr(&mut self, expr: Expr) -> (out: Expr)
        requires
            old(self).wf(),
        ensures
            final(self).wf(),
            final(self)@ == registered_if(old(self)@, needs_helper_expr(expr@)),
            out@ == rewrite_expr(expr@, callee_of(old(self)@)),
        decreases expr,
    {
        match expr {
            Expr::JSXElement(element) => self.fold_element(*element),
            Expr::Call(call) => {
                let CallExpr { span, callee, args } = call;
                let callee = self.fold_expr(*callee);
                let args = self.fold_exprs(args);
                proof {
                    lemma_registered_if_twice(
                        old(self)@,
                        needs_helper_expr(*expr@->Call_0.callee),
                        needs_helper_exprs(expr@->Call_0.args),
                    );
                }
                Expr::Call(CallExpr { span, callee: Box::new(callee), args })
            },
            Expr::Object(object) => {
                let ObjectLit { span, props } = object;
                let props = self.fold_props(props);
                Expr::Object(ObjectLit { span, props })
            },
            Expr::JSXFragment(fragment) => Expr::JSXFragment(self.fold_fragment(fragment)),
            Expr::Host(node) => Expr::Host(self.fold_host(node)),
            Expr::Ident(ident) => Expr::Ident(ident),
            Expr::Lit(lit) => Expr::Lit(lit),
            Expr::JSXMember(member) => Expr::JSXMember(member),
            Expr::JSXNamespacedName(name) => Expr::JSXNamespacedName(name),
            Expr::JSXEmpty(empty) => Expr::JSXEmpty(empty),
        }
    }

    /// Visits each of `exprs`, in order.
    pub fn fold_exprs(&mut self, exprs: Vec<Expr>) -> (out: Vec<Expr>)
        requires
            old(self).wf(),
        ensures
            final(self).wf(),
            final(self)@ == registered_if(old(self)@, needs_helper_exprs(view_exprs(exprs@))),
            view_exprs(out@) == rewrite_exprs(view_exprs(exprs@), callee_of(old(self)@)),
        decreases exprs,
    {
        let ghost before = view_exprs(exprs@);
        let ghost items = exprs@;
        let mut out: Vec<Expr> = Vec::new();
        for expr in it: exprs
            invariant
                it.seq() == items,
                before == view_exprs(items),
                out.len() == it.index(),
                self.wf(),
                self@ == registered_if(
                    old(self)@,
                    exists|j: int| 0 <= j < out.len() && needs_helper_expr(#[trigger] before[j]),
                ),
                forall|j: int|
                    0 <= j < out.len() ==> #[trigger] view_expr(out@[j]) == rewrite_expr(
                        before[j],
                        callee_of(old(self)@),
                    ),
        {
            let ghost used = exists|j: int|
                0 <= j < out.len() && needs_helper_expr(#[trigger] before[j]);
            proof {
                assert(before[out.len() as int] == view_expr(expr));
                lemma_registered_if_twice(old(self)@, used, needs_helper_expr(view_expr(expr)));
            }
            let visited = self.fold_expr(expr);
            out.push(visited);
        }
        proof {
            assert(view_exprs(out@) =~= rewrite_exprs(before, callee_of(old(self)@))) by {
                assert forall|j: int| 0 <= j < out.len() implies view_exprs(out@)[j]
                    == rewrite_exprs(before, callee_of(old(self)@))[j] by {
                    assert(view_exprs(out@)[j] == view_expr(out@[j]));
                }
            }
        }
        out
    }

    /// Visits the expression that `spread` spreads.
    pub fn fold_spread(&mut self, spread: SpreadElement) -> (out: SpreadElement)
        requires
            old(self).wf(),
        ensures
            final(self).wf(),
            final(self)@ == registered_if(old(self)@, needs_helper_expr(*spread@.expr)),
            out@ == rewrite_spread(spread@, callee_of(old(self)@)),
        decreases spread,
    {
        let SpreadElement { dot3_token, expr } = spread;
        let expr = self.fold_expr(*expr);
        SpreadElement { dot3_token, expr: Box::new(expr) }
    }

    /// Visits the expression in `prop`.
    pub fn fold_prop(&mut self, prop: PropOrSpread) -> (out: PropOrSpread)
        requires
            old(self).wf(),
        ensures
            final(self).wf(),
            final(self)@ == registered_if(old(self)@, needs_helper_prop(prop@)),
            out@ == rewrite_prop(prop@, callee_of(old(self)@)),
        decreases prop,
    {
        match prop {
            PropOrSpread::Spread(spread) => PropOrSpread::Spread(self.fold_spread(spread)),
            PropOrSpread::Prop(kv) => {
                let KeyValueProp { key, value } = kv;
                let value = self.fold_expr(*value);
                PropOrSpread::Prop(KeyValueProp { key, value: Box::new(value) })
            },
        }
    }

    /// Visits each of `props`, in order.
    pub fn fold_props(&mut self, props: Vec<PropOrSpread>) -> (out: Vec<PropOrSpread>)
        requires
            old(self).wf(),
        ensures
            final(self).wf(),
            final(self)@ == registered_if(old(self)@, needs_helper_props(view_props(props@))),
            view_props(out@) == rewrite_props(view_props(props@), callee_of(old(self)@)),
        decreases props,
    {
        let ghost before = view_props(props@);
        let ghost items = props@;
        let mut out: Vec<PropOrSpread> = Vec::new();
        for prop in it: props
            invariant
                it.seq() == items,
                before == view_props(items),
                out.len() == it.index(),
                self.wf(),
                self@ == registered_if(
                    old(self)@,
                    exists|j: int| 0 <= j < out.len() && needs_helper_prop(#[trigger] before[j]),
                ),
                forall|j: int|
                    0 <= j < out.len() ==> #[trigger] view_prop(out@[j]) == rewrite_prop(
                        before[j],
                        callee_of(old(self)@),
                    ),
        {
            let ghost used = exists|j: int|
                0 <= j < out.len() && needs_helper_prop(#[trigger] before[j]);
            proof {
                assert(before[out.len() as int] == view_prop(prop));
                lemma_registered_if_twice(old(self)@, used, needs_helper_prop(view_prop(prop)));
            }
            let visited = self.fold_prop(prop);
            out.push(visited);
        }
        proof {
            assert(view_props(out@) =~= rewrite_props(before, callee_of(old(self)@))) by {
                assert forall|j: int| 0 <= j < out.len() implies view_props(out@)[j]
                    == rewrite_props(before, callee_of(old(self)@))[j] by {
                    assert(view_props(out@)[j] == view_prop(out@[j]));
                }
            }
        }
        out
    }

    /// Visits the expressions directly below `node`.
    pub fn fold_host(&mut self, node: HostNode) -> (out: HostNode)
        requires
            old(self).wf(),
        ensures
            final(self).wf(),
            final(self)@ == registered_if(old(self)@, needs_helper_exprs(node@.children)),
            out@ == rewrite_host(node@, callee_of(old(self)@)),
        decreases node,
    {
        let HostNode { id, children } = node;
        let children = self.fold_exprs(children);
        HostNode { id, children }
    }

    /// Visits the expression between the braces of `container`, if there is
    /// one.
    pub fn fold_container(&mut self, container: JSXExprContainer) -> (out: JSXExprContainer)
        requires
            old(self).wf(),
        ensures
            final(self).wf(),
            final(self)@ == registered_if(old(self)@, needs_helper_container(container@)),
            out@ == rewrite_container(container@, callee_of(old(self)@)),
        decreases container,
    {
        let JSXExprContainer { span, expr } = container;
        match expr {
            JSXExpr::Expr(expr) => {
                let expr = self.fold_expr(*expr);
                JSXExprContainer { span, expr: JSXExpr::Expr(Box::new(expr)) }
            },
            JSXExpr::JSXEmptyExpr(empty) => JSXExprContainer {
                span,
                expr: JSXExpr::JSXEmptyExpr(empty),
            },
        }
    }

    /// Visits the children of `fragment`. The fragment stays a fragment.
    pub fn fold_fragment(&mut self, fragment: JSXFragment) -> (out: JSXFragment)
        requires
            old(self).wf(),
        ensures
            final(self).wf(),
            final(self)@ == registered_if(old(self)@, needs_helper_children(fragment@.children)),
            out@ == rewrite_fragment(fragment@, callee_of(old(self)@)),
        decreases fragment,
    {
        let JSXFragment { span, opening, children, closing } = fragment;
        let children = self.fold_children(children);
        JSXFragment { span, opening, children, closing }
    }

    /// Visits each of `children`, in order.
    pub fn fold_children(&mut self, children: Vec<JSXElementChild>) -> (out: Vec<JSXElementChild>)
        requires
            old(self).wf(),
        ensures
            final(self).wf(),
            final(self)@ == registered_if(
                old(self)@,
                needs_helper_children(view_children(children@)),
            ),
            view_children(out@) == rewrite_children(
                view_children(children@),
                callee_of(old(self)@),
            ),
        decreases children,
    {
        let ghost before = view_children(children@);
        let ghost items = children@;
        let mut out: Vec<JSXElementChild> = Vec::new();
        for child in it: children
            invariant
                it.seq() == items,
                before == view_children(items),
                out.len() == it.index(),
                self.wf(),
                self@ == registered_if(
                    old(self)@,
                    exists|j: int| 0 <= j < out.len() && needs_helper_child(#[trigger] before[j]),
                ),
                forall|j: int|
                    0 <= j < out.len() ==> #[trigger] view_child(out@[j]) == rewrite_child(
                        before[j],
                        callee_of(old(self)@),
                    ),
        {
            let ghost used = exists|j: int|
                0 <= j < out.len() && needs_helper_child(#[trigger] before[j]);
            proof {
                assert(before[out.len() as int] == view_child(child));
                lemma_registered_if_twice(old(self)@, used, needs_helper_child(view_child(child)));
            }
            let visited = self.fold_child(child);
            out.push(visited);
        }
        proof {
            assert(view_children(out@) =~= rewrite_children(before, callee_of(old(self)@))) by {
                assert forall|j: int| 0 <= j < out.len() implies view_children(out@)[j]
                    == rewrite_children(before, callee_of(old(self)@))[j] by {
                    assert(view_children(out@)[j] == view_child(out@[j]));
                }
            }
        }
        out
    }

    /// Visits one child of an element or fragment. An element here stays an
    /// element.
    pub fn fold_child(&mut self, child: JSXElementChild) -> (out: JSXElementChild)
        requires
            old(self).wf(),
        ensures
            final(self).wf(),
            final(self)@ == registered_if(old(self)@, needs_helper_child(child@)),
            out@ == rewrite_child(child@, callee_of(old(self)@)),
        decreases child,
    {
        match child {
            JSXElementChild::JSXText(text) => JSXElementChild::JSXText(text),
            JSXElementChild::JSXExprContainer(container) => JSXElementChild::JSXExprContainer(
                self.fold_container(container),
            ),
            JSXElementChild::JSXSpreadChild(spread) => {
                let JSXSpreadChild { span, expr } = spread;
                let expr = self.fold_expr(*expr);
                JSXElementChild::JSXSpreadChild(JSXSpreadChild { span, expr: Box::new(expr) })
            },
            JSXElementChild::JSXElement(element) => JSXElementChild::JSXElement(
                Box::new(self.fold_inside_element(*element)),
            ),
            JSXElementChild::JSXFragment(fragment) => JSXElementChild::JSXFragment(
                self.fold_fragment(fragment),
            ),
        }
    }

    /// Visits the expressions inside an element that stands where no
    /// expression stands. The element stays.
    pub fn fold_inside_element(&mut self, element: JSXElement) -> (out: JSXElement)
        requires
            old(self).wf(),
        ensures
            final(self).wf(),
            final(self)@ == registered_if(old(self)@, needs_helper_inside_element(element@)),
            out@ == rewrite_inside_element(element@, callee_of(old(self)@)),
        decreases element,
    {
        let JSXElement { span, opening, children, closing } = element;
        let JSXOpeningElement { name, span: opening_span, attrs, self_closing } = opening;
        let attrs = self.fold_inside_attrs(attrs);
        let children = self.fold_children(children);
        proof {
            lemma_registered_if_twice(
                old(self)@,
                needs_helper_inside_attrs(element@.opening.attrs),
                needs_helper_children(element@.children),
            );
        }
        JSXElement {
            span,
            opening: JSXOpeningElement { name, span: opening_span, attrs, self_closing },
            children,
            closing,
        }
    }

    /// Visits each entry of the attribute list of an element that stays.
    pub fn fold_inside_attrs(&mut self, attrs: Vec<JSXAttrOrSpread>) -> (out: Vec<JSXAttrOrSpread>)
        requires
            old(self).wf(),
        ensures
            final(self).wf(),
            final(self)@ == registered_if(
                old(self)@,
                needs_helper_inside_attrs(view_attrs(attrs@)),
            ),
            view_attrs(out@) == rewrite_inside_attrs(view_attrs(attrs@), callee_of(old(self)@)),
        decreases attrs,
    {
        let ghost before = view_attrs(attrs@);
        let ghost items = attrs@;
        let mut out: Vec<JSXAttrOrSpread> = Vec::new();
        for attr in it: attrs
            invariant
                it.seq() == items,
                before == view_attrs(items),
                out.len() == it.index(),
                self.wf(),
                self@ == registered_if(
                    old(self)@,
                    exists|j: int|
                        0 <= j < out.len() && needs_helper_inside_attr(#[trigger] before[j]),
                ),
                forall|j: int|
                    0 <= j < out.len() ==> #[trigger] view_attr(out@[j]) == rewrite_inside_attr(
                        before[j],
                        callee_of(old(self)@),
                    ),
        {
            let ghost used = exists|j: int|
                0 <= j < out.len() && needs_helper_inside_attr(#[trigger] before[j]);
            proof {
                assert(before[out.len() as int] == view_attr(attr));
                lemma_registered_if_twice(
                    old(self)@,
                    used,
                    needs_helper_inside_attr(view_attr(attr)),
                );
            }
            let visited = self.fold_inside_attr(attr);
            out.push(visited);
        }
        proof {
            assert(view_attrs(out@) =~= rewrite_inside_attrs(before, callee_of(old(self)@))) by {
                assert forall|j: int| 0 <= j < out.len() implies view_attrs(out@)[j]
                    == rewrite_inside_attrs(before, callee_of(old(self)@))[j] by {
                    assert(view_attrs(out@)[j] == view_attr(out@[j]));
                }
            }
        }
        out
    }

    /// Visits one attribute entry of an element that stays.
    pub fn fold_inside_attr(&mut self, attr: JSXAttrOrSpread) -> (out: JSXAttrOrSpread)
        requires
            old(self).wf(),
        ensures
            final(self).wf(),
            final(self)@ == registered_if(old(self)@, needs_helper_inside_attr(attr@)),
            out@ == rewrite_inside_attr(attr@, callee_of(old(self)@)),
        decreases attr,
    {
        match attr {
            JSXAttrOrSpread::JSXAttr(JSXAttr { span, name, value }) => {
                let value = match value {
                    None => None,
                    Some(JSXAttrValue::Lit(lit)) => Some(JSXAttrValue::Lit(lit)),
                    Some(JSXAttrValue::JSXExprContainer(container)) => Some(
                        JSXAttrValue::JSXExprContainer(self.fold_container(container)),
                    ),
                    Some(JSXAttrValue::JSXElement(element)) => Some(
                        JSXAttrValue::JSXElement(Box::new(self.fold_inside_element(*element))),
                    ),
                    Some(JSXAttrValue::JSXFragment(fragment)) => Some(
                        JSXAttrValue::JSXFragment(self.fold_fragment(fragment)),
                    ),
                };
                JSXAttrOrSpread::JSXAttr(JSXAttr { span, name, value })
            },
            JSXAttrOrSpread::SpreadElement(spread) => JSXAttrOrSpread::SpreadElement(
                self.fold_spread(spread),
            ),
        }
    }

    /// The call that takes the place of `element`, visited: the helper is
    /// registered, the tag and the attribute list are transcoded, and the
    /// element's children are dropped.
    pub fn fold_element(&mut self, element: JSXElement) -> (out: Expr)
        requires
            old(self).wf(),
        ensures
            final(self).wf(),
            final(self)@ == registered(old(self)@, Helper::CreateVNode),
            out@ == rewrite_element(element@, callee_of(old(self)@)),
        decreases element,
    {
        let callee = self.helper(Helper::CreateVNode);
        proof {
            lemma_registered_is_registered(old(self)@);
        }
        let JSXElement { span: _, opening, children: _, closing: _ } = element;
        let JSXOpeningElement { name, span: _, attrs, self_closing: _ } = opening;
        let tag = self.transform_tag(name);
        let attrs_argument = if attrs.len() == 0 {
            Expr::Lit(Lit::Null { span: Span::dummy() })
        } else {
            let visited = self.fold_call_attrs(attrs);
            Expr::Object(self.transform_attrs(visited))
        };
        let mut args: Vec<Expr> = Vec::new();
        args.push(tag);
        args.push(attrs_argument);
        let out = Expr::Call(
            CallExpr { span: Span::dummy(), callee: Box::new(Expr::Ident(callee)), args },
        );
        proof {
            let want = rewrite_element(element@, callee_of(old(self)@));
            assert(view_exprs(args@) =~= want->Call_0.args) by {
                assert(view_exprs(args@)[0] == view_expr(args@[0]));
                assert(view_exprs(args@)[1] == view_expr(args@[1]));
            }
            assert(view_expr(*out->Call_0.callee) == ExprView::Ident(callee_of(old(self)@)));
        }
        out
    }

    /// Visits the expressions in the attribute list of an element that is
    /// being rewritten, so that transcoding the result gives the properties
    /// of the finished call. An element that is an attribute's value becomes
    /// its call, in braces.
    pub fn fold_call_attrs(&mut self, attrs: Vec<JSXAttrOrSpread>) -> (out: Vec<JSXAttrOrSpread>)
        requires
            old(self).wf(),
            is_registered(old(self)@.imports, Helper::CreateVNode),
        ensures
            final(self).wf(),
            final(self)@ == old(self)@,
            out.len() == attrs.len(),
            attr_props(view_attrs(out@)) == rewrite_attr_props(
                view_attrs(attrs@),
                callee_of(old(self)@),
            ),
        decreases attrs,
    {
        let ghost before = view_attrs(attrs@);
        let ghost items = attrs@;
        let mut out: Vec<JSXAttrOrSpread> = Vec::new();
        for attr in it: attrs
            invariant
                it.seq() == items,
                before == view_attrs(items),
                out.len() == it.index(),
                self.wf(),
                self@ == old(self)@,
                is_registered(old(self)@.imports, Helper::CreateVNode),
                forall|j: int|
                    0 <= j < out.len() ==> attr_prop(#[trigger] view_attr(out@[j]))
                        == rewrite_attr_prop(before[j], callee_of(old(self)@)),
        {
            proof {
                assert(before[out.len() as int] == view_attr(attr));
            }
            let visited = self.fold_call_attr(attr);
            out.push(visited);
        }
        proof {
            assert(attr_props(view_attrs(out@)) =~= rewrite_attr_props(
                before,
                callee_of(old(self)@),
            )) by {
                assert forall|j: int| 0 <= j < out.len() implies attr_props(view_attrs(out@))[j]
                    == rewrite_attr_props(before, callee_of(old(self)@))[j] by {
                    assert(view_attrs(out@)[j] == view_attr(out@[j]));
                }
            }
        }
        out
    }

    /// Visits the expressions in one attribute entry of an element that is
    /// being rewritten.
    pub fn fold_call_attr(&mut self, attr: JSXAttrOrSpread) -> (out: JSXAttrOrSpread)
        requires
            old(self).wf(),
            is_registered(old(self)@.imports, Helper::CreateVNode),
        ensures
            final(self).wf(),
            final(self)@ == old(self)@,
            attr_prop(out@) == rewrite_attr_prop(attr@, callee_of(old(self)@)),
        decreases attr,
    {
        match attr {
            JSXAttrOrSpread::JSXAttr(JSXAttr { span, name, value }) => {
                let value = match value {
                    None => None,
                    Some(JSXAttrValue::Lit(lit)) => Some(JSXAttrValue::Lit(lit)),
                    Some(JSXAttrValue::JSXExprContainer(container)) => {
                        proof {
                            lemma_registered_stays(
                                old(self)@,
                                needs_helper_container(container@),
                            );
                        }
                        Some(JSXAttrValue::JSXExprContainer(self.fold_container(container)))
                    },
                    Some(JSXAttrValue::JSXElement(element)) => {
                        let call = self.fold_element(*element);
                        Some(
                            JSXAttrValue::JSXExprContainer(
                                JSXExprContainer {
                                    span: Span::dummy(),
                                    expr: JSXExpr::Expr(Box::new(call)),
                                },
                            ),
                        )
                    },
                    Some(JSXAttrValue::JSXFragment(fragment)) => {
                        proof {
                            lemma_registered_stays(
                                old(self)@,
                                needs_helper_children(fragment@.children),
                            );
                        }
                        Some(JSXAttrValue::JSXFragment(self.fold_fragment(fragment)))
                    },
                };
                JSXAttrOrSpread::JSXAttr(JSXAttr { span, name, value })
            },
            JSXAttrOrSpread::SpreadElement(spread) => {
                proof {
                    lemma_registered_stays(old(self)@, needs_helper_expr(*spread@.expr));
                }
                JSXAttrOrSpread::SpreadElement(self.fold_spread(spread))
            },
        }
    }

    /// Visits `expr` in place: see [`Self::fold_expr`].
    pub fn visit_mut_expr(&mut self, expr: &mut Expr)
        requires
            old(self).wf(),
        ensures
            final(self).wf(),
            final(self)@ == registered_if(old(self)@, needs_helper_expr(old(expr)@)),
            final(expr)@ == rewrite_expr(old(expr)@, callee_of(old(self)@)),
    {
        let mut taken = Expr::Lit(Lit::Null { span: Span::dummy() });
        core::mem::swap(expr, &mut taken);
        *expr = self.fold_expr(taken);
    }

    /// Visits each of `nodes`, in order.
    pub fn fold_hosts(&mut self, nodes: Vec<HostNode>) -> (out: Vec<HostNode>)
        requires
            old(self).wf(),
        ensures
            final(self).wf(),
            final(self)@ == registered_if(old(self)@, needs_helper_hosts(view_hosts(nodes@))),
            view_hosts(out@) == rewrite_hosts(view_hosts(nodes@), callee_of(old(self)@)),
    {
        let ghost before = view_hosts(nodes@);
        let ghost items = nodes@;
        let mut out: Vec<HostNode> = Vec::new();
        for node in it: nodes
            invariant
                it.seq() == items,
                before == view_hosts(items),
                out.len() == it.index(),
                self.wf(),
                self@ == registered_if(
                    old(self)@,
                    exists|j: int|
                        0 <= j < out.len() && needs_helper_exprs((#[trigger] before[j]).children),
                ),
                forall|j: int|
                    0 <= j < out.len() ==> (#[trigger] out@[j])@ == rewrite_host(
                        before[j],
                        callee_of(old(self)@),
                    ),
        {
            let ghost used = exists|j: int|
                0 <= j < out.len() && needs_helper_exprs((#[trigger] before[j]).children);
            proof {
                assert(before[out.len() as int] == node@);
                lemma_registered_if_twice(old(self)@, used, needs_helper_exprs(node@.children));
            }
            let visited = self.fold_host(node);
            out.push(visited);
        }
        proof {
            assert(view_hosts(out@) =~= rewrite_hosts(before, callee_of(old(self)@)));
        }
        out
    }

    /// Visits each of `items`, in order.
    pub fn fold_items(&mut self, items: Vec<ModuleItem>) -> (out: Vec<ModuleItem>)
        requires
            old(self).wf(),
        ensures
            final(self).wf(),
            final(self)@ == registered_if(old(self)@, needs_helper_items(view_items(items@))),
            view_items(out@) == rewrite_items(view_items(items@), callee_of(old(self)@)),
    {
        let ghost before = view_items(items@);
        let ghost given = items@;
        let mut out: Vec<ModuleItem> = Vec::new();
        for item in it: items
            invariant
                it.seq() == given,
                before == view_items(given),
                out.len() == it.index(),
                self.wf(),
                self@ == registered_if(
                    old(self)@,
                    exists|j: int| 0 <= j < out.len() && needs_helper_item(#[trigger] before[j]),
                ),
                forall|j: int|
                    0 <= j < out.len() ==> (#[trigger] out@[j])@ == rewrite_item(
                        before[j],
                        callee_of(old(self)@),
                    ),
        {
            let ghost used = exists|j: int|
                0 <= j < out.len() && needs_helper_item(#[trigger] before[j]);
            proof {
                assert(before[out.len() as int] == item@);
                lemma_registered_if_twice(old(self)@, used, needs_helper_item(item@));
            }
            let visited = match item {
                ModuleItem::Import(import) => ModuleItem::Import(import),
                ModuleItem::Host(node) => ModuleItem::Host(self.fold_host(node)),
            };
            out.push(visited);
        }
        proof {
            assert(view_items(out@) =~= rewrite_items(before, callee_of(old(self)@)));
        }
        out
    }

    /// Rewrites one module: visits every item, then puts the import for the
    /// helpers registered by then in front of the items.
    pub fn visit_mut_module(&mut self, module: &mut Module)
        requires
            old(self).wf(),
        ensures
            final(self).wf(),
            final(self)@ == registered_if(old(self)@, needs_helper_items(old(module)@.body)),
            final(module)@ == rewrite_module(old(module)@, old(self)@),
    {
        let mut items: Vec<ModuleItem> = Vec::new();
        core::mem::swap(&mut module.body, &mut items);
        let mut body = self.fold_items(items);
        let import = self.import_decl();
        body.insert(0, ModuleItem::Import(import));
        module.body = body;
        proof {
            assert(view_items(module.body@) =~= rewrite_module(old(module)@, old(self)@).body);
        }
    }

    /// Rewrites one compilation unit. Only a module gets the import.
    pub fn fold_program(&mut self, program: Program) -> (out: Program)
        requires
            old(self).wf(),
        ensures
            final(self).wf(),
            final(self)@ == registered_if(old(self)@, needs_helper_program(program@)),
            out@ == rewrite_program(program@, old(self)@),
    {
        match program {
            Program::Module(module) => {
                let mut module = module;
                self.visit_mut_module(&mut module);
                Program::Module(module)
            },
            Program::Script(script) => {
                let Script { span, body } = script;
                let body = self.fold_hosts(body);
                Program::Script(Script { span, body })
            },
        }
    }
}

/// Rewrites `program` with a visitor of its own, whose identifiers live in
/// hygiene context `private_ctxt`.
pub fn vue_jsx_in(program: Program, private_ctxt: u32) -> (out: Program)
    ensures
        out@ == transformed(program@, private_ctxt),
{
    let mut visitor = VueJsxTransformVisitor::with_private_ctxt(private_ctxt);
    visitor.fold_program(program)
}

/// Rewrites `program` with a visitor of its own, whose identifiers live in a
/// hygiene context that the visitor reserves in `globals`.
pub fn vue_jsx(program: Program, globals: &Globals) -> (out: Program)
    ensures
        exists|private_ctxt: u32| out@ == transformed(program@, private_ctxt),
{
    let mut visitor = VueJsxTransformVisitor::new(globals);
    let ghost private_ctxt = visitor@.private_ctxt;
    let out = visitor.fold_program(program);
    proof {
        assert(out@ == transformed(program@, private_ctxt));
    }
    out
}

} // verus!
