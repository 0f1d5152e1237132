use swc_core::common::Globals;
use vue_jsx_transform::ast::{
    CallExpr, Expr, HostNode, Ident, ImportDecl, ImportSpecifier, JSXAttr, JSXAttrName,
    JSXAttrOrSpread, JSXAttrValue, JSXClosingElement, JSXElement, JSXElementChild,
    JSXElementName, JSXEmptyExpr, JSXExpr, JSXExprContainer, JSXFragment, JSXMemberExpr,
    JSXNamespacedName, JSXObject, JSXOpeningElement, JSXText, KeyValueProp, Lit, Module,
    ModuleItem, ObjectLit, Program, PropOrSpread, Script, Span, SpreadElement, Str,
};
use vue_jsx_transform::transcoder::{transform_attr, transform_attr_name, transform_attr_value};
use vue_jsx_transform::{vue_jsx, vue_jsx_in, Helper, VueJsxTransformVisitor};

const CTXT: u32 = 7;

fn sp(lo: u32, hi: u32) -> Span {
    Span { lo, hi, ctxt: 0 }
}

fn dummy() -> Span {
    Span { lo: 0, hi: 0, ctxt: 0 }
}

fn ident(sym: &str) -> Ident {
    Ident { span: sp(1, 2), sym: sym.to_string() }
}

fn helper_local(ctxt: u32) -> Ident {
    Ident { span: Span { lo: 0, hi: 0, ctxt }, sym: "createVNode".to_string() }
}

fn quoted(value: &str) -> Str {
    Str { span: dummy(), value: value.to_string(), raw: None }
}

fn written(value: &str) -> Str {
    Str { span: sp(3, 4), value: value.to_string(), raw: Some(format!("\"{}\"", value)) }
}

fn null() -> Expr {
    Expr::Lit(Lit::Null { span: dummy() })
}

fn yes() -> Expr {
    Expr::Lit(Lit::Bool { span: dummy(), value: true })
}

fn attr(name: &str, value: Option<JSXAttrValue>) -> JSXAttrOrSpread {
    JSXAttrOrSpread::JSXAttr(JSXAttr { span: sp(5, 6), name: JSXAttrName::Ident(ident(name)), value })
}

fn braces(expr: Expr) -> JSXAttrValue {
    JSXAttrValue::JSXExprContainer(JSXExprContainer {
        span: sp(7, 8),
        expr: JSXExpr::Expr(Box::new(expr)),
    })
}

fn spread(expr: Expr) -> SpreadElement {
    SpreadElement { dot3_token: sp(9, 10), expr: Box::new(expr) }
}

fn element_with(
    tag: &str,
    attrs: Vec<JSXAttrOrSpread>,
    children: Vec<JSXElementChild>,
) -> JSXElement {
    JSXElement {
        span: sp(11, 12),
        opening: JSXOpeningElement {
            name: JSXElementName::Ident(ident(tag)),
            span: sp(11, 12),
            attrs,
            self_closing: false,
        },
        children,
        closing: Some(JSXClosingElement { span: sp(13, 14), name: JSXElementName::Ident(ident(tag)) }),
    }
}

fn element(tag: &str, attrs: Vec<JSXAttrOrSpread>) -> Expr {
    Expr::JSXElement(Box::new(element_with(tag, attrs, vec![])))
}

fn call(ctxt: u32, tag: &str, second: Expr) -> Expr {
    Expr::Call(CallExpr {
        span: dummy(),
        callee: Box::new(Expr::Ident(helper_local(ctxt))),
        args: vec![Expr::Ident(ident(tag)), second],
    })
}

fn object(props: Vec<PropOrSpread>) -> Expr {
    Expr::Object(ObjectLit { span: dummy(), props })
}

fn key_value(key: &str, value: Expr) -> PropOrSpread {
    PropOrSpread::Prop(KeyValueProp { key: quoted(key), value: Box::new(value) })
}

fn host(id: u64, children: Vec<Expr>) -> HostNode {
    HostNode { id, children }
}

fn import_of(specifiers: Vec<ImportSpecifier>) -> ModuleItem {
    ModuleItem::Import(ImportDecl { span: dummy(), specifiers, src: quoted("vue") })
}

fn helper_specifier(ctxt: u32) -> ImportSpecifier {
    ImportSpecifier {
        span: dummy(),
        local: helper_local(ctxt),
        imported: Some(Ident { span: dummy(), sym: "createVNode".to_string() }),
    }
}

fn fragment(children: Vec<JSXElementChild>) -> JSXFragment {
    JSXFragment { span: sp(15, 16), opening: sp(15, 15), children, closing: sp(16, 16) }
}

fn count_elements(expr: &Expr) -> usize {
    match expr {
        Expr::JSXElement(element) => 1 + count_in_element(element),
        Expr::Call(call) => {
            count_elements(&call.callee) + call.args.iter().map(count_elements).sum::<usize>()
        }
        Expr::Object(object) => object
            .props
            .iter()
            .map(|prop| match prop {
                PropOrSpread::Spread(spread) => count_elements(&spread.expr),
                PropOrSpread::Prop(kv) => count_elements(&kv.value),
            })
            .sum(),
        Expr::JSXFragment(fragment) => fragment.children.iter().map(count_in_child).sum(),
        Expr::Host(node) => node.children.iter().map(count_elements).sum(),
        _ => 0,
    }
}

fn count_in_element(element: &JSXElement) -> usize {
    let in_attrs: usize = element
        .opening
        .attrs
        .iter()
        .map(|attr| match attr {
            JSXAttrOrSpread::SpreadElement(spread) => count_elements(&spread.expr),
            JSXAttrOrSpread::JSXAttr(attr) => match &attr.value {
                Some(JSXAttrValue::JSXExprContainer(container)) => count_in_container(container),
                Some(JSXAttrValue::JSXElement(inner)) => 1 + count_in_element(inner),
                Some(JSXAttrValue::JSXFragment(inner)) => {
                    inner.children.iter().map(count_in_child).sum()
                }
                _ => 0,
            },
        })
        .sum();
    in_attrs + element.children.iter().map(count_in_child).sum::<usize>()
}

fn count_in_container(container: &JSXExprContainer) -> usize {
    match &container.expr {
        JSXExpr::Expr(expr) => count_elements(expr),
        JSXExpr::JSXEmptyExpr(_) => 0,
    }
}

fn count_in_child(child: &JSXElementChild) -> usize {
    match child {
        JSXElementChild::JSXText(_) => 0,
        JSXElementChild::JSXExprContainer(container) => count_in_container(container),
        JSXElementChild::JSXSpreadChild(spread) => count_elements(&spread.expr),
        JSXElementChild::JSXElement(element) => 1 + count_in_element(element),
        JSXElementChild::JSXFragment(fragment) => fragment.children.iter().map(count_in_child).sum(),
    }
}

#[test]
fn tag_identifier_stays_identifier() {
    let mut visitor = VueJsxTransformVisitor::with_private_ctxt(CTXT);
    let expr = visitor.transform_tag(JSXElementName::Ident(ident("Comp")));
    assert_eq!(expr, Expr::Ident(ident("Comp")));
}

#[test]
fn tag_member_path_stays_member_path() {
    let mut visitor = VueJsxTransformVisitor::with_private_ctxt(CTXT);
    let path = || JSXMemberExpr {
        obj: JSXObject::JSXMemberExpr(Box::new(JSXMemberExpr {
            obj: JSXObject::Ident(ident("a")),
            prop: ident("b"),
        })),
        prop: ident("c"),
    };
    let expr = visitor.transform_tag(JSXElementName::JSXMemberExpr(path()));
    assert_eq!(expr, Expr::JSXMember(path()));
}

#[test]
fn tag_namespaced_name_stays_namespaced_name() {
    let mut visitor = VueJsxTransformVisitor::with_private_ctxt(CTXT);
    let name = || JSXNamespacedName { ns: ident("svg"), name: ident("rect") };
    let expr = visitor.transform_tag(JSXElementName::JSXNamespacedName(name()));
    assert_eq!(expr, Expr::JSXNamespacedName(name()));
}

#[test]
fn transcoding_leaves_the_registry_alone() {
    let mut visitor = VueJsxTransformVisitor::with_private_ctxt(CTXT);
    visitor.transform_tag(JSXElementName::Ident(ident("Comp")));
    visitor.transform_attrs(vec![attr("flag", None)]);
    assert_eq!(visitor.import_decl().specifiers, vec![]);
}

#[test]
fn attribute_key_is_the_plain_name() {
    assert_eq!(transform_attr_name(JSXAttrName::Ident(ident("v"))), quoted("v"));
}

#[test]
fn attribute_key_joins_namespace_and_name_with_a_colon() {
    let name = JSXAttrName::JSXNamespacedName(JSXNamespacedName {
        ns: ident("ns"),
        name: ident("attr"),
    });
    assert_eq!(transform_attr_name(name), quoted("ns:attr"));
}

#[test]
fn attribute_without_value_is_true() {
    assert_eq!(transform_attr_value(None), yes());
    assert_eq!(transform_attr(attr("flag", None)), key_value("flag", yes()));
}

#[test]
fn attribute_literal_is_copied() {
    let value = transform_attr_value(Some(JSXAttrValue::Lit(Lit::Str(written("x")))));
    assert_eq!(value, Expr::Lit(Lit::Str(written("x"))));
}

#[test]
fn attribute_expression_loses_its_braces() {
    let value = transform_attr_value(Some(braces(Expr::Ident(ident("value")))));
    assert_eq!(value, Expr::Ident(ident("value")));
}

#[test]
fn attribute_empty_braces_stay_an_empty_expression() {
    let empty = JSXEmptyExpr { span: sp(20, 21) };
    let value = transform_attr_value(Some(JSXAttrValue::JSXExprContainer(JSXExprContainer {
        span: sp(19, 22),
        expr: JSXExpr::JSXEmptyExpr(empty),
    })));
    assert_eq!(value, Expr::JSXEmpty(empty));
}

#[test]
fn attribute_element_and_fragment_become_expressions_of_their_kind() {
    let inner = || element_with("Inner", vec![], vec![]);
    let value = transform_attr_value(Some(JSXAttrValue::JSXElement(Box::new(inner()))));
    assert_eq!(value, Expr::JSXElement(Box::new(inner())));
    let value = transform_attr_value(Some(JSXAttrValue::JSXFragment(fragment(vec![]))));
    assert_eq!(value, Expr::JSXFragment(fragment(vec![])));
}

#[test]
fn attributes_keep_their_order_with_spreads_between() {
    let mut visitor = VueJsxTransformVisitor::with_private_ctxt(CTXT);
    let attrs = vec![
        JSXAttrOrSpread::SpreadElement(spread(Expr::Ident(ident("first")))),
        attr("a", Some(braces(Expr::Ident(ident("one"))))),
        JSXAttrOrSpread::SpreadElement(spread(Expr::Ident(ident("second")))),
        attr("b", None),
        attr("a", Some(braces(Expr::Ident(ident("two"))))),
    ];
    let got = visitor.transform_attrs(attrs);
    let want = ObjectLit {
        span: dummy(),
        props: vec![
            PropOrSpread::Spread(spread(Expr::Ident(ident("first")))),
            key_value("a", Expr::Ident(ident("one"))),
            PropOrSpread::Spread(spread(Expr::Ident(ident("second")))),
            key_value("b", yes()),
            key_value("a", Expr::Ident(ident("two"))),
        ],
    };
    assert_eq!(got, want);
}

#[test]
fn namespaced_attribute_spread_and_flag() {
    let mut expr = element(
        "Comp",
        vec![
            JSXAttrOrSpread::JSXAttr(JSXAttr {
                span: sp(5, 6),
                name: JSXAttrName::JSXNamespacedName(JSXNamespacedName {
                    ns: ident("ns"),
                    name: ident("attr"),
                }),
                value: Some(JSXAttrValue::Lit(Lit::Str(written("x")))),
            }),
            JSXAttrOrSpread::SpreadElement(spread(Expr::Ident(ident("rest")))),
            attr("flag", None),
        ],
    );
    let mut visitor = VueJsxTransformVisitor::with_private_ctxt(CTXT);
    visitor.visit_mut_expr(&mut expr);
    let want = call(
        CTXT,
        "Comp",
        object(vec![
            key_value("ns:attr", Expr::Lit(Lit::Str(written("x")))),
            PropOrSpread::Spread(spread(Expr::Ident(ident("rest")))),
            key_value("flag", yes()),
        ]),
    );
    assert_eq!(expr, want);
}

#[test]
fn element_without_attributes_gets_null() {
    let mut expr = element("Comp", vec![]);
    let mut visitor = VueJsxTransformVisitor::with_private_ctxt(CTXT);
    visitor.visit_mut_expr(&mut expr);
    assert_eq!(expr, call(CTXT, "Comp", null()));
}

#[test]
fn self_closing_element_gives_the_same_call() {
    let mut expr = Expr::JSXElement(Box::new(JSXElement {
        span: sp(11, 12),
        opening: JSXOpeningElement {
            name: JSXElementName::Ident(ident("Comp")),
            span: sp(11, 12),
            attrs: vec![],
            self_closing: true,
        },
        children: vec![],
        closing: None,
    }));
    let mut visitor = VueJsxTransformVisitor::with_private_ctxt(CTXT);
    visitor.visit_mut_expr(&mut expr);
    assert_eq!(expr, call(CTXT, "Comp", null()));
}

#[test]
fn children_of_a_rewritten_element_are_dropped() {
    let children = vec![
        JSXElementChild::JSXText(JSXText {
            span: sp(30, 31),
            value: "hi".to_string(),
            raw: "hi".to_string(),
        }),
        JSXElementChild::JSXElement(Box::new(element_with("Child", vec![], vec![]))),
    ];
    let visitor = &mut VueJsxTransformVisitor::with_private_ctxt(CTXT);
    let got = visitor.fold_expr(Expr::JSXElement(Box::new(element_with("Comp", vec![], children))));
    assert_eq!(got, call(CTXT, "Comp", null()));
}

#[test]
fn module_with_one_element() {
    let app = element("Comp", vec![attr("v", Some(braces(Expr::Ident(ident("value")))))]);
    let mut module = Module { span: sp(0, 40), body: vec![ModuleItem::Host(host(1, vec![app]))] };
    let mut visitor = VueJsxTransformVisitor::with_private_ctxt(CTXT);
    visitor.visit_mut_module(&mut module);
    let want = Module {
        span: sp(0, 40),
        body: vec![
            import_of(vec![helper_specifier(CTXT)]),
            ModuleItem::Host(host(
                1,
                vec![call(CTXT, "Comp", object(vec![key_value("v", Expr::Ident(ident("value")))]))],
            )),
        ],
    };
    assert_eq!(module, want);
}

#[test]
fn many_elements_share_one_specifier() {
    let items = vec![
        ModuleItem::Host(host(1, vec![element("A", vec![]), element("B", vec![])])),
        ModuleItem::Host(host(2, vec![Expr::Ident(ident("plain"))])),
        ModuleItem::Host(host(3, vec![element("C", vec![])])),
    ];
    let program = Program::Module(Module { span: sp(0, 90), body: items });
    let want = Program::Module(Module {
        span: sp(0, 90),
        body: vec![
            import_of(vec![helper_specifier(CTXT)]),
            ModuleItem::Host(host(1, vec![call(CTXT, "A", null()), call(CTXT, "B", null())])),
            ModuleItem::Host(host(2, vec![Expr::Ident(ident("plain"))])),
            ModuleItem::Host(host(3, vec![call(CTXT, "C", null())])),
        ],
    });
    assert_eq!(vue_jsx_in(program, CTXT), want);
}

#[test]
fn module_without_elements_gets_an_import_without_specifiers() {
    let program = Program::Module(Module {
        span: sp(0, 9),
        body: vec![ModuleItem::Host(host(1, vec![Expr::Ident(ident("plain"))]))],
    });
    let want = Program::Module(Module {
        span: sp(0, 9),
        body: vec![import_of(vec![]), ModuleItem::Host(host(1, vec![Expr::Ident(ident("plain"))]))],
    });
    assert_eq!(vue_jsx_in(program, CTXT), want);
}

#[test]
fn empty_module_gets_the_import_alone() {
    let program = Program::Module(Module { span: sp(0, 0), body: vec![] });
    let want = Program::Module(Module { span: sp(0, 0), body: vec![import_of(vec![])] });
    assert_eq!(vue_jsx_in(program, CTXT), want);
}

#[test]
fn imports_that_stand_in_the_module_stay_behind_the_new_one() {
    let old = || {
        ModuleItem::Import(ImportDecl {
            span: sp(0, 5),
            specifiers: vec![ImportSpecifier { span: sp(1, 2), local: ident("x"), imported: None }],
            src: written("lib"),
        })
    };
    let program = Program::Module(Module {
        span: sp(0, 9),
        body: vec![old(), ModuleItem::Host(host(1, vec![element("A", vec![])]))],
    });
    let want = Program::Module(Module {
        span: sp(0, 9),
        body: vec![
            import_of(vec![helper_specifier(CTXT)]),
            old(),
            ModuleItem::Host(host(1, vec![call(CTXT, "A", null())])),
        ],
    });
    assert_eq!(vue_jsx_in(program, CTXT), want);
}

#[test]
fn script_is_rewritten_without_an_import() {
    let program = Program::Script(Script {
        span: sp(0, 9),
        body: vec![host(1, vec![element("A", vec![])]), host(2, vec![])],
    });
    let want = Program::Script(Script {
        span: sp(0, 9),
        body: vec![host(1, vec![call(CTXT, "A", null())]), host(2, vec![])],
    });
    assert_eq!(vue_jsx_in(program, CTXT), want);
}

#[test]
fn nested_elements_are_rewritten_at_every_depth() {
    let innermost = JSXElementChild::JSXElement(Box::new(element_with("Leaf", vec![], vec![])));
    let middle = element_with("Middle", vec![attr("deep", Some(braces(element("Deep", vec![]))))], vec![innermost]);
    let outer = element(
        "Outer",
        vec![attr("slot", Some(JSXAttrValue::JSXElement(Box::new(middle))))],
    );
    let wrapped = Expr::Host(host(9, vec![Expr::Ident(ident("f")), outer]));
    assert_eq!(count_elements(&wrapped), 4);
    let mut visitor = VueJsxTransformVisitor::with_private_ctxt(CTXT);
    let got = visitor.fold_expr(wrapped);
    assert_eq!(count_elements(&got), 0);
    let want = Expr::Host(host(
        9,
        vec![
            Expr::Ident(ident("f")),
            call(
                CTXT,
                "Outer",
                object(vec![key_value(
                    "slot",
                    call(CTXT, "Middle", object(vec![key_value("deep", call(CTXT, "Deep", null()))])),
                )]),
            ),
        ],
    ));
    assert_eq!(got, want);
}

#[test]
fn element_among_the_children_of_a_fragment_stays() {
    let inner = |value: Expr| {
        JSXElementChild::JSXElement(Box::new(element_with(
            "Kept",
            vec![attr("v", Some(braces(value)))],
            vec![],
        )))
    };
    let input = Expr::JSXFragment(fragment(vec![inner(element("Inner", vec![]))]));
    let mut visitor = VueJsxTransformVisitor::with_private_ctxt(CTXT);
    let got = visitor.fold_expr(input);
    assert_eq!(got, Expr::JSXFragment(fragment(vec![inner(call(CTXT, "Inner", null()))])));
    assert_eq!(count_elements(&got), 1);
    assert_eq!(visitor.import_decl().specifiers, vec![helper_specifier(CTXT)]);
}

#[test]
fn fragment_as_attribute_value_is_visited() {
    let braced = |expr: Expr| {
        JSXElementChild::JSXExprContainer(JSXExprContainer {
            span: sp(7, 8),
            expr: JSXExpr::Expr(Box::new(expr)),
        })
    };
    let input = element(
        "Comp",
        vec![attr("slot", Some(JSXAttrValue::JSXFragment(fragment(vec![braced(element("A", vec![]))]))))],
    );
    let mut visitor = VueJsxTransformVisitor::with_private_ctxt(CTXT);
    let got = visitor.fold_expr(input);
    let want = call(
        CTXT,
        "Comp",
        object(vec![key_value(
            "slot",
            Expr::JSXFragment(fragment(vec![braced(call(CTXT, "A", null()))])),
        )]),
    );
    assert_eq!(got, want);
}

#[test]
fn calls_and_objects_in_the_input_are_looked_through() {
    let input = Expr::Call(CallExpr {
        span: sp(1, 9),
        callee: Box::new(Expr::Ident(ident("render"))),
        args: vec![Expr::Object(ObjectLit {
            span: sp(2, 8),
            props: vec![
                PropOrSpread::Prop(KeyValueProp { key: written("k"), value: Box::new(element("A", vec![])) }),
                PropOrSpread::Spread(spread(element("B", vec![]))),
            ],
        })],
    });
    let mut visitor = VueJsxTransformVisitor::with_private_ctxt(CTXT);
    let got = visitor.fold_expr(input);
    let want = Expr::Call(CallExpr {
        span: sp(1, 9),
        callee: Box::new(Expr::Ident(ident("render"))),
        args: vec![Expr::Object(ObjectLit {
            span: sp(2, 8),
            props: vec![
                PropOrSpread::Prop(KeyValueProp {
                    key: written("k"),
                    value: Box::new(call(CTXT, "A", null())),
                }),
                PropOrSpread::Spread(spread(call(CTXT, "B", null()))),
            ],
        })],
    });
    assert_eq!(got, want);
}

#[test]
fn expression_without_elements_is_unchanged_and_registers_nothing() {
    let input = || Expr::Host(host(3, vec![Expr::Ident(ident("a")), Expr::Lit(Lit::Other { id: 4 })]));
    let mut visitor = VueJsxTransformVisitor::with_private_ctxt(CTXT);
    let mut expr = input();
    visitor.visit_mut_expr(&mut expr);
    assert_eq!(expr, input());
    assert_eq!(visitor.import_decl(), ImportDecl { span: dummy(), specifiers: vec![], src: quoted("vue") });
}

#[test]
fn helper_is_registered_once_and_reused() {
    let mut visitor = VueJsxTransformVisitor::with_private_ctxt(CTXT);
    assert_eq!(visitor.private_ctxt(), CTXT);
    let first = visitor.helper(Helper::CreateVNode);
    let second = visitor.helper(Helper::CreateVNode);
    assert_eq!(first, helper_local(CTXT));
    assert_eq!(second, first);
    assert_eq!(visitor.import_decl().specifiers, vec![helper_specifier(CTXT)]);
    assert_eq!(Helper::CreateVNode.name(), "createVNode");
}

#[test]
fn visitor_reserves_its_context_in_the_globals() {
    let globals = Globals::new();
    let first = VueJsxTransformVisitor::new(&globals);
    let second = VueJsxTransformVisitor::new(&globals);
    assert_ne!(first.private_ctxt(), 0);
    assert_ne!(first.private_ctxt(), second.private_ctxt());
    assert_eq!(first.import_decl().specifiers, vec![]);
}

#[test]
fn whole_program_with_a_context_from_the_globals() {
    let globals = Globals::new();
    let program = Program::Module(Module {
        span: sp(0, 40),
        body: vec![ModuleItem::Host(host(
            1,
            vec![element("Comp", vec![attr("v", Some(braces(Expr::Ident(ident("value")))))])],
        ))],
    });
    let got = vue_jsx(program, &globals);
    let Program::Module(module) = got else { panic!("a module stays a module") };
    assert_eq!(module.body.len(), 2);
    let ModuleItem::Import(import) = &module.body[0] else { panic!("the import comes first") };
    assert_eq!(import.src, quoted("vue"));
    assert_eq!(import.specifiers.len(), 1);
    let local = &import.specifiers[0].local;
    assert_eq!(local.sym, "createVNode");
    assert_ne!(local.span.ctxt, 0);
    let want = call(
        local.span.ctxt,
        "Comp",
        object(vec![key_value("v", Expr::Ident(ident("value")))]),
    );
    assert_eq!(module.body[1], ModuleItem::Host(host(1, vec![want])));
}
