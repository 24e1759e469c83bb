use react_boundary::Span;
use react_boundary::analyze::{analyze_program, AnalysisResult};
use react_boundary::ast::{
    Argument, Binding, CallExpr, Declarator, DefaultExport, ExportNamedDecl, ExportedDecl,
    Expression, Ident, ImportDecl, ImportSpecifier, JsxChild, JsxElement, JsxMemberObject,
    JsxName, ObjectProperty, Program, Statement, TsType, VariableDecl,
};
use react_boundary::component::is_react_component;
use react_boundary::jsx::collect_jsx_usages;

fn sp(start: u32, end: u32) -> Span {
    Span { start, end }
}

fn ident(name: &str, start: u32, end: u32) -> Ident {
    Ident { name: name.to_string(), span: sp(start, end) }
}

fn element(tag: &str, start: u32, end: u32, children: Vec<JsxChild>) -> JsxElement {
    JsxElement { span: sp(start, end), name: JsxName::Ident(tag.to_string()), children }
}

fn child(el: JsxElement) -> JsxChild {
    JsxChild::Element(Box::new(el))
}

fn arrow_returning(e: Expression) -> Expression {
    Expression::Arrow { expression: false, body: vec![Statement::Return(Some(e))] }
}

fn arrow_expression(e: Expression) -> Expression {
    Expression::Arrow { expression: true, body: vec![Statement::Expr(e)] }
}

fn const_decl(name: &str, start: u32, end: u32, init: Expression) -> Statement {
    Statement::Variable(VariableDecl {
        declarators: vec![Declarator {
            binding: Binding::Ident(ident(name, start, end)),
            type_annotation: None,
            init: Some(init),
        }],
    })
}

fn export_const(name: &str, start: u32, end: u32, init: Expression) -> Statement {
    Statement::ExportNamed(ExportNamedDecl {
        declaration: Some(ExportedDecl::Variable(VariableDecl {
            declarators: vec![Declarator {
                binding: Binding::Ident(ident(name, start, end)),
                type_annotation: None,
                init: Some(init),
            }],
        })),
        specifiers: vec![],
    })
}

fn export_default_ident(name: &str) -> Statement {
    Statement::ExportDefault(DefaultExport::Expr(Expression::Identifier {
        name: name.to_string(),
    }))
}

fn import_stmt(
    type_only: bool,
    specifiers: Vec<ImportSpecifier>,
    source: &str,
    start: u32,
    end: u32,
) -> Statement {
    Statement::Import(ImportDecl {
        type_only,
        specifiers,
        source: source.to_string(),
        source_span: sp(start, end),
    })
}

fn named(local: &str) -> ImportSpecifier {
    ImportSpecifier::Named { local: local.to_string(), type_only: false }
}

fn program(directives: Vec<&str>, body: Vec<Statement>) -> Program {
    Program { directives: directives.iter().map(|d| d.to_string()).collect(), body }
}

fn analyze(source: &str, p: &Program) -> AnalysisResult {
    analyze_program(source.as_bytes(), p)
}

#[test]
fn test_single_default_export_without_directive() {
    // const Button = () => <button>Click</button>; export default Button;
    let source = "const Button = () => <button>Click</button>; export default Button;";
    let p = program(
        vec![],
        vec![
            const_decl(
                "Button",
                6,
                12,
                arrow_expression(Expression::Jsx(element("button", 21, 43, vec![JsxChild::Other]))),
            ),
            export_default_ident("Button"),
        ],
    );

    let result = analyze(source, &p);

    assert_eq!(result.components.len(), 1);
    assert_eq!(result.components[0].name, "Button");
    assert!(!result.components[0].is_client_component);
}

#[test]
fn test_directive_marks_every_exported_component() {
    // "use client"; export const Button = () => {...};
    // export const Link = () => {...}; const Third = () => {...};
    // export default Third;
    let source = r#"
"use client";
export const Button = () => { return <button>B</button>; };
export const Link = () => { return <a>L</a>; };
const Third = () => { return <div>T</div>; };
export default Third;
        "#;
    let p = program(
        vec!["use client"],
        vec![
            export_const(
                "Button",
                28,
                34,
                arrow_returning(Expression::Jsx(element("button", 52, 70, vec![JsxChild::Other]))),
            ),
            export_const(
                "Link",
                88,
                92,
                arrow_returning(Expression::Jsx(element("a", 103, 113, vec![JsxChild::Other]))),
            ),
            const_decl(
                "Third",
                129,
                134,
                arrow_returning(Expression::Jsx(element("div", 152, 164, vec![JsxChild::Other]))),
            ),
            export_default_ident("Third"),
        ],
    );

    let result = analyze(source, &p);

    assert_eq!(result.components.len(), 3);
    assert!(result.components.iter().all(|c| c.is_client_component));
}

#[test]
fn test_local_component_absent_from_usages() {
    // import { Button } from "./c"; const Local = () => <div/>;
    // const App = () => <><Button/><Local/></>; export default App;
    let source = r#"import { Button } from "./c"; const Local = () => <div/>; const App = () => <><Button/><Local/></>; export default App;"#;
    let fragment = Expression::JsxFragment(vec![
        child(element("Button", 79, 88, vec![])),
        child(element("Local", 88, 96, vec![])),
    ]);
    let p = program(
        vec![],
        vec![
            import_stmt(false, vec![named("Button")], "./c", 23, 28),
            const_decl("Local", 36, 41, arrow_expression(Expression::Jsx(element(
                "div",
                51,
                57,
                vec![],
            )))),
            const_decl("App", 64, 67, arrow_expression(fragment)),
            export_default_ident("App"),
        ],
    );

    let result = analyze(source, &p);

    assert_eq!(result.jsx_usages.len(), 1);
    assert_eq!(result.jsx_usages[0].component_name, "Button");
}

#[test]
fn test_renamed_factory_import_classifies_component() {
    // import { jsx as foobar } from "react/jsx-runtime";
    // const X = () => foobar("div", {...});
    let runtime_ids = vec!["foobar".to_string()];
    let call = Expression::Call(CallExpr {
        callee: Box::new(Expression::Identifier { name: "foobar".to_string() }),
        arguments: vec![
            Argument::Expr(Expression::StringLiteral { value: "div".to_string() }),
            Argument::Expr(Expression::Object(vec![ObjectProperty::Other])),
        ],
    });
    let init = Some(arrow_expression(call));
    assert!(is_react_component("X", &None, &init, &runtime_ids));
}

#[test]
fn test_empty_module_yields_empty_result() {
    let result = analyze("", &program(vec![], vec![]));
    assert_eq!(result.imports.len(), 0);
    assert_eq!(result.components.len(), 0);
    assert_eq!(result.jsx_usages.len(), 0);
}

#[test]
fn test_later_declaration_of_same_name_wins() {
    // Two component declarations of the same name: the re-export resolves to
    // the span of the later declaration.
    let source = "const Button = () => <a/>;    const Button = () => <b/>;    export { Button };";
    let p = program(
        vec![],
        vec![
            const_decl("Button", 6, 12, arrow_expression(Expression::Jsx(element(
                "a", 21, 25, vec![],
            )))),
            const_decl("Button", 36, 42, arrow_expression(Expression::Jsx(element(
                "b", 51, 55, vec![],
            )))),
            Statement::ExportNamed(ExportNamedDecl {
                declaration: None,
                specifiers: vec!["Button".to_string()],
            }),
        ],
    );

    let result = analyze(source, &p);

    assert_eq!(result.components.len(), 1);
    assert_eq!(result.components[0].name, "Button");
    // Single-line source: the column equals the byte offset of the later span.
    assert_eq!(result.components[0].range.start.character, 36);
    assert_eq!(result.components[0].range.end.character, 42);
}

#[test]
fn test_export_registration_call_resolves_regardless_of_order() {
    // The registration call precedes the declaration and still exports it;
    // a key that names no declaration exports nothing.
    let source = "__export(exports, { Button: 0, Unknown: 0 }); const Button = () => <b/>;";
    let registration = Statement::Expr(Expression::Call(CallExpr {
        callee: Box::new(Expression::Identifier { name: "__export".to_string() }),
        arguments: vec![
            Argument::Expr(Expression::Identifier { name: "exports".to_string() }),
            Argument::Expr(Expression::Object(vec![
                ObjectProperty::Static { key: "Button".to_string() },
                ObjectProperty::Static { key: "Unknown".to_string() },
            ])),
        ],
    }));
    let p = program(
        vec![],
        vec![
            registration,
            const_decl("Button", 52, 58, arrow_expression(Expression::Jsx(element(
                "b", 68, 72, vec![],
            )))),
        ],
    );

    let result = analyze(source, &p);

    // "Button" is declared and registered; "Unknown" names no declaration.
    assert_eq!(result.components.len(), 1);
    assert_eq!(result.components[0].name, "Button");
}

#[test]
fn test_lowercase_member_base_not_recorded() {
    // <alertDialog.Root/> has a lowercase base and is ignored.
    let body = vec![Statement::Return(Some(Expression::Jsx(JsxElement {
        span: sp(0, 20),
        name: JsxName::Member { object: JsxMemberObject::Ident("alertDialog".to_string()) },
        children: vec![],
    })))];
    let usages = collect_jsx_usages(&body);
    assert_eq!(usages.len(), 0);
}

#[test]
fn test_namespaced_and_this_tags_not_recorded() {
    let body = vec![
        Statement::Return(Some(Expression::Jsx(JsxElement {
            span: sp(0, 10),
            name: JsxName::Namespaced,
            children: vec![],
        }))),
        Statement::Expr(Expression::Jsx(JsxElement {
            span: sp(12, 30),
            name: JsxName::This,
            children: vec![child(element("Inner", 20, 28, vec![]))],
        })),
    ];
    let usages = collect_jsx_usages(&body);
    // The unsupported tags produce nothing, but their children are still visited.
    assert_eq!(usages.len(), 1);
    assert_eq!(usages[0].0, "Inner");
}

#[test]
fn test_type_only_named_specifier_skipped() {
    // import { type FC, Button } from "./m";
    let source = r#"import { type FC, Button } from "./m";"#;
    let p = program(
        vec![],
        vec![import_stmt(
            false,
            vec![
                ImportSpecifier::Named { local: "FC".to_string(), type_only: true },
                named("Button"),
            ],
            "./m",
            32,
            37,
        )],
    );

    let result = analyze(source, &p);

    assert_eq!(result.imports.len(), 1);
    assert_eq!(result.imports[0].identifier, vec!["Button".to_string()]);
}

#[test]
fn test_other_directive_does_not_mark_client() {
    let source = r#""use strict"; export const Button = () => <b/>;"#;
    let p = program(
        vec!["use strict"],
        vec![export_const("Button", 27, 33, arrow_expression(Expression::Jsx(element(
            "b", 42, 46, vec![],
        ))))],
    );

    let result = analyze(source, &p);

    assert_eq!(result.components.len(), 1);
    assert!(!result.components[0].is_client_component);
}

#[test]
fn test_member_factory_property_recognized() {
    // (0, runtime.jsx)("div", {}) — member access with a factory property name.
    let call = Expression::Call(CallExpr {
        callee: Box::new(Expression::Sequence(vec![
            Expression::Other,
            Expression::StaticMember {
                object: Box::new(Expression::Identifier { name: "runtime".to_string() }),
                property: "jsx".to_string(),
            },
        ])),
        arguments: vec![Argument::Expr(Expression::StringLiteral { value: "div".to_string() })],
    });
    let init = Some(arrow_returning(call));
    // No bound runtime identifiers: the fixed property name alone qualifies.
    assert!(is_react_component("Panel", &None, &init, &Vec::new()));

    // A non-factory property name does not qualify.
    let other = Expression::Call(CallExpr {
        callee: Box::new(Expression::Sequence(vec![
            Expression::Other,
            Expression::StaticMember {
                object: Box::new(Expression::Identifier { name: "runtime".to_string() }),
                property: "render".to_string(),
            },
        ])),
        arguments: vec![],
    });
    assert!(!is_react_component("Panel", &None, &Some(arrow_returning(other)), &Vec::new()));
}

#[test]
fn test_hoc_member_on_any_object() {
    // const Button = Lib.memo(() => <b/>); — any object base qualifies.
    let wrapped = arrow_expression(Expression::Jsx(element("b", 26, 30, vec![])));
    let call = Expression::Call(CallExpr {
        callee: Box::new(Expression::StaticMember {
            object: Box::new(Expression::Identifier { name: "Lib".to_string() }),
            property: "memo".to_string(),
        }),
        arguments: vec![Argument::Expr(wrapped)],
    });
    assert!(is_react_component("Button", &None, &Some(call), &Vec::new()));

    // A member access with a property that is not a wrapper does not qualify.
    let other = Expression::Call(CallExpr {
        callee: Box::new(Expression::StaticMember {
            object: Box::new(Expression::Identifier { name: "Lib".to_string() }),
            property: "wrap".to_string(),
        }),
        arguments: vec![Argument::Expr(arrow_expression(Expression::Jsx(element(
            "b", 26, 30, vec![],
        ))))],
    });
    assert!(!is_react_component("Button", &None, &Some(other), &Vec::new()));
}

#[test]
fn test_hoc_nested_wrapping() {
    // const Input = memo(forwardRef(() => <input/>)); — recursive unwrapping.
    let inner = arrow_expression(Expression::Jsx(element("input", 33, 41, vec![])));
    let forward = Expression::Call(CallExpr {
        callee: Box::new(Expression::Identifier { name: "forwardRef".to_string() }),
        arguments: vec![Argument::Expr(inner)],
    });
    let memo = Expression::Call(CallExpr {
        callee: Box::new(Expression::Identifier { name: "memo".to_string() }),
        arguments: vec![Argument::Expr(forward)],
    });
    assert!(is_react_component("Input", &None, &Some(memo), &Vec::new()));
}

#[test]
fn test_nested_member_tag_records_base() {
    // <Ui.Menu.Item/> is recorded under its base identifier "Ui".
    let nested = JsxElement {
        span: sp(0, 15),
        name: JsxName::Member {
            object: JsxMemberObject::Member(Box::new(JsxMemberObject::Ident("Ui".to_string()))),
        },
        children: vec![],
    };
    let usages = collect_jsx_usages(&vec![Statement::Expr(Expression::Jsx(nested))]);
    assert_eq!(usages.len(), 1);
    assert_eq!(usages[0].0, "Ui");

    // A this-based chain records nothing.
    let this_based = JsxElement {
        span: sp(0, 12),
        name: JsxName::Member {
            object: JsxMemberObject::Member(Box::new(JsxMemberObject::This)),
        },
        children: vec![],
    };
    let usages = collect_jsx_usages(&vec![Statement::Expr(Expression::Jsx(this_based))]);
    assert_eq!(usages.len(), 0);

    // A lowercase base records nothing, at depth two as at depth one.
    let lower = JsxElement {
        span: sp(0, 14),
        name: JsxName::Member {
            object: JsxMemberObject::Member(Box::new(JsxMemberObject::Ident("ui".to_string()))),
        },
        children: vec![],
    };
    let usages = collect_jsx_usages(&vec![Statement::Expr(Expression::Jsx(lower))]);
    assert_eq!(usages.len(), 0);
}
