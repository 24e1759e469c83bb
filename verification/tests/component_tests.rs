use react_boundary::Span;
use react_boundary::ast::{Expression, JsxChild, JsxElement, JsxName, Statement, TsType};
use react_boundary::component::{is_react_component, is_react_function_component};

fn sp(start: u32, end: u32) -> Span {
    Span { start, end }
}

/// A markup element with text content, such as `<div>Hello</div>`.
fn element_with_text(tag: &str, start: u32, end: u32) -> Expression {
    Expression::Jsx(JsxElement {
        span: sp(start, end),
        name: JsxName::Ident(tag.to_string()),
        children: vec![JsxChild::Other],
    })
}

/// An arrow function with a block body that returns the given expression.
fn arrow_returning(e: Expression) -> Expression {
    Expression::Arrow { expression: false, body: vec![Statement::Return(Some(e))] }
}

/// An arrow function whose body is the expression itself (implicit return).
fn arrow_expression(e: Expression) -> Expression {
    Expression::Arrow { expression: true, body: vec![Statement::Expr(e)] }
}

fn no_runtime_ids() -> Vec<String> {
    Vec::new()
}

#[test]
fn test_is_react_component_with_jsx_return() {
    // const MyComponent = () => {
    //     return <div>Hello</div>;
    // };
    let init = Some(arrow_returning(element_with_text("div", 39, 60)));
    let result = is_react_component("MyComponent", &None, &init, &no_runtime_ids());
    assert!(result, "PascalCase component with JSX should be detected");
}

#[test]
fn test_is_react_component_camelcase_should_fail() {
    // const myComponent = () => {
    //     return <div>Hello</div>;
    // };
    let init = Some(arrow_returning(element_with_text("div", 39, 60)));
    let result = is_react_component("myComponent", &None, &init, &no_runtime_ids());
    assert!(!result, "camelCase should not be detected as component");
}

#[test]
fn test_is_react_component_with_type_annotation() {
    // const MyComponent: FC = () => {
    //     return null;
    // };
    let annotation = Some(TsType::Reference { name: "FC".to_string() });
    let init = Some(arrow_returning(Expression::Other));
    let result = is_react_component("MyComponent", &annotation, &init, &no_runtime_ids());
    assert!(result, "Component with FC type annotation should be detected");
}

#[test]
fn test_is_react_component_no_jsx_no_type() {
    // const MyFunction = () => {
    //     return "hello";
    // };
    let init = Some(arrow_returning(Expression::StringLiteral { value: "hello".to_string() }));
    let result = is_react_component("MyFunction", &None, &init, &no_runtime_ids());
    assert!(!result, "PascalCase without JSX or type should not be detected");
}

#[test]
fn test_arrow_function_with_jsx() {
    // const MyComponent = () => <div>Hello</div>;
    let init = Some(arrow_expression(element_with_text("div", 26, 42)));
    let result = is_react_component("MyComponent", &None, &init, &no_runtime_ids());
    assert!(result, "Arrow function with direct JSX return should be detected");
}

#[test]
fn test_function_declaration_with_jsx() {
    // function MyComponent() {
    //     return <div>Hello</div>;
    // }
    let body = Some(vec![Statement::Return(Some(element_with_text("div", 36, 57)))]);
    let result = is_react_function_component("MyComponent", &None, &body, &no_runtime_ids());
    assert!(result, "Function declaration with JSX return should be detected");
}

#[test]
fn test_function_declaration_camelcase_should_fail() {
    // function myFunction() {
    //     return <div>Hello</div>;
    // }
    let body = Some(vec![Statement::Return(Some(element_with_text("div", 35, 56)))]);
    let result = is_react_function_component("myFunction", &None, &body, &no_runtime_ids());
    assert!(!result, "camelCase function should not be detected as component");
}

#[test]
fn test_function_declaration_no_jsx_should_fail() {
    // function MyFunction() {
    //     return "hello";
    // }
    let body = Some(vec![Statement::Return(Some(Expression::StringLiteral {
        value: "hello".to_string(),
    }))]);
    let result = is_react_function_component("MyFunction", &None, &body, &no_runtime_ids());
    assert!(!result, "Function without JSX should not be detected as component");
}
