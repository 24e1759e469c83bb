//! Component classifier: decides whether a declaration is a component, by the
//! PascalCase gate, a recognized component-type annotation, a markup literal
//! in the initializer or body, a call of a runtime markup factory (the
//! compiled form of a markup literal), or a higher-order wrapper around one
//! of these.

use vstd::prelude::*;
use crate::Span;
use crate::ast::{Argument, CallExpr, Expression, Function, Statement, TsType};
use crate::text::{contains_name, seq_contains_name, spec_upper_start, str_eq, upper_start};

verus! {

/// The fixed set of recognized framework component-type names.
pub open spec fn react_type_name(n: Seq<char>) -> bool {
    ||| n == "FC"@
    ||| n == "FunctionComponent"@
    ||| n == "VFC"@
    ||| n == "ReactElement"@
    ||| n == "ReactNode"@
    ||| n == "Component"@
}

/// Whether a type annotation references one of the recognized component-type
/// names.
pub open spec fn spec_is_react_type(t: TsType) -> bool {
    match t {
        TsType::Reference { name } => react_type_name(name@),
        TsType::Other => false,
    }
}

/// Whether an optional type annotation references a recognized component type.
pub open spec fn spec_has_react_type(t: Option<TsType>) -> bool {
    match t {
        Some(t) => spec_is_react_type(t),
        None => false,
    }
}

/// Whether a type annotation is a recognized component type.
pub fn is_react_type_annotation(t: &TsType) -> (r: bool)
    ensures
        r == spec_is_react_type(*t),
{
    match t {
        TsType::Reference { name } => {
            let s = name.as_str();
            str_eq(s, "FC") || str_eq(s, "FunctionComponent") || str_eq(s, "VFC") || str_eq(
                s,
                "ReactElement",
            ) || str_eq(s, "ReactNode") || str_eq(s, "Component")
        },
        TsType::Other => false,
    }
}

/// Whether an optional type annotation is a recognized component type.
pub fn has_react_type(t: &Option<TsType>) -> (r: bool)
    ensures
        r == spec_has_react_type(*t),
{
    match t {
        Some(t) => is_react_type_annotation(t),
        None => false,
    }
}

/// The fixed runtime-factory property names used by compiled markup code.
pub open spec fn runtime_factory_prop(n: Seq<char>) -> bool {
    ||| n == "jsx"@
    ||| n == "jsxs"@
    ||| n == "jsxDEV"@
    ||| n == "Fragment"@
}

/// Whether the name is one of the fixed runtime-factory property names.
pub fn is_runtime_factory_prop(name: &str) -> (r: bool)
    ensures
        r == runtime_factory_prop(name@),
{
    str_eq(name, "jsx") || str_eq(name, "jsxs") || str_eq(name, "jsxDEV") || str_eq(
        name,
        "Fragment",
    )
}

/// Whether the expression is a markup literal: an element or a fragment.
pub open spec fn spec_is_jsx_literal(e: Expression) -> bool {
    match e {
        Expression::Jsx(_) => true,
        Expression::JsxFragment(_) => true,
        _ => false,
    }
}

/// A parenthesized callee is unwrapped before the sequence-expression check.
pub open spec fn spec_unwrap_paren(e: Expression) -> Expression {
    match e {
        Expression::Paren(inner) => *inner,
        _ => e,
    }
}

/// Whether a (paren-unwrapped) callee is a sequence expression whose final
/// element names a runtime factory: a bound identifier, a member access with
/// a factory property name, or a computed member access keyed by a factory
/// name literal.
pub open spec fn spec_sequence_callee_factory(e: Expression, runtime_ids: Seq<String>) -> bool {
    match e {
        Expression::Sequence(exprs) => exprs@.len() > 0 && match exprs@.last() {
            Expression::Identifier { name } => seq_contains_name(runtime_ids, name@),
            Expression::StaticMember { object: _, property } => runtime_factory_prop(property@),
            Expression::ComputedMember { object: _, key } => match *key {
                Expression::StringLiteral { value } => runtime_factory_prop(value@),
                _ => false,
            },
            _ => false,
        },
        _ => false,
    }
}

/// Whether the expression is a call of a runtime markup factory: a direct
/// call of an identifier bound by a runtime-module import, or the compiled
/// `(0, factory)(...)` sequence-expression pattern.
pub open spec fn spec_is_jsx_runtime_call(e: Expression, runtime_ids: Seq<String>) -> bool {
    match e {
        Expression::Call(call) => match *call.callee {
            Expression::Identifier { name } => seq_contains_name(runtime_ids, name@),
            _ => spec_sequence_callee_factory(spec_unwrap_paren(*call.callee), runtime_ids),
        },
        _ => false,
    }
}

/// Whether the expression is a call of a runtime markup factory.
pub fn is_jsx_runtime_call(expr: &Expression, runtime_ids: &Vec<String>) -> (r: bool)
    ensures
        r == spec_is_jsx_runtime_call(*expr, runtime_ids@),
{
    match expr {
        Expression::Call(call) => {
            if let Expression::Identifier { name } = &*call.callee {
                return contains_name(runtime_ids, name.as_str());
            }
            let actual: &Expression = match &*call.callee {
                Expression::Paren(inner) => inner,
                other => other,
            };
            match actual {
                Expression::Sequence(exprs) => {
                    let n = exprs.len();
                    if n == 0 {
                        return false;
                    }
                    match &exprs[n - 1] {
                        Expression::Identifier { name } => contains_name(
                            runtime_ids,
                            name.as_str(),
                        ),
                        Expression::StaticMember { object: _, property } => {
                            is_runtime_factory_prop(property.as_str())
                        },
                        Expression::ComputedMember { object: _, key } => match &**key {
                            Expression::StringLiteral { value } => is_runtime_factory_prop(
                                value.as_str(),
                            ),
                            _ => false,
                        },
                        _ => false,
                    }
                },
                _ => false,
            }
        },
        _ => false,
    }
}

/// Whether the call is a higher-order component wrapper: a `forwardRef` or
/// `memo` member access on any object (most commonly the framework
/// namespace), or a direct `forwardRef`/`memo` call.
pub open spec fn spec_is_react_hoc(call: CallExpr) -> bool {
    match *call.callee {
        Expression::StaticMember { object: _, property } => property@ == "forwardRef"@
            || property@ == "memo"@,
        Expression::Identifier { name } => name@ == "forwardRef"@ || name@ == "memo"@,
        _ => false,
    }
}

/// Whether the call is a higher-order component wrapper.
pub fn is_react_hoc(call: &CallExpr) -> (r: bool)
    ensures
        r == spec_is_react_hoc(*call),
{
    match &*call.callee {
        Expression::StaticMember { object: _, property } => str_eq(property.as_str(), "forwardRef")
            || str_eq(property.as_str(), "memo"),
        Expression::Identifier { name } => str_eq(name.as_str(), "forwardRef") || str_eq(
            name.as_str(),
            "memo",
        ),
        _ => false,
    }
}

/// Whether the statement is a return whose argument is a markup literal or a
/// runtime factory call.
pub open spec fn spec_jsx_return_stmt(s: Statement, runtime_ids: Seq<String>) -> bool {
    match s {
        Statement::Return(Some(arg)) => spec_is_jsx_literal(arg) || spec_is_jsx_runtime_call(
            arg,
            runtime_ids,
        ),
        _ => false,
    }
}

/// Whether some statement returns a markup literal or a runtime factory call.
pub open spec fn spec_has_jsx_return(stmts: Seq<Statement>, runtime_ids: Seq<String>) -> bool {
    exists|i: int| 0 <= i < stmts.len() && spec_jsx_return_stmt(stmts[i], runtime_ids)
}

/// Whether some statement returns a markup literal or a runtime factory call.
pub fn has_jsx_return(stmts: &Vec<Statement>, runtime_ids: &Vec<String>) -> (r: bool)
    ensures
        r == spec_has_jsx_return(stmts@, runtime_ids@),
{
    let n = stmts.len();
    let mut i: usize = 0;
    while i < n
        invariant
            i <= n,
            n == stmts@.len(),
            forall|j: int| 0 <= j < i ==> !spec_jsx_return_stmt(stmts@[j], runtime_ids@),
        decreases n - i,
    {
        match &stmts[i] {
            Statement::Return(Some(arg)) => {
                if let Expression::Jsx(_) = arg {
                    return true;
                }
                if let Expression::JsxFragment(_) = arg {
                    return true;
                }
                if is_jsx_runtime_call(arg, runtime_ids) {
                    return true;
                }
            },
            _ => {},
        }
        i = i + 1;
    }
    false
}

/// Whether the statement is an expression statement whose expression is a
/// markup literal or a runtime factory call (the implicit return of an arrow
/// function with an expression body).
pub open spec fn spec_jsx_expr_stmt(s: Statement, runtime_ids: Seq<String>) -> bool {
    match s {
        Statement::Expr(e) => spec_is_jsx_literal(e) || spec_is_jsx_runtime_call(e, runtime_ids),
        _ => false,
    }
}

/// Whether some statement is an expression statement holding a markup literal
/// or a runtime factory call.
pub fn has_jsx_expr_stmt(stmts: &Vec<Statement>, runtime_ids: &Vec<String>) -> (r: bool)
    ensures
        r == (exists|i: int| 0 <= i < stmts@.len() && spec_jsx_expr_stmt(stmts@[i], runtime_ids@)),
{
    let n = stmts.len();
    let mut i: usize = 0;
    while i < n
        invariant
            i <= n,
            n == stmts@.len(),
            forall|j: int| 0 <= j < i ==> !spec_jsx_expr_stmt(stmts@[j], runtime_ids@),
        decreases n - i,
    {
        match &stmts[i] {
            Statement::Expr(e) => {
                if let Expression::Jsx(_) = e {
                    return true;
                }
                if let Expression::JsxFragment(_) = e {
                    return true;
                }
                if is_jsx_runtime_call(e, runtime_ids) {
                    return true;
                }
            },
            _ => {},
        }
        i = i + 1;
    }
    false
}

/// Whether the expression contains markup in the sense of the classifier: it
/// is itself a markup literal or factory call, a higher-order component
/// wrapper whose first argument contains markup, or a function whose body
/// returns markup.
pub open spec fn spec_contains_jsx(e: Expression, runtime_ids: Seq<String>) -> bool
    decreases e,
{
    if spec_is_jsx_literal(e) {
        true
    } else if spec_is_jsx_runtime_call(e, runtime_ids) {
        true
    } else {
        match e {
            Expression::Call(call) => spec_is_react_hoc(call) && call.arguments@.len() > 0
                && match call.arguments@[0] {
                Argument::Expr(inner) => spec_contains_jsx(inner, runtime_ids),
                Argument::Spread => false,
            },
            Expression::Arrow { expression, body } => if expression {
                exists|i: int| 0 <= i < body@.len() && spec_jsx_expr_stmt(body@[i], runtime_ids)
            } else {
                spec_has_jsx_return(body@, runtime_ids)
            },
            Expression::FunctionExpr(f) => match f.body {
                Some(b) => spec_has_jsx_return(b@, runtime_ids),
                None => false,
            },
            _ => false,
        }
    }
}

/// Whether the expression contains markup in the sense of the classifier.
pub fn contains_jsx(expr: &Expression, runtime_ids: &Vec<String>) -> (r: bool)
    ensures
        r == spec_contains_jsx(*expr, runtime_ids@),
    decreases *expr,
{
    if let Expression::Jsx(_) = expr {
        return true;
    }
    if let Expression::JsxFragment(_) = expr {
        return true;
    }
    if is_jsx_runtime_call(expr, runtime_ids) {
        return true;
    }
    match expr {
        Expression::Call(call) => {
            if is_react_hoc(call) && call.arguments.len() > 0 {
                match &call.arguments[0] {
                    Argument::Expr(inner) => contains_jsx(inner, runtime_ids),
                    Argument::Spread => false,
                }
            } else {
                false
            }
        },
        Expression::Arrow { expression, body } => {
            if *expression {
                has_jsx_expr_stmt(body, runtime_ids)
            } else {
                has_jsx_return(body, runtime_ids)
            }
        },
        Expression::FunctionExpr(f) => match &f.body {
            Some(b) => has_jsx_return(b, runtime_ids),
            None => false,
        },
        _ => false,
    }
}

/// Whether a variable declaration is a component: the PascalCase gate, then a
/// recognized type annotation, then markup in the initializer.
pub open spec fn spec_is_react_component(
    name: Seq<char>,
    type_annotation: Option<TsType>,
    init: Option<Expression>,
    runtime_ids: Seq<String>,
) -> bool {
    spec_upper_start(name) && (spec_has_react_type(type_annotation) || match init {
        Some(e) => spec_contains_jsx(e, runtime_ids),
        None => false,
    })
}

/// Whether a variable declaration with the given name, type annotation and
/// initializer is a component.
pub fn is_react_component(
    name: &str,
    type_annotation: &Option<TsType>,
    init: &Option<Expression>,
    runtime_ids: &Vec<String>,
) -> (r: bool)
    ensures
        r == spec_is_react_component(name@, *type_annotation, *init, runtime_ids@),
{
    if !upper_start(name) {
        return false;
    }
    if has_react_type(type_annotation) {
        return true;
    }
    match init {
        Some(e) => contains_jsx(e, runtime_ids),
        None => false,
    }
}

/// Whether a function declaration is a component: the PascalCase gate, then a
/// recognized return-type annotation, then a markup return in the body.
pub open spec fn spec_is_react_function_component(
    name: Seq<char>,
    return_type: Option<TsType>,
    body: Option<Vec<Statement>>,
    runtime_ids: Seq<String>,
) -> bool {
    spec_upper_start(name) && (spec_has_react_type(return_type) || match body {
        Some(b) => spec_has_jsx_return(b@, runtime_ids),
        None => false,
    })
}

/// Whether a function declaration with the given name, return type and body
/// is a component.
pub fn is_react_function_component(
    name: &str,
    return_type: &Option<TsType>,
    body: &Option<Vec<Statement>>,
    runtime_ids: &Vec<String>,
) -> (r: bool)
    ensures
        r == spec_is_react_function_component(name@, *return_type, *body, runtime_ids@),
{
    if !upper_start(name) {
        return false;
    }
    if has_react_type(return_type) {
        return true;
    }
    match body {
        Some(b) => has_jsx_return(b, runtime_ids),
        None => false,
    }
}

/// The name and identifier span of a named function declaration that the
/// classifier accepts as a component, if any.
pub open spec fn spec_function_component(f: Function, runtime_ids: Seq<String>) -> Option<
    (String, Span),
> {
    match f.id {
        Some(id) => if spec_is_react_function_component(
            id.name@,
            f.return_type,
            f.body,
            runtime_ids,
        ) {
            Some((id.name, id.span))
        } else {
            None
        },
        None => None,
    }
}

/// Classify a function declaration, returning its name and identifier span
/// when it is a component.
pub fn analyze_function_declaration(func: &Function, runtime_ids: &Vec<String>) -> (r: Option<
    (String, Span),
>)
    ensures
        r == spec_function_component(*func, runtime_ids@),
{
    match &func.id {
        Some(id) => {
            if is_react_function_component(
                id.name.as_str(),
                &func.return_type,
                &func.body,
                runtime_ids,
            ) {
                Some((id.name.clone(), id.span))
            } else {
                None
            }
        },
        None => None,
    }
}

} // verus!
