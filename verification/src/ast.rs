//! The syntax tree that the analysis reads: an ordered statement list with
//! discriminated variants for the statement, expression and markup-element
//! kinds the analysis distinguishes. The parser collaborator produces this
//! tree; every kind the analysis does not inspect is folded into an `Other`
//! variant so that each heuristic stays total over the tree.

use vstd::prelude::*;
use crate::Span;

verus! {

/// One parsed source module: its leading directive strings (such as a client
/// directive) and its top-level statements.
pub struct Program {
    pub directives: Vec<String>,
    pub body: Vec<Statement>,
}

/// An identifier together with the byte span of its token.
pub struct Ident {
    pub name: String,
    pub span: Span,
}

/// A type annotation, reduced to what classification reads: a reference to a
/// plain (unqualified) type name, or anything else.
pub enum TsType {
    Reference { name: String },
    Other,
}

/// One specifier of an import statement and the local name it binds.
pub enum ImportSpecifier {
    /// `import { a }` or `import { a as b }`; carries its own type-only flag.
    Named { local: String, type_only: bool },
    /// `import a from "m"`.
    Default { local: String },
    /// `import * as a from "m"`.
    Namespace { local: String },
}

/// An import statement: its specifiers, the module specifier text, and the
/// byte span of the specifier literal including its quote characters.
pub struct ImportDecl {
    pub type_only: bool,
    pub specifiers: Vec<ImportSpecifier>,
    pub source: String,
    pub source_span: Span,
}

/// The binding position of a variable declarator.
pub enum Binding {
    /// A plain identifier binding.
    Ident(Ident),
    /// A destructuring pattern; never classified as a component.
    Pattern,
}

/// One `name = init` declarator of a variable declaration.
pub struct Declarator {
    pub binding: Binding,
    pub type_annotation: Option<TsType>,
    pub init: Option<Expression>,
}

/// A `const`/`let`/`var` statement with its declarators.
pub struct VariableDecl {
    pub declarators: Vec<Declarator>,
}

/// A function declaration or function expression: its name (if any), its
/// return type annotation (if any), and its body statements (absent for
/// overload signatures).
pub struct Function {
    pub id: Option<Ident>,
    pub return_type: Option<TsType>,
    pub body: Option<Vec<Statement>>,
}

/// The declaration attached to a named export statement.
pub enum ExportedDecl {
    Variable(VariableDecl),
    Function(Function),
    Other,
}

/// A named export statement: `export const X = ...`, `export function X()`,
/// or a bare re-export `export { X }` whose specifiers carry the exported
/// names.
pub struct ExportNamedDecl {
    pub declaration: Option<ExportedDecl>,
    pub specifiers: Vec<String>,
}

/// What a default export statement exports: an inline function declaration,
/// an expression (including a bare identifier reference), or another form.
pub enum DefaultExport {
    Function(Function),
    Expr(Expression),
    Other,
}

/// A top-level or nested statement.
pub enum Statement {
    Import(ImportDecl),
    Variable(VariableDecl),
    Function(Function),
    ExportNamed(ExportNamedDecl),
    ExportDefault(DefaultExport),
    Expr(Expression),
    Return(Option<Expression>),
    Block(Vec<Statement>),
    If { consequent: Box<Statement>, alternate: Option<Box<Statement>> },
    Other,
}

/// One argument of a call: an ordinary expression or a spread argument.
pub enum Argument {
    Expr(Expression),
    Spread,
}

/// A call expression: callee and arguments.
pub struct CallExpr {
    pub callee: Box<Expression>,
    pub arguments: Vec<Argument>,
}

/// A property of an object literal, reduced to what export resolution reads:
/// a property with a static identifier key, or anything else.
pub enum ObjectProperty {
    Static { key: String },
    Other,
}

/// An expression.
pub enum Expression {
    Jsx(JsxElement),
    JsxFragment(Vec<JsxChild>),
    Call(CallExpr),
    Identifier { name: String },
    StaticMember { object: Box<Expression>, property: String },
    ComputedMember { object: Box<Expression>, key: Box<Expression> },
    StringLiteral { value: String },
    Sequence(Vec<Expression>),
    Paren(Box<Expression>),
    Arrow { expression: bool, body: Vec<Statement> },
    FunctionExpr(Function),
    Object(Vec<ObjectProperty>),
    Other,
}

/// The object of a member-expression markup tag: for `<A.B>` the `A`, for
/// `<A.B.C>` the `A.B`, nested until a plain identifier or `this` is reached.
pub enum JsxMemberObject {
    /// A plain identifier: the `A` of `<A.B>`.
    Ident(String),
    /// A nested member access: the `A.B` of `<A.B.C>`.
    Member(Box<JsxMemberObject>),
    /// A `this` object.
    This,
}

/// The tag of a markup element.
pub enum JsxName {
    /// A plain identifier or identifier-reference tag.
    Ident(String),
    /// A member-expression tag; only the base object is read.
    Member { object: JsxMemberObject },
    /// A namespaced tag such as `<a:b>`; intentionally unsupported.
    Namespaced,
    /// A `this`-qualified tag; intentionally unsupported.
    This,
}

/// A child node of a markup element or fragment.
pub enum JsxChild {
    Element(Box<JsxElement>),
    /// Text, expression containers, nested fragments: not traversed.
    Other,
}

/// A markup element: its tag, its children, and the byte span of the entire
/// element from opening through closing tag.
pub struct JsxElement {
    pub span: Span,
    pub name: JsxName,
    pub children: Vec<JsxChild>,
}

} // verus!
