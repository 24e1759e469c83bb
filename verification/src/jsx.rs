//! Markup usage collector: walks the statement list depth-first in pre-order
//! and records, for every markup element whose tag qualifies, the tag's name
//! and the span of the entire element. Entries are not deduplicated.

use vstd::prelude::*;
use crate::Span;
use crate::ast::{
    Declarator, DefaultExport, ExportedDecl, Expression, JsxChild, JsxElement, JsxMemberObject,
    JsxName, Statement,
};
use crate::text::{spec_upper_start, upper_start};

verus! {

/// The leftmost identifier of a member-expression tag's object chain: the
/// `A` of `<A.B>` and of `<A.B.C>` at any depth; none for a `this`-based
/// chain.
pub open spec fn member_base(o: JsxMemberObject) -> Option<String>
    decreases o,
{
    match o {
        JsxMemberObject::Ident(name) => Some(name),
        JsxMemberObject::Member(inner) => member_base(*inner),
        JsxMemberObject::This => None,
    }
}

/// The leftmost identifier of a member-expression tag's object chain.
fn member_object_base(o: &JsxMemberObject) -> (r: Option<String>)
    ensures
        r == member_base(*o),
    decreases *o,
{
    match o {
        JsxMemberObject::Ident(name) => Some(name.clone()),
        JsxMemberObject::Member(inner) => member_object_base(inner),
        JsxMemberObject::This => None,
    }
}

/// The entry an element contributes for its own tag: a plain tag is recorded
/// under its name and a member-expression tag of any depth under its base
/// object's name, in both cases only when that name starts uppercase;
/// namespaced and `this`-qualified tags are never recorded. The recorded span
/// covers the whole element.
pub open spec fn elem_own_usage(el: JsxElement) -> Seq<(String, Span)> {
    match el.name {
        JsxName::Ident(name) => if spec_upper_start(name@) {
            seq![(name, el.span)]
        } else {
            Seq::empty()
        },
        JsxName::Member { object } => match member_base(object) {
            Some(base) => if spec_upper_start(base@) {
                seq![(base, el.span)]
            } else {
                Seq::empty()
            },
            None => Seq::empty(),
        },
        _ => Seq::empty(),
    }
}

/// Usages of an element: its own entry (if any) followed by the usages of its
/// element children, visited in order whether or not the element itself
/// qualified.
pub open spec fn elem_usages(el: JsxElement) -> Seq<(String, Span)>
    decreases el,
{
    elem_own_usage(el) + children_usages(el.children@)
}

/// Usages of a child list: element children are visited recursively, all
/// other children are skipped.
pub open spec fn children_usages(cs: Seq<JsxChild>) -> Seq<(String, Span)>
    decreases cs,
{
    if cs.len() == 0 {
        Seq::empty()
    } else {
        children_usages(cs.drop_last()) + match cs.last() {
            JsxChild::Element(child) => elem_usages(*child),
            JsxChild::Other => Seq::empty(),
        }
    }
}

/// Usages of an expression: markup literals are collected, parentheses are
/// unwrapped, and function bodies are entered; nothing else is traversed.
pub open spec fn expr_usages(e: Expression) -> Seq<(String, Span)>
    decreases e,
{
    match e {
        Expression::Jsx(el) => elem_usages(el),
        Expression::JsxFragment(children) => children_usages(children@),
        Expression::Paren(inner) => expr_usages(*inner),
        Expression::Arrow { expression: _, body } => stmts_usages(body@),
        Expression::FunctionExpr(f) => match f.body {
            Some(b) => stmts_usages(b@),
            None => Seq::empty(),
        },
        _ => Seq::empty(),
    }
}

/// Usages of the initializers of a declarator list, in order.
pub open spec fn declarators_usages(ds: Seq<Declarator>) -> Seq<(String, Span)>
    decreases ds,
{
    if ds.len() == 0 {
        Seq::empty()
    } else {
        declarators_usages(ds.drop_last()) + match ds.last().init {
            Some(init) => expr_usages(init),
            None => Seq::empty(),
        }
    }
}

/// Usages of a statement: return arguments, expression statements, variable
/// initializers, exported declarations and expressions, block members, and
/// both branches of an if statement are visited; nothing else is.
pub open spec fn stmt_usages(s: Statement) -> Seq<(String, Span)>
    decreases s,
{
    match s {
        Statement::Return(Some(arg)) => expr_usages(arg),
        Statement::Expr(e) => expr_usages(e),
        Statement::Variable(vd) => declarators_usages(vd.declarators@),
        Statement::ExportNamed(en) => match en.declaration {
            Some(ExportedDecl::Variable(vd)) => declarators_usages(vd.declarators@),
            Some(ExportedDecl::Function(f)) => match f.body {
                Some(b) => stmts_usages(b@),
                None => Seq::empty(),
            },
            _ => Seq::empty(),
        },
        Statement::ExportDefault(d) => match d {
            DefaultExport::Expr(e) => expr_usages(e),
            DefaultExport::Function(f) => match f.body {
                Some(b) => stmts_usages(b@),
                None => Seq::empty(),
            },
            DefaultExport::Other => Seq::empty(),
        },
        Statement::Block(body) => stmts_usages(body@),
        Statement::If { consequent, alternate } => stmt_usages(*consequent) + match alternate {
            Some(a) => stmt_usages(*a),
            None => Seq::empty(),
        },
        _ => Seq::empty(),
    }
}

/// Usages of a statement list, in order.
pub open spec fn stmts_usages(ss: Seq<Statement>) -> Seq<(String, Span)>
    decreases ss,
{
    if ss.len() == 0 {
        Seq::empty()
    } else {
        stmts_usages(ss.drop_last()) + stmt_usages(ss.last())
    }
}

/// Append the usages of every element child of the list.
fn collect_jsx_from_children(cs: &Vec<JsxChild>, usages: &mut Vec<(String, Span)>)
    ensures
        final(usages)@ == old(usages)@ + children_usages(cs@),
    decreases cs@,
{
    let ghost snap: Seq<(String, Span)> = usages@;
    let n = cs.len();
    let mut i: usize = 0;
    while i < n
        invariant
            i <= n,
            n == cs@.len(),
            usages@ == snap + children_usages(cs@.take(i as int)),
        decreases n - i,
    {
        match &cs[i] {
            JsxChild::Element(child) => collect_jsx_from_element(child, usages),
            JsxChild::Other => {},
        }
        proof {
            assert(cs@.take(i + 1).drop_last() =~= cs@.take(i as int));
            assert(cs@.take(i + 1).last() == cs@[i as int]);
        }
        i = i + 1;
    }
    proof {
        assert(cs@.take(n as int) =~= cs@);
    }
}

/// Append the element's own entry (if its tag qualifies), then the usages of
/// its element children.
fn collect_jsx_from_element(el: &JsxElement, usages: &mut Vec<(String, Span)>)
    ensures
        final(usages)@ == old(usages)@ + elem_usages(*el),
    decreases *el,
{
    let ghost snap: Seq<(String, Span)> = usages@;
    match &el.name {
        JsxName::Ident(name) => {
            if upper_start(name.as_str()) {
                usages.push((name.clone(), el.span));
            }
        },
        JsxName::Member { object } => {
            match member_object_base(object) {
                Some(base) => {
                    if upper_start(base.as_str()) {
                        usages.push((base, el.span));
                    }
                },
                None => {},
            }
        },
        _ => {},
    }
    proof {
        assert(usages@ =~= snap + elem_own_usage(*el));
    }
    collect_jsx_from_children(&el.children, usages);
    proof {
        assert(usages@ =~= snap + elem_usages(*el));
    }
}

/// Append the usages of the declarators' initializers.
fn collect_jsx_from_declarators(ds: &Vec<Declarator>, usages: &mut Vec<(String, Span)>)
    ensures
        final(usages)@ == old(usages)@ + declarators_usages(ds@),
    decreases ds@,
{
    let ghost snap: Seq<(String, Span)> = usages@;
    let n = ds.len();
    let mut i: usize = 0;
    while i < n
        invariant
            i <= n,
            n == ds@.len(),
            usages@ == snap + declarators_usages(ds@.take(i as int)),
        decreases n - i,
    {
        match &ds[i].init {
            Some(init) => collect_jsx_from_expression(init, usages),
            None => {},
        }
        proof {
            assert(ds@.take(i + 1).drop_last() =~= ds@.take(i as int));
            assert(ds@.take(i + 1).last() == ds@[i as int]);
        }
        i = i + 1;
    }
    proof {
        assert(ds@.take(n as int) =~= ds@);
    }
}

/// Append the usages of every statement of the list, in order.
fn collect_jsx_from_statements(ss: &Vec<Statement>, usages: &mut Vec<(String, Span)>)
    ensures
        final(usages)@ == old(usages)@ + stmts_usages(ss@),
    decreases ss@,
{
    let ghost snap: Seq<(String, Span)> = usages@;
    let n = ss.len();
    let mut i: usize = 0;
    while i < n
        invariant
            i <= n,
            n == ss@.len(),
            usages@ == snap + stmts_usages(ss@.take(i as int)),
        decreases n - i,
    {
        collect_jsx_from_statement(&ss[i], usages);
        proof {
            assert(ss@.take(i + 1).drop_last() =~= ss@.take(i as int));
            assert(ss@.take(i + 1).last() == ss@[i as int]);
        }
        i = i + 1;
    }
    proof {
        assert(ss@.take(n as int) =~= ss@);
    }
}

/// Append the usages found in one expression.
fn collect_jsx_from_expression(expr: &Expression, usages: &mut Vec<(String, Span)>)
    ensures
        final(usages)@ == old(usages)@ + expr_usages(*expr),
    decreases *expr,
{
    match expr {
        Expression::Jsx(el) => collect_jsx_from_element(el, usages),
        Expression::JsxFragment(children) => collect_jsx_from_children(children, usages),
        Expression::Paren(inner) => collect_jsx_from_expression(inner, usages),
        Expression::Arrow { expression: _, body } => collect_jsx_from_statements(body, usages),
        Expression::FunctionExpr(f) => {
            match &f.body {
                Some(b) => collect_jsx_from_statements(b, usages),
                None => {},
            }
        },
        _ => {},
    }
}

/// Append the usages found in one statement.
fn collect_jsx_from_statement(stmt: &Statement, usages: &mut Vec<(String, Span)>)
    ensures
        final(usages)@ == old(usages)@ + stmt_usages(*stmt),
    decreases *stmt,
{
    let ghost snap: Seq<(String, Span)> = usages@;
    match stmt {
        Statement::Return(Some(arg)) => collect_jsx_from_expression(arg, usages),
        Statement::Expr(e) => collect_jsx_from_expression(e, usages),
        Statement::Variable(vd) => collect_jsx_from_declarators(&vd.declarators, usages),
        Statement::ExportNamed(en) => {
            match &en.declaration {
                Some(ExportedDecl::Variable(vd)) => collect_jsx_from_declarators(
                    &vd.declarators,
                    usages,
                ),
                Some(ExportedDecl::Function(f)) => {
                    match &f.body {
                        Some(b) => collect_jsx_from_statements(b, usages),
                        None => {},
                    }
                },
                _ => {},
            }
        },
        Statement::ExportDefault(d) => {
            match d {
                DefaultExport::Expr(e) => collect_jsx_from_expression(e, usages),
                DefaultExport::Function(f) => {
                    match &f.body {
                        Some(b) => collect_jsx_from_statements(b, usages),
                        None => {},
                    }
                },
                DefaultExport::Other => {},
            }
        },
        Statement::Block(body) => collect_jsx_from_statements(body, usages),
        Statement::If { consequent, alternate } => {
            collect_jsx_from_statement(consequent, usages);
            match alternate {
                Some(a) => collect_jsx_from_statement(a, usages),
                None => {},
            }
            proof {
                assert(usages@ =~= snap + stmt_usages(*stmt));
            }
        },
        _ => {},
    }
}

/// Collect all markup usages of the statement list, depth-first and in
/// pre-order, each as the tag's recorded name with the span of the entire
/// element.
pub fn collect_jsx_usages(statements: &Vec<Statement>) -> (usages: Vec<(String, Span)>)
    ensures
        usages@ == stmts_usages(statements@),
{
    let mut usages: Vec<(String, Span)> = Vec::new();
    collect_jsx_from_statements(statements, &mut usages);
    proof {
        assert(usages@ =~= stmts_usages(statements@));
    }
    usages
}

} // verus!

verus! {

/// Every recorded usage name passes the PascalCase gate.
pub open spec fn all_upper(us: Seq<(String, Span)>) -> bool {
    forall|k: int| 0 <= k < us.len() ==> spec_upper_start((#[trigger] us[k]).0@)
}

proof fn lemma_all_upper_concat(a: Seq<(String, Span)>, b: Seq<(String, Span)>)
    requires
        all_upper(a),
        all_upper(b),
    ensures
        all_upper(a + b),
{
    assert forall|k: int| 0 <= k < (a + b).len() implies spec_upper_start(((a + b)[k]).0@) by {
        if k < a.len() {
            assert((a + b)[k] == a[k]);
        } else {
            assert((a + b)[k] == b[k - a.len()]);
        }
    }
}

proof fn lemma_elem_usages_upper(el: JsxElement)
    ensures
        all_upper(elem_usages(el)),
    decreases el,
{
    lemma_children_usages_upper(el.children@);
    lemma_all_upper_concat(elem_own_usage(el), children_usages(el.children@));
}

proof fn lemma_children_usages_upper(cs: Seq<JsxChild>)
    ensures
        all_upper(children_usages(cs)),
    decreases cs,
{
    if cs.len() > 0 {
        lemma_children_usages_upper(cs.drop_last());
        let tail = (match cs.last() {
            JsxChild::Element(child) => elem_usages(*child),
            JsxChild::Other => Seq::empty(),
        });
        match cs.last() {
            JsxChild::Element(child) => lemma_elem_usages_upper(*child),
            JsxChild::Other => {},
        }
        lemma_all_upper_concat(children_usages(cs.drop_last()), tail);
    }
}

proof fn lemma_expr_usages_upper(e: Expression)
    ensures
        all_upper(expr_usages(e)),
    decreases e,
{
    match e {
        Expression::Jsx(el) => lemma_elem_usages_upper(el),
        Expression::JsxFragment(children) => lemma_children_usages_upper(children@),
        Expression::Paren(inner) => lemma_expr_usages_upper(*inner),
        Expression::Arrow { expression: _, body } => lemma_usages_upper_start(body@),
        Expression::FunctionExpr(f) => match f.body {
            Some(b) => lemma_usages_upper_start(b@),
            None => {},
        },
        _ => {},
    }
}

proof fn lemma_declarators_usages_upper(ds: Seq<Declarator>)
    ensures
        all_upper(declarators_usages(ds)),
    decreases ds,
{
    if ds.len() > 0 {
        lemma_declarators_usages_upper(ds.drop_last());
        let tail = (match ds.last().init {
            Some(init) => expr_usages(init),
            None => Seq::empty(),
        });
        match ds.last().init {
            Some(init) => lemma_expr_usages_upper(init),
            None => {},
        }
        lemma_all_upper_concat(declarators_usages(ds.drop_last()), tail);
    }
}

proof fn lemma_stmt_usages_upper(s: Statement)
    ensures
        all_upper(stmt_usages(s)),
    decreases s,
{
    match s {
        Statement::Return(Some(arg)) => lemma_expr_usages_upper(arg),
        Statement::Expr(e) => lemma_expr_usages_upper(e),
        Statement::Variable(vd) => lemma_declarators_usages_upper(vd.declarators@),
        Statement::ExportNamed(en) => match en.declaration {
            Some(ExportedDecl::Variable(vd)) => lemma_declarators_usages_upper(vd.declarators@),
            Some(ExportedDecl::Function(f)) => match f.body {
                Some(b) => lemma_usages_upper_start(b@),
                None => {},
            },
            _ => {},
        },
        Statement::ExportDefault(d) => match d {
            DefaultExport::Expr(e) => lemma_expr_usages_upper(e),
            DefaultExport::Function(f) => match f.body {
                Some(b) => lemma_usages_upper_start(b@),
                None => {},
            },
            DefaultExport::Other => {},
        },
        Statement::Block(body) => lemma_usages_upper_start(body@),
        Statement::If { consequent, alternate } => {
            lemma_stmt_usages_upper(*consequent);
            let tail = (match alternate {
                Some(a) => stmt_usages(*a),
                None => Seq::empty(),
            });
            match alternate {
                Some(a) => lemma_stmt_usages_upper(*a),
                None => {},
            }
            lemma_all_upper_concat(stmt_usages(*consequent), tail);
        },
        _ => {},
    }
}

/// Law: a tag is recorded only under a name whose first character is
/// uppercase, so lowercase-tag elements never contribute a usage.
pub proof fn lemma_usages_upper_start(ss: Seq<Statement>)
    ensures
        all_upper(stmts_usages(ss)),
    decreases ss,
{
    if ss.len() > 0 {
        lemma_usages_upper_start(ss.drop_last());
        lemma_stmt_usages_upper(ss.last());
        lemma_all_upper_concat(stmts_usages(ss.drop_last()), stmt_usages(ss.last()));
    }
}

/// The number of markup elements the collector visits below (and including)
/// an element: the element itself and, recursively, its element children.
pub open spec fn element_count(el: JsxElement) -> nat
    decreases el,
{
    1 + children_count(el.children@)
}

/// The number of markup elements among a child list, counted recursively.
pub open spec fn children_count(cs: Seq<JsxChild>) -> nat
    decreases cs,
{
    if cs.len() == 0 {
        0
    } else {
        children_count(cs.drop_last()) + match cs.last() {
            JsxChild::Element(child) => element_count(*child),
            JsxChild::Other => 0nat,
        }
    }
}

/// Every tag in the tree below (and including) the element is a
/// member-expression tag, of any depth, whose base identifier is `base`.
pub open spec fn all_tags_base(el: JsxElement, base: Seq<char>) -> bool
    decreases el,
{
    &&& (match el.name {
        JsxName::Member { object } => match member_base(object) {
            Some(b) => b@ == base,
            None => false,
        },
        _ => false,
    })
    &&& all_children_tags_base(el.children@, base)
}

/// Every element child of the list satisfies [`all_tags_base`].
pub open spec fn all_children_tags_base(cs: Seq<JsxChild>, base: Seq<char>) -> bool
    decreases cs,
{
    if cs.len() == 0 {
        true
    } else {
        all_children_tags_base(cs.drop_last(), base) && match cs.last() {
            JsxChild::Element(child) => all_tags_base(*child, base),
            JsxChild::Other => true,
        }
    }
}

/// Law: when every tag of a nested markup tree is a member-expression tag on
/// the same uppercase-led base, the collector records one usage per element,
/// all under the base name.
pub proof fn lemma_same_base_member_usages(el: JsxElement, base: Seq<char>)
    ensures
        all_tags_base(el, base) && spec_upper_start(base) ==> elem_usages(el).len()
            == element_count(el) && forall|k: int|
            0 <= k < elem_usages(el).len() ==> (#[trigger] elem_usages(el)[k]).0@ == base,
    decreases el,
{
    if all_tags_base(el, base) && spec_upper_start(base) {
        lemma_same_base_children_usages(el.children@, base);
        let own = elem_own_usage(el);
        let rest = children_usages(el.children@);
        assert(own.len() == 1);
        assert(own[0].0@ == base);
        assert forall|k: int| 0 <= k < (own + rest).len() implies ((own + rest)[k]).0@ == base by {
            if k < own.len() {
                assert((own + rest)[k] == own[k]);
            } else {
                assert((own + rest)[k] == rest[k - own.len()]);
            }
        }
    }
}

proof fn lemma_same_base_children_usages(cs: Seq<JsxChild>, base: Seq<char>)
    ensures
        all_children_tags_base(cs, base) && spec_upper_start(base) ==> children_usages(cs).len()
            == children_count(cs) && forall|k: int|
            0 <= k < children_usages(cs).len() ==> (#[trigger] children_usages(cs)[k]).0@ == base,
    decreases cs,
{
    if all_children_tags_base(cs, base) && spec_upper_start(base) && cs.len() > 0 {
        lemma_same_base_children_usages(cs.drop_last(), base);
        let a = children_usages(cs.drop_last());
        let b = (match cs.last() {
            JsxChild::Element(child) => elem_usages(*child),
            JsxChild::Other => Seq::empty(),
        });
        match cs.last() {
            JsxChild::Element(child) => lemma_same_base_member_usages(*child, base),
            JsxChild::Other => {},
        }
        assert forall|k: int| 0 <= k < (a + b).len() implies ((a + b)[k]).0@ == base by {
            if k < a.len() {
                assert((a + b)[k] == a[k]);
            } else {
                assert((a + b)[k] == b[k - a.len()]);
            }
        }
    }
}

} // verus!
