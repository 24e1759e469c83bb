//! Orchestrator and export resolver: collects value-level imports, classifies
//! top-level declarations, reconciles them with the module's export forms,
//! collects markup usages, and assembles the analysis result.

use vstd::prelude::*;
use crate::Span;
use crate::ast::{
    Argument, Binding, Declarator, DefaultExport, ExportedDecl, Expression, ImportSpecifier,
    ObjectProperty, Program, Statement,
};
use crate::component::{
    analyze_function_declaration, is_react_component, spec_function_component,
    spec_is_react_component,
};
use crate::jsx::{collect_jsx_usages, stmts_usages};
use crate::range::{spec_literal_interior_range, spec_range, string_literal_to_range, span_to_range, Range};
use crate::text::{contains_name, seq_contains_name, str_eq};

verus! {

/// One value-level import statement: the local names it binds, the module
/// specifier text, and the position of the specifier's interior (between its
/// quote characters).
pub struct ImportAnalysis {
    pub identifier: Vec<String>,
    pub source: String,
    pub source_span: Range,
}

/// The mathematical content of an [`ImportAnalysis`].
pub ghost struct ImportModel {
    pub identifier: Seq<String>,
    pub source: String,
    pub source_span: Range,
}

impl View for ImportAnalysis {
    type V = ImportModel;

    open spec fn view(&self) -> ImportModel {
        ImportModel {
            identifier: self.identifier@,
            source: self.source,
            source_span: self.source_span,
        }
    }
}

/// One exported component: its name, the position of its declaring
/// identifier, and whether the file carries the client directive.
pub struct ComponentAnalysis {
    pub name: String,
    pub is_client_component: bool,
    pub range: Range,
}

/// One reference to an imported component as a markup element: the recorded
/// name and the position of the entire element.
pub struct JsxUsage {
    pub component_name: String,
    pub range: Range,
}

/// The result of analyzing one module.
pub struct AnalysisResult {
    pub imports: Vec<ImportAnalysis>,
    pub components: Vec<ComponentAnalysis>,
    pub jsx_usages: Vec<JsxUsage>,
}

/// The span of an import statement's module specifier covers at least its two
/// quote characters, so skipping one byte on each side stays in order.
pub open spec fn import_span_wf_stmt(s: Statement) -> bool {
    match s {
        Statement::Import(d) => d.source_span.start < d.source_span.end,
        _ => true,
    }
}

/// Every import statement of the body has a well-formed specifier span.
pub open spec fn import_spans_wf(body: Seq<Statement>) -> bool {
    forall|i: int| 0 <= i < body.len() ==> import_span_wf_stmt(#[trigger] body[i])
}

/// The locally bound names that one import statement's specifiers introduce,
/// in order; named specifiers marked type-only bind nothing.
pub open spec fn specifier_names(specs: Seq<ImportSpecifier>) -> Seq<String>
    decreases specs,
{
    if specs.len() == 0 {
        Seq::empty()
    } else {
        specifier_names(specs.drop_last()) + match specs.last() {
            ImportSpecifier::Named { local, type_only } => if type_only {
                Seq::empty()
            } else {
                seq![local]
            },
            ImportSpecifier::Default { local } => seq![local],
            ImportSpecifier::Namespace { local } => seq![local],
        }
    }
}

/// The import record of one statement: a value-level import statement yields
/// one record, a type-only import or any other statement yields none.
pub open spec fn stmt_import(src: Seq<u8>, s: Statement) -> Option<ImportModel> {
    match s {
        Statement::Import(d) => if d.type_only {
            None
        } else {
            Some(
                ImportModel {
                    identifier: specifier_names(d.specifiers@),
                    source: d.source,
                    source_span: spec_literal_interior_range(src, d.source_span),
                },
            )
        },
        _ => None,
    }
}

/// The import records of the statement list, in order.
pub open spec fn spec_imports(src: Seq<u8>, body: Seq<Statement>) -> Seq<ImportModel>
    decreases body,
{
    if body.len() == 0 {
        Seq::empty()
    } else {
        spec_imports(src, body.drop_last()) + match stmt_import(src, body.last()) {
            Some(m) => seq![m],
            None => Seq::empty(),
        }
    }
}

/// The names bound by import statements whose specifier equals the
/// framework's compiled-runtime module path: calls of these names are
/// recognized as markup factory calls even under a renamed import.
pub open spec fn runtime_ids_of(imports: Seq<ImportModel>) -> Seq<String>
    decreases imports,
{
    if imports.len() == 0 {
        Seq::empty()
    } else {
        runtime_ids_of(imports.drop_last()) + if imports.last().source@ == "react/jsx-runtime"@ {
            imports.last().identifier
        } else {
            Seq::empty()
        }
    }
}

/// The union, in order, of the locally bound names of all import records.
pub open spec fn all_import_names(imports: Seq<ImportModel>) -> Seq<String>
    decreases imports,
{
    if imports.len() == 0 {
        Seq::empty()
    } else {
        all_import_names(imports.drop_last()) + imports.last().identifier
    }
}

/// Whether the module's leading directives contain the exact client
/// directive.
pub open spec fn spec_has_client_directive(directives: Seq<String>) -> bool {
    exists|i: int| 0 <= i < directives.len() && directives[i]@ == "use client"@
}

/// Whether the module carries the client directive.
pub fn has_client_directive(directives: &Vec<String>) -> (r: bool)
    ensures
        r == spec_has_client_directive(directives@),
{
    let n = directives.len();
    let mut i: usize = 0;
    while i < n
        invariant
            i <= n,
            n == directives@.len(),
            forall|j: int| 0 <= j < i ==> directives@[j]@ != "use client"@,
        decreases n - i,
    {
        if str_eq(directives[i].as_str(), "use client") {
            return true;
        }
        i = i + 1;
    }
    false
}

/// The local names that one import statement's specifiers bind.
fn collect_specifier_names(specs: &Vec<ImportSpecifier>) -> (r: Vec<String>)
    ensures
        r@ == specifier_names(specs@),
{
    let mut r: Vec<String> = Vec::new();
    let n = specs.len();
    let mut i: usize = 0;
    while i < n
        invariant
            i <= n,
            n == specs@.len(),
            r@ == specifier_names(specs@.take(i as int)),
        decreases n - i,
    {
        match &specs[i] {
            ImportSpecifier::Named { local, type_only } => {
                if !*type_only {
                    r.push(local.clone());
                }
            },
            ImportSpecifier::Default { local } => r.push(local.clone()),
            ImportSpecifier::Namespace { local } => r.push(local.clone()),
        }
        proof {
            assert(specs@.take(i + 1).drop_last() =~= specs@.take(i as int));
            assert(specs@.take(i + 1).last() == specs@[i as int]);
            assert(r@ =~= specifier_names(specs@.take(i + 1)));
        }
        i = i + 1;
    }
    proof {
        assert(specs@.take(n as int) =~= specs@);
    }
    r
}

/// Collect one record per value-level import statement, in order: the
/// surviving local names, the module specifier, and the position of the
/// specifier's interior.
pub fn collect_imports(source: &[u8], body: &Vec<Statement>) -> (r: Vec<ImportAnalysis>)
    requires
        import_spans_wf(body@),
    ensures
        r@.map_values(|x: ImportAnalysis| x@) == spec_imports(source@, body@),
{
    let mut r: Vec<ImportAnalysis> = Vec::new();
    let n = body.len();
    let mut i: usize = 0;
    while i < n
        invariant
            i <= n,
            n == body@.len(),
            import_spans_wf(body@),
            r@.map_values(|x: ImportAnalysis| x@) == spec_imports(source@, body@.take(i as int)),
        decreases n - i,
    {
        match &body[i] {
            Statement::Import(d) => {
                if !d.type_only {
                    let record = ImportAnalysis {
                        identifier: collect_specifier_names(&d.specifiers),
                        source: d.source.clone(),
                        source_span: string_literal_to_range(source, d.source_span),
                    };
                    r.push(record);
                }
            },
            _ => {},
        }
        proof {
            assert(body@.take(i + 1).drop_last() =~= body@.take(i as int));
            assert(body@.take(i + 1).last() == body@[i as int]);
            assert(r@.map_values(|x: ImportAnalysis| x@) =~= spec_imports(
                source@,
                body@.take(i + 1),
            ));
        }
        i = i + 1;
    }
    proof {
        assert(body@.take(n as int) =~= body@);
    }
    r
}

/// The names bound by imports of the compiled-runtime module path.
pub fn collect_runtime_identifiers(imports: &Vec<ImportAnalysis>) -> (r: Vec<String>)
    ensures
        r@ == runtime_ids_of(imports@.map_values(|x: ImportAnalysis| x@)),
{
    let mut r: Vec<String> = Vec::new();
    let n = imports.len();
    let mut i: usize = 0;
    while i < n
        invariant
            i <= n,
            n == imports@.len(),
            r@ == runtime_ids_of(imports@.take(i as int).map_values(|x: ImportAnalysis| x@)),
        decreases n - i,
    {
        if str_eq(imports[i].source.as_str(), "react/jsx-runtime") {
            append_names(&mut r, &imports[i].identifier);
        }
        proof {
            assert(imports@.take(i + 1).map_values(|x: ImportAnalysis| x@).drop_last()
                =~= imports@.take(i as int).map_values(|x: ImportAnalysis| x@));
            assert(imports@.take(i + 1).map_values(|x: ImportAnalysis| x@).last()
                == imports@[i as int]@);
            assert(r@ =~= runtime_ids_of(
                imports@.take(i + 1).map_values(|x: ImportAnalysis| x@),
            ));
        }
        i = i + 1;
    }
    proof {
        assert(imports@.take(n as int) =~= imports@);
    }
    r
}

/// The union of the locally bound names of all collected imports.
pub fn collect_imported_identifiers(imports: &Vec<ImportAnalysis>) -> (r: Vec<String>)
    ensures
        r@ == all_import_names(imports@.map_values(|x: ImportAnalysis| x@)),
{
    let mut r: Vec<String> = Vec::new();
    let n = imports.len();
    let mut i: usize = 0;
    while i < n
        invariant
            i <= n,
            n == imports@.len(),
            r@ == all_import_names(imports@.take(i as int).map_values(|x: ImportAnalysis| x@)),
        decreases n - i,
    {
        append_names(&mut r, &imports[i].identifier);
        proof {
            assert(imports@.take(i + 1).map_values(|x: ImportAnalysis| x@).drop_last()
                =~= imports@.take(i as int).map_values(|x: ImportAnalysis| x@));
            assert(imports@.take(i + 1).map_values(|x: ImportAnalysis| x@).last()
                == imports@[i as int]@);
            assert(r@ =~= all_import_names(
                imports@.take(i + 1).map_values(|x: ImportAnalysis| x@),
            ));
        }
        i = i + 1;
    }
    proof {
        assert(imports@.take(n as int) =~= imports@);
    }
    r
}

/// Append clones of every name in `names` to `acc`.
fn append_names(acc: &mut Vec<String>, names: &Vec<String>)
    ensures
        final(acc)@ == old(acc)@ + names@,
{
    let ghost snap: Seq<String> = acc@;
    let n = names.len();
    let mut i: usize = 0;
    while i < n
        invariant
            i <= n,
            n == names@.len(),
            acc@ == snap + names@.take(i as int),
        decreases n - i,
    {
        acc.push(names[i].clone());
        proof {
            assert(acc@ =~= snap + names@.take(i + 1));
        }
        i = i + 1;
    }
    proof {
        assert(names@.take(n as int) =~= names@);
    }
}

} // verus!

verus! {

/// The declaration map that the analysis builds, read as a mathematical map:
/// later entries of the association list overwrite earlier ones.
pub open spec fn assoc_view(entries: Seq<(String, Span)>) -> Map<Seq<char>, Span>
    decreases entries,
{
    if entries.len() == 0 {
        Map::empty()
    } else {
        assoc_view(entries.drop_last()).insert(entries.last().0@, entries.last().1)
    }
}

/// Record `name` with `span`, overwriting any earlier entry of that name.
fn assoc_insert(entries: &mut Vec<(String, Span)>, name: String, span: Span)
    ensures
        assoc_view(final(entries)@) == assoc_view(old(entries)@).insert(name@, span),
{
    entries.push((name, span));
    proof {
        assert(entries@.drop_last() =~= old(entries)@);
        assert(assoc_view(entries@) == assoc_view(old(entries)@).insert(
            entries@.last().0@,
            entries@.last().1,
        ));
    }
}

/// Look `name` up, honouring last-write-wins.
fn assoc_get(entries: &Vec<(String, Span)>, name: &str) -> (r: Option<Span>)
    ensures
        r == (if assoc_view(entries@).contains_key(name@) {
            Some(assoc_view(entries@)[name@])
        } else {
            None::<Span>
        }),
{
    let mut i: usize = entries.len();
    proof {
        assert(entries@.take(i as int) =~= entries@);
    }
    while i > 0
        invariant
            i <= entries@.len(),
            assoc_view(entries@).contains_key(name@) == assoc_view(
                entries@.take(i as int),
            ).contains_key(name@),
            assoc_view(entries@).contains_key(name@) ==> assoc_view(entries@)[name@]
                == assoc_view(entries@.take(i as int))[name@],
        decreases i,
    {
        let idx = i - 1;
        proof {
            assert(entries@.take(i as int).drop_last() =~= entries@.take(idx as int));
            assert(entries@.take(i as int).last() == entries@[idx as int]);
        }
        if str_eq(entries[idx].0.as_str(), name) {
            return Some(entries[idx].1);
        }
        i = idx;
    }
    proof {
        assert(entries@.take(0) =~= Seq::<(String, Span)>::empty());
    }
    None
}

/// The declaration map after classifying one declarator list, in order.
pub open spec fn declarator_decls(
    m: Map<Seq<char>, Span>,
    ds: Seq<Declarator>,
    rt: Seq<String>,
) -> Map<Seq<char>, Span>
    decreases ds,
{
    if ds.len() == 0 {
        m
    } else {
        let m1 = declarator_decls(m, ds.drop_last(), rt);
        match ds.last().binding {
            Binding::Ident(id) => if spec_is_react_component(
                id.name@,
                ds.last().type_annotation,
                ds.last().init,
                rt,
            ) {
                m1.insert(id.name@, id.span)
            } else {
                m1
            },
            Binding::Pattern => m1,
        }
    }
}

/// The declaration map after classifying one statement: variable declarators
/// and named function declarations that the classifier accepts are recorded
/// under their name.
pub open spec fn stmt_decls(m: Map<Seq<char>, Span>, s: Statement, rt: Seq<String>) -> Map<
    Seq<char>,
    Span,
> {
    match s {
        Statement::Variable(vd) => declarator_decls(m, vd.declarators@, rt),
        Statement::Function(f) => match spec_function_component(f, rt) {
            Some(c) => m.insert(c.0@, c.1),
            None => m,
        },
        _ => m,
    }
}

/// The declaration map after the classification pass over the statement list.
pub open spec fn body_decls(
    m: Map<Seq<char>, Span>,
    body: Seq<Statement>,
    rt: Seq<String>,
) -> Map<Seq<char>, Span>
    decreases body,
{
    if body.len() == 0 {
        m
    } else {
        stmt_decls(body_decls(m, body.drop_last(), rt), body.last(), rt)
    }
}

/// Classify the declarators of one variable declaration and record the
/// components among them.
fn classify_declarators(ds: &Vec<Declarator>, rt: &Vec<String>, decls: &mut Vec<(String, Span)>)
    ensures
        assoc_view(final(decls)@) == declarator_decls(assoc_view(old(decls)@), ds@, rt@),
{
    let ghost m0: Map<Seq<char>, Span> = assoc_view(decls@);
    let n = ds.len();
    let mut j: usize = 0;
    while j < n
        invariant
            j <= n,
            n == ds@.len(),
            assoc_view(decls@) == declarator_decls(m0, ds@.take(j as int), rt@),
        decreases n - j,
    {
        let d = &ds[j];
        match &d.binding {
            Binding::Ident(id) => {
                if is_react_component(id.name.as_str(), &d.type_annotation, &d.init, rt) {
                    assoc_insert(decls, id.name.clone(), id.span);
                }
            },
            Binding::Pattern => {},
        }
        proof {
            assert(ds@.take(j + 1).drop_last() =~= ds@.take(j as int));
            assert(ds@.take(j + 1).last() == ds@[j as int]);
        }
        j = j + 1;
    }
    proof {
        assert(ds@.take(n as int) =~= ds@);
    }
}

/// First pass: classify every top-level variable and function declaration,
/// building the map from component name to declaring identifier span.
pub fn collect_component_declarations(body: &Vec<Statement>, rt: &Vec<String>) -> (r: Vec<
    (String, Span),
>)
    ensures
        assoc_view(r@) == body_decls(Map::empty(), body@, rt@),
{
    let mut decls: Vec<(String, Span)> = Vec::new();
    let n = body.len();
    let mut i: usize = 0;
    while i < n
        invariant
            i <= n,
            n == body@.len(),
            assoc_view(decls@) == body_decls(Map::empty(), body@.take(i as int), rt@),
        decreases n - i,
    {
        match &body[i] {
            Statement::Variable(vd) => classify_declarators(&vd.declarators, rt, &mut decls),
            Statement::Function(f) => {
                match analyze_function_declaration(f, rt) {
                    Some((name, span)) => assoc_insert(&mut decls, name, span),
                    None => {},
                }
            },
            _ => {},
        }
        proof {
            assert(body@.take(i + 1).drop_last() =~= body@.take(i as int));
            assert(body@.take(i + 1).last() == body@[i as int]);
        }
        i = i + 1;
    }
    proof {
        assert(body@.take(n as int) =~= body@);
    }
    decls
}

} // verus!

verus! {

/// The export entries contributed by one registration object: each property
/// with a static identifier key naming a known declaration exports it.
pub open spec fn object_export_entries(
    props: Seq<ObjectProperty>,
    decls: Map<Seq<char>, Span>,
) -> Seq<(String, Span)>
    decreases props,
{
    if props.len() == 0 {
        Seq::empty()
    } else {
        object_export_entries(props.drop_last(), decls) + match props.last() {
            ObjectProperty::Static { key } => if decls.contains_key(key@) {
                seq![(key, decls[key@])]
            } else {
                Seq::empty()
            },
            ObjectProperty::Other => Seq::empty(),
        }
    }
}

/// The registration object of one statement, if the statement is a call of
/// the fixed registration function name with the object as second argument.
pub open spec fn export_call_props(s: Statement) -> Option<Vec<ObjectProperty>> {
    match s {
        Statement::Expr(Expression::Call(call)) => match *call.callee {
            Expression::Identifier { name } => if name@ == "__export"@ && call.arguments@.len()
                >= 2 {
                match call.arguments@[1] {
                    Argument::Expr(Expression::Object(props)) => Some(props),
                    _ => None,
                }
            } else {
                None
            },
            _ => None,
        },
        _ => None,
    }
}

/// The export entries contributed by every registration call of the body,
/// in statement order, looked up in the given declaration map.
pub open spec fn export_call_entries(
    body: Seq<Statement>,
    decls: Map<Seq<char>, Span>,
) -> Seq<(String, Span)>
    decreases body,
{
    if body.len() == 0 {
        Seq::empty()
    } else {
        export_call_entries(body.drop_last(), decls) + match export_call_props(body.last()) {
            Some(props) => object_export_entries(props@, decls),
            None => Seq::empty(),
        }
    }
}

/// Append the exports registered by one registration object.
fn collect_object_exports(
    props: &Vec<ObjectProperty>,
    decls: &Vec<(String, Span)>,
    exports: &mut Vec<(String, Span)>,
)
    ensures
        final(exports)@ == old(exports)@ + object_export_entries(props@, assoc_view(decls@)),
{
    let ghost snap: Seq<(String, Span)> = exports@;
    let n = props.len();
    let mut j: usize = 0;
    while j < n
        invariant
            j <= n,
            n == props@.len(),
            exports@ == snap + object_export_entries(props@.take(j as int), assoc_view(decls@)),
        decreases n - j,
    {
        match &props[j] {
            ObjectProperty::Static { key } => {
                match assoc_get(decls, key.as_str()) {
                    Some(span) => exports.push((key.clone(), span)),
                    None => {},
                }
            },
            ObjectProperty::Other => {},
        }
        proof {
            assert(props@.take(j + 1).drop_last() =~= props@.take(j as int));
            assert(props@.take(j + 1).last() == props@[j as int]);
            assert(exports@ =~= snap + object_export_entries(
                props@.take(j + 1),
                assoc_view(decls@),
            ));
        }
        j = j + 1;
    }
    proof {
        assert(props@.take(n as int) =~= props@);
    }
}

/// Scan the whole body for registration calls (a compiled bundler pattern)
/// and append the exports they register, independent of statement order
/// relative to the declarations.
pub fn collect_export_call_components(
    body: &Vec<Statement>,
    decls: &Vec<(String, Span)>,
    exports: &mut Vec<(String, Span)>,
)
    ensures
        final(exports)@ == old(exports)@ + export_call_entries(body@, assoc_view(decls@)),
{
    let ghost snap: Seq<(String, Span)> = exports@;
    let n = body.len();
    let mut i: usize = 0;
    while i < n
        invariant
            i <= n,
            n == body@.len(),
            exports@ == snap + export_call_entries(body@.take(i as int), assoc_view(decls@)),
        decreases n - i,
    {
        match &body[i] {
            Statement::Expr(Expression::Call(call)) => {
                if let Expression::Identifier { name } = &*call.callee {
                    if str_eq(name.as_str(), "__export") && call.arguments.len() >= 2 {
                        if let Argument::Expr(Expression::Object(props)) = &call.arguments[1] {
                            collect_object_exports(props, decls, exports);
                        }
                    }
                }
            },
            _ => {},
        }
        proof {
            assert(body@.take(i + 1).drop_last() =~= body@.take(i as int));
            assert(body@.take(i + 1).last() == body@[i as int]);
            assert(exports@ =~= snap + export_call_entries(
                body@.take(i + 1),
                assoc_view(decls@),
            ));
        }
        i = i + 1;
    }
    proof {
        assert(body@.take(n as int) =~= body@);
    }
}

} // verus!

verus! {

/// The running state of export resolution: the exported components collected
/// so far and the declaration map, which inline export forms also extend so
/// that later lookups succeed regardless of statement order.
pub ghost struct ResolveState {
    pub exports: Seq<(String, Span)>,
    pub decls: Map<Seq<char>, Span>,
}

/// Export a component and (re-)register it in the declaration map.
pub open spec fn register_export(st: ResolveState, name: String, span: Span) -> ResolveState {
    ResolveState {
        exports: st.exports.push((name, span)),
        decls: st.decls.insert(name@, span),
    }
}

/// Resolve the declarators of an `export const`/`export let` statement: each
/// declarator that the classifier accepts is exported and registered.
pub open spec fn export_declarators(
    st: ResolveState,
    ds: Seq<Declarator>,
    rt: Seq<String>,
) -> ResolveState
    decreases ds,
{
    if ds.len() == 0 {
        st
    } else {
        let st1 = export_declarators(st, ds.drop_last(), rt);
        match ds.last().binding {
            Binding::Ident(id) => if spec_is_react_component(
                id.name@,
                ds.last().type_annotation,
                ds.last().init,
                rt,
            ) {
                register_export(st1, id.name, id.span)
            } else {
                st1
            },
            Binding::Pattern => st1,
        }
    }
}

/// The entries contributed by the bare re-export specifiers of one statement:
/// each exported name already present in the declaration map is exported.
pub open spec fn reexport_entries(names: Seq<String>, decls: Map<Seq<char>, Span>) -> Seq<
    (String, Span),
>
    decreases names,
{
    if names.len() == 0 {
        Seq::empty()
    } else {
        reexport_entries(names.drop_last(), decls) + if decls.contains_key(names.last()@) {
            seq![(names.last(), decls[names.last()@])]
        } else {
            Seq::empty()
        }
    }
}

/// Resolve one statement against the running state: default exports of a
/// known identifier, inline default function declarations, named export
/// declarations, and bare re-export specifiers each contribute exports.
pub open spec fn export_stmt_step(st: ResolveState, s: Statement, rt: Seq<String>) -> ResolveState {
    match s {
        Statement::ExportDefault(d) => match d {
            DefaultExport::Expr(e) => match e {
                Expression::Identifier { name } => if st.decls.contains_key(name@) {
                    ResolveState {
                        exports: st.exports.push((name, st.decls[name@])),
                        decls: st.decls,
                    }
                } else {
                    st
                },
                _ => st,
            },
            DefaultExport::Function(f) => match spec_function_component(f, rt) {
                Some(c) => register_export(st, c.0, c.1),
                None => st,
            },
            DefaultExport::Other => st,
        },
        Statement::ExportNamed(en) => match en.declaration {
            Some(ExportedDecl::Variable(vd)) => export_declarators(st, vd.declarators@, rt),
            Some(ExportedDecl::Function(f)) => match spec_function_component(f, rt) {
                Some(c) => register_export(st, c.0, c.1),
                None => st,
            },
            Some(ExportedDecl::Other) => st,
            None => ResolveState {
                exports: st.exports + reexport_entries(en.specifiers@, st.decls),
                decls: st.decls,
            },
        },
        _ => st,
    }
}

/// Resolve every statement of the body, in order.
pub open spec fn export_statements(
    st: ResolveState,
    body: Seq<Statement>,
    rt: Seq<String>,
) -> ResolveState
    decreases body,
{
    if body.len() == 0 {
        st
    } else {
        export_stmt_step(export_statements(st, body.drop_last(), rt), body.last(), rt)
    }
}

/// Export a component and (re-)register it in the declaration map, so a
/// registration call elsewhere in the file can also resolve it.
fn register_component(
    name: String,
    span: Span,
    exports: &mut Vec<(String, Span)>,
    decls: &mut Vec<(String, Span)>,
)
    ensures
        final(exports)@ == old(exports)@.push((name, span)),
        assoc_view(final(decls)@) == assoc_view(old(decls)@).insert(name@, span),
{
    exports.push((name.clone(), span));
    assoc_insert(decls, name, span);
}

/// Resolve the declarators of an `export const`/`export let` statement.
fn export_variable_declarators(
    ds: &Vec<Declarator>,
    rt: &Vec<String>,
    exports: &mut Vec<(String, Span)>,
    decls: &mut Vec<(String, Span)>,
)
    ensures
        final(exports)@ == export_declarators(
            ResolveState { exports: old(exports)@, decls: assoc_view(old(decls)@) },
            ds@,
            rt@,
        ).exports,
        assoc_view(final(decls)@) == export_declarators(
            ResolveState { exports: old(exports)@, decls: assoc_view(old(decls)@) },
            ds@,
            rt@,
        ).decls,
{
    let ghost st0 = (ResolveState { exports: exports@, decls: assoc_view(decls@) });
    let n = ds.len();
    let mut j: usize = 0;
    while j < n
        invariant
            j <= n,
            n == ds@.len(),
            exports@ == export_declarators(st0, ds@.take(j as int), rt@).exports,
            assoc_view(decls@) == export_declarators(st0, ds@.take(j as int), rt@).decls,
        decreases n - j,
    {
        let d = &ds[j];
        match &d.binding {
            Binding::Ident(id) => {
                if is_react_component(id.name.as_str(), &d.type_annotation, &d.init, rt) {
                    register_component(id.name.clone(), id.span, exports, decls);
                }
            },
            Binding::Pattern => {},
        }
        proof {
            assert(ds@.take(j + 1).drop_last() =~= ds@.take(j as int));
            assert(ds@.take(j + 1).last() == ds@[j as int]);
        }
        j = j + 1;
    }
    proof {
        assert(ds@.take(n as int) =~= ds@);
    }
}

/// Append the exports contributed by bare re-export specifiers.
fn collect_reexport_specifiers(
    names: &Vec<String>,
    decls: &Vec<(String, Span)>,
    exports: &mut Vec<(String, Span)>,
)
    ensures
        final(exports)@ == old(exports)@ + reexport_entries(names@, assoc_view(decls@)),
{
    let ghost snap: Seq<(String, Span)> = exports@;
    let n = names.len();
    let mut j: usize = 0;
    while j < n
        invariant
            j <= n,
            n == names@.len(),
            exports@ == snap + reexport_entries(names@.take(j as int), assoc_view(decls@)),
        decreases n - j,
    {
        match assoc_get(decls, names[j].as_str()) {
            Some(span) => exports.push((names[j].clone(), span)),
            None => {},
        }
        proof {
            assert(names@.take(j + 1).drop_last() =~= names@.take(j as int));
            assert(names@.take(j + 1).last() == names@[j as int]);
            assert(exports@ =~= snap + reexport_entries(names@.take(j + 1), assoc_view(decls@)));
        }
        j = j + 1;
    }
    proof {
        assert(names@.take(n as int) =~= names@);
    }
}

/// Resolve one statement.
fn resolve_export_statement(
    stmt: &Statement,
    rt: &Vec<String>,
    exports: &mut Vec<(String, Span)>,
    decls: &mut Vec<(String, Span)>,
)
    ensures
        final(exports)@ == export_stmt_step(
            ResolveState { exports: old(exports)@, decls: assoc_view(old(decls)@) },
            *stmt,
            rt@,
        ).exports,
        assoc_view(final(decls)@) == export_stmt_step(
            ResolveState { exports: old(exports)@, decls: assoc_view(old(decls)@) },
            *stmt,
            rt@,
        ).decls,
{
    match stmt {
        Statement::ExportDefault(d) => {
            match d {
                DefaultExport::Expr(e) => {
                    if let Expression::Identifier { name } = e {
                        match assoc_get(decls, name.as_str()) {
                            Some(span) => exports.push((name.clone(), span)),
                            None => {},
                        }
                    }
                },
                DefaultExport::Function(f) => {
                    match analyze_function_declaration(f, rt) {
                        Some((name, span)) => register_component(name, span, exports, decls),
                        None => {},
                    }
                },
                DefaultExport::Other => {},
            }
        },
        Statement::ExportNamed(en) => {
            match &en.declaration {
                Some(ExportedDecl::Variable(vd)) => export_variable_declarators(
                    &vd.declarators,
                    rt,
                    exports,
                    decls,
                ),
                Some(ExportedDecl::Function(f)) => {
                    match analyze_function_declaration(f, rt) {
                        Some((name, span)) => register_component(name, span, exports, decls),
                        None => {},
                    }
                },
                Some(ExportedDecl::Other) => {},
                None => collect_reexport_specifiers(&en.specifiers, decls, exports),
            }
        },
        _ => {},
    }
}

/// Second pass: resolve the export statements of the body, in order, against
/// the declaration map, extending both the export list and the map.
pub fn resolve_export_statements(
    body: &Vec<Statement>,
    rt: &Vec<String>,
    exports: &mut Vec<(String, Span)>,
    decls: &mut Vec<(String, Span)>,
)
    ensures
        final(exports)@ == export_statements(
            ResolveState { exports: old(exports)@, decls: assoc_view(old(decls)@) },
            body@,
            rt@,
        ).exports,
        assoc_view(final(decls)@) == export_statements(
            ResolveState { exports: old(exports)@, decls: assoc_view(old(decls)@) },
            body@,
            rt@,
        ).decls,
{
    let ghost st0 = (ResolveState { exports: exports@, decls: assoc_view(decls@) });
    let n = body.len();
    let mut i: usize = 0;
    while i < n
        invariant
            i <= n,
            n == body@.len(),
            exports@ == export_statements(st0, body@.take(i as int), rt@).exports,
            assoc_view(decls@) == export_statements(st0, body@.take(i as int), rt@).decls,
        decreases n - i,
    {
        resolve_export_statement(&body[i], rt, exports, decls);
        proof {
            assert(body@.take(i + 1).drop_last() =~= body@.take(i as int));
            assert(body@.take(i + 1).last() == body@[i as int]);
        }
        i = i + 1;
    }
    proof {
        assert(body@.take(n as int) =~= body@);
    }
}

} // verus!

verus! {

/// The component records for an export list: one record per entry, all
/// carrying the file-wide client flag, with the declaring identifier's span
/// mapped to a position range.
pub open spec fn component_records(
    exports: Seq<(String, Span)>,
    client: bool,
    src: Seq<u8>,
) -> Seq<ComponentAnalysis> {
    exports.map_values(
        |e: (String, Span)|
            ComponentAnalysis {
                name: e.0,
                is_client_component: client,
                range: spec_range(src, e.1),
            },
    )
}

/// The collected usages whose name is among the given imported names, in
/// order.
pub open spec fn filter_usages(us: Seq<(String, Span)>, names: Seq<String>) -> Seq<(String, Span)>
    decreases us,
{
    if us.len() == 0 {
        Seq::empty()
    } else {
        filter_usages(us.drop_last(), names) + if seq_contains_name(names, us.last().0@) {
            seq![us.last()]
        } else {
            Seq::empty()
        }
    }
}

/// The usage records for a usage list, with each element span mapped to a
/// position range.
pub open spec fn usage_records(us: Seq<(String, Span)>, src: Seq<u8>) -> Seq<JsxUsage> {
    us.map_values(
        |u: (String, Span)| JsxUsage { component_name: u.0, range: spec_range(src, u.1) },
    )
}

/// The full export resolution of a body: the classification pass builds the
/// declaration map, the registration-call pass runs over the whole body
/// first, and the export-statement pass follows.
pub open spec fn spec_resolution(body: Seq<Statement>, rt: Seq<String>) -> ResolveState {
    let d0 = body_decls(Map::empty(), body, rt);
    let e0 = export_call_entries(body, d0);
    export_statements(ResolveState { exports: e0, decls: d0 }, body, rt)
}

/// The exported components of a program.
pub open spec fn spec_components(src: Seq<u8>, p: Program) -> Seq<ComponentAnalysis> {
    component_records(
        spec_resolution(p.body@, runtime_ids_of(spec_imports(src, p.body@))).exports,
        spec_has_client_directive(p.directives@),
        src,
    )
}

/// The markup usages of a program that name an imported identifier.
pub open spec fn spec_jsx_usages(src: Seq<u8>, p: Program) -> Seq<JsxUsage> {
    usage_records(
        filter_usages(stmts_usages(p.body@), all_import_names(spec_imports(src, p.body@))),
        src,
    )
}

/// Every component record carries the file-wide client flag: the flag is
/// uniform per file, never per declaration.
pub proof fn lemma_components_flag_uniform(exports: Seq<(String, Span)>, client: bool, src: Seq<u8>)
    ensures
        forall|k: int|
            0 <= k < component_records(exports, client, src).len() ==> (#[trigger] component_records(
                exports,
                client,
                src,
            )[k]).is_client_component == client,
{
}

/// Every usage that survives the import filter names an imported identifier.
pub proof fn lemma_filtered_usages_are_imported(us: Seq<(String, Span)>, names: Seq<String>)
    ensures
        forall|k: int|
            0 <= k < filter_usages(us, names).len() ==> seq_contains_name(
                names,
                (#[trigger] filter_usages(us, names)[k]).0@,
            ),
    decreases us,
{
    if us.len() > 0 {
        lemma_filtered_usages_are_imported(us.drop_last(), names);
        let a = filter_usages(us.drop_last(), names);
        let w = filter_usages(us, names);
        assert forall|k: int| 0 <= k < w.len() implies seq_contains_name(names, w[k].0@) by {
            if k < a.len() {
                assert(w[k] == a[k]);
            } else {
                assert(w[k] == us.last());
            }
        }
    }
}

/// Analyze one parsed module against its source bytes: collect the
/// value-level imports, classify and resolve the exported components, and
/// collect the markup usages of imported identifiers.
pub fn analyze_program(source: &[u8], program: &Program) -> (r: AnalysisResult)
    requires
        import_spans_wf(program.body@),
    ensures
        r.imports@.map_values(|x: ImportAnalysis| x@) == spec_imports(source@, program.body@),
        r.components@ == spec_components(source@, *program),
        r.jsx_usages@ == spec_jsx_usages(source@, *program),
        forall|k: int|
            0 <= k < r.components@.len() ==> (#[trigger] r.components@[k]).is_client_component
                == spec_has_client_directive(program.directives@),
        forall|k: int|
            0 <= k < r.jsx_usages@.len() ==> seq_contains_name(
                all_import_names(spec_imports(source@, program.body@)),
                (#[trigger] r.jsx_usages@[k]).component_name@,
            ),
{
    let imports = collect_imports(source, &program.body);
    let runtime_ids = collect_runtime_identifiers(&imports);
    let mut decls = collect_component_declarations(&program.body, &runtime_ids);
    let mut exports: Vec<(String, Span)> = Vec::new();
    collect_export_call_components(&program.body, &decls, &mut exports);
    proof {
        assert(exports@ =~= export_call_entries(
            program.body@,
            body_decls(Map::empty(), program.body@, runtime_ids@),
        ));
    }
    resolve_export_statements(&program.body, &runtime_ids, &mut exports, &mut decls);
    proof {
        assert(exports@ == spec_resolution(program.body@, runtime_ids@).exports);
    }
    let client = has_client_directive(&program.directives);

    let mut components: Vec<ComponentAnalysis> = Vec::new();
    let n = exports.len();
    let mut i: usize = 0;
    while i < n
        invariant
            i <= n,
            n == exports@.len(),
            components@ == component_records(exports@.take(i as int), client, source@),
        decreases n - i,
    {
        let name = exports[i].0.clone();
        let range = span_to_range(source, exports[i].1);
        components.push(ComponentAnalysis { name, is_client_component: client, range });
        proof {
            assert(components@ =~= component_records(exports@.take(i + 1), client, source@));
        }
        i = i + 1;
    }
    proof {
        assert(exports@.take(n as int) =~= exports@);
    }

    let raw = collect_jsx_usages(&program.body);
    let imported = collect_imported_identifiers(&imports);
    let mut jsx_usages: Vec<JsxUsage> = Vec::new();
    let m = raw.len();
    let mut j: usize = 0;
    while j < m
        invariant
            j <= m,
            m == raw@.len(),
            jsx_usages@ == usage_records(filter_usages(raw@.take(j as int), imported@), source@),
        decreases m - j,
    {
        if contains_name(&imported, raw[j].0.as_str()) {
            let component_name = raw[j].0.clone();
            let range = span_to_range(source, raw[j].1);
            jsx_usages.push(JsxUsage { component_name, range });
        }
        proof {
            assert(raw@.take(j + 1).drop_last() =~= raw@.take(j as int));
            assert(raw@.take(j + 1).last() == raw@[j as int]);
            assert(jsx_usages@ =~= usage_records(
                filter_usages(raw@.take(j + 1), imported@),
                source@,
            ));
        }
        j = j + 1;
    }
    proof {
        assert(raw@.take(m as int) =~= raw@);
        lemma_filtered_usages_are_imported(stmts_usages(program.body@), imported@);
    }

    AnalysisResult { imports, components, jsx_usages }
}

} // verus!

verus! {

/// Law: a type-only import statement contributes no import record; removing
/// it from the body leaves the collected imports unchanged.
pub proof fn lemma_type_only_import_skipped(src: Seq<u8>, body: Seq<Statement>, i: int)
    requires
        0 <= i < body.len(),
        (match body[i] {
            Statement::Import(d) => d.type_only,
            _ => false,
        }),
    ensures
        spec_imports(src, body) == spec_imports(src, body.remove(i)),
    decreases body.len(),
{
    if i == body.len() - 1 {
        assert(body.remove(i) =~= body.drop_last());
        assert(spec_imports(src, body) =~= spec_imports(src, body.drop_last()));
    } else {
        let b2 = body.remove(i);
        assert(b2.drop_last() =~= body.drop_last().remove(i));
        assert(b2.last() == body.last());
        assert(body.drop_last()[i] == body[i]);
        lemma_type_only_import_skipped(src, body.drop_last(), i);
    }
}

/// The specifier binds `n` at the value level: it is not marked type-only
/// and its local name is `n`.
pub open spec fn specifier_value_binding(s: ImportSpecifier, n: String) -> bool {
    match s {
        ImportSpecifier::Named { local, type_only } => !type_only && local == n,
        ImportSpecifier::Default { local } => local == n,
        ImportSpecifier::Namespace { local } => local == n,
    }
}

/// Law: every identifier of an import record is the local name of some
/// value-level specifier of its statement; the local name of a type-only
/// named specifier is never taken.
pub proof fn lemma_import_identifiers_value_level(specs: Seq<ImportSpecifier>, k: int)
    requires
        0 <= k < specifier_names(specs).len(),
    ensures
        exists|j: int|
            0 <= j < specs.len() && specifier_value_binding(
                #[trigger] specs[j],
                specifier_names(specs)[k],
            ),
    decreases specs,
{
    let names = specifier_names(specs);
    let prefix = specifier_names(specs.drop_last());
    if k < prefix.len() {
        lemma_import_identifiers_value_level(specs.drop_last(), k);
        let j = choose|j: int|
            0 <= j < specs.drop_last().len() && specifier_value_binding(
                #[trigger] specs.drop_last()[j],
                prefix[k],
            );
        assert(specs[j] == specs.drop_last()[j]);
        assert(names[k] == prefix[k]);
        assert(specifier_value_binding(specs[j], names[k]));
    } else {
        let j = specs.len() - 1;
        assert(specifier_value_binding(specs[j], names[k]));
    }
}

/// Law: filtering by imported names keeps every recorded name's PascalCase
/// property, so lowercase tags are absent from the final usage list as well.
pub proof fn lemma_filter_preserves_upper(us: Seq<(String, Span)>, names: Seq<String>)
    requires
        crate::jsx::all_upper(us),
    ensures
        crate::jsx::all_upper(filter_usages(us, names)),
    decreases us,
{
    if us.len() > 0 {
        lemma_filter_preserves_upper(us.drop_last(), names);
        let a = filter_usages(us.drop_last(), names);
        let w = filter_usages(us, names);
        assert forall|k: int|
            0 <= k < w.len() implies crate::text::spec_upper_start(w[k].0@) by {
            if k < a.len() {
                assert(w[k] == a[k]);
            } else {
                assert(w[k] == us.last());
                assert(us.last() == us[us.len() - 1]);
            }
        }
    }
}

} // verus!
