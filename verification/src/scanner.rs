use vstd::prelude::*;
use crate::ast::{
    ExportDeclKind, ExportSpecifierAst, ImportDecl, ImportSpecifierAst, Module, ModuleItem, Span,
};
use crate::diagnostics::{
    misplaced_client_directive_diag, redundant_directives_diag, spec_misplaced_diag,
    spec_redundant_diag, string_eq_lit, view_diags, Diagnostic, SpecDiag,
};

verus! {

/// An import as the scanner records it: the source specifier with its span,
/// and the resolved specifier names with their spans.
#[derive(Debug)]
pub struct ModuleImports {
    pub source: (String, Span),
    pub specifiers: Vec<(String, Span)>,
}

/// What one scan of a module yields, computed exactly once per module and
/// then shared read-only by the validator and the rewriter.
#[derive(Debug)]
pub struct ClassificationResult {
    pub is_client_entry: bool,
    pub is_server_action_file: bool,
    pub imports: Vec<ModuleImports>,
    pub export_names: Vec<String>,
}

/// Spec-level image of a recorded import.
pub ghost struct SpecImport {
    pub source: Seq<char>,
    pub span: Span,
    pub specifiers: Seq<(Seq<char>, Span)>,
}

pub open spec fn import_view(m: ModuleImports) -> SpecImport {
    SpecImport {
        source: m.source.0@,
        span: m.source.1,
        specifiers: m.specifiers@.map_values(|p: (String, Span)| (p.0@, p.1)),
    }
}

pub open spec fn view_imports(v: Seq<ModuleImports>) -> Seq<SpecImport> {
    v.map_values(|m: ModuleImports| import_view(m))
}

pub open spec fn view_names(v: Seq<String>) -> Seq<Seq<char>> {
    v.map_values(|s: String| s@)
}

/// What one import specifier contributes to the recorded specifier list:
/// the exported name where the binding was renamed, else the local binding;
/// a default binding under the sentinel "", a namespace binding under "*";
/// a type-only specifier contributes nothing.
pub open spec fn import_specifier_record(s: ImportSpecifierAst) -> Seq<(Seq<char>, Span)> {
    match s {
        ImportSpecifierAst::Named { imported, local, is_type_only } => {
            if is_type_only {
                Seq::empty()
            } else {
                match imported {
                    Some(p) => seq![(p.0@, p.1)],
                    None => seq![(local.0@, local.1)],
                }
            }
        },
        ImportSpecifierAst::DefaultImport { span } => seq![(""@, span)],
        ImportSpecifierAst::NamespaceImport { span } => seq![("*"@, span)],
    }
}

pub open spec fn import_specifier_records(ss: Seq<ImportSpecifierAst>) -> Seq<(Seq<char>, Span)>
    decreases ss.len(),
{
    if ss.len() == 0 {
        Seq::empty()
    } else {
        import_specifier_records(ss.drop_last()) + import_specifier_record(ss.last())
    }
}

/// The record one non-type-only import declaration adds to the import list.
pub open spec fn import_record(d: ImportDecl) -> SpecImport {
    SpecImport {
        source: d.source@,
        span: d.span,
        specifiers: import_specifier_records(d.specifiers@),
    }
}

/// The export name one specifier of a named export resolves to.
pub open spec fn export_specifier_name(s: ExportSpecifierAst) -> Seq<char> {
    match s {
        ExportSpecifierAst::DefaultExport { span } => "default"@,
        ExportSpecifierAst::NamespaceExport { span } => "*"@,
        ExportSpecifierAst::NamedExport { orig, exported } => match exported {
            Some(e) => e@,
            None => orig@,
        },
    }
}

pub open spec fn export_specifier_names(ss: Seq<ExportSpecifierAst>) -> Seq<Seq<char>>
    decreases ss.len(),
{
    if ss.len() == 0 {
        Seq::empty()
    } else {
        export_specifier_names(ss.drop_last()).push(export_specifier_name(ss.last()))
    }
}

/// The names a declared-variable export contributes: each plain identifier
/// binding, in order.
pub open spec fn var_decl_names(bs: Seq<Option<String>>) -> Seq<Seq<char>>
    decreases bs.len(),
{
    if bs.len() == 0 {
        Seq::empty()
    } else {
        var_decl_names(bs.drop_last()) + (match bs.last() {
            Some(n) => seq![n@],
            None => Seq::<Seq<char>>::empty(),
        })
    }
}

pub open spec fn export_decl_names(d: ExportDeclKind) -> Seq<Seq<char>> {
    match d {
        ExportDeclKind::ClassDecl { name } => seq![name@],
        ExportDeclKind::FnDecl { name } => seq![name@],
        ExportDeclKind::VarDecl { binding_names } => var_decl_names(binding_names@),
        ExportDeclKind::OtherDecl => Seq::empty(),
    }
}

/// The export names one item contributes to the collected list. An
/// `export * from` declaration contributes exactly one "*" marker.
pub open spec fn item_export_names(item: ModuleItem) -> Seq<Seq<char>> {
    match item {
        ModuleItem::ExportNamed { specifiers, span } => export_specifier_names(specifiers@),
        ModuleItem::ExportDecl { decl, span } => export_decl_names(decl),
        ModuleItem::ExportDefaultDecl { span } => seq!["default"@],
        ModuleItem::ExportDefaultExpr { span } => seq!["default"@],
        ModuleItem::ExportAll { span } => seq!["*"@],
        _ => Seq::<Seq<char>>::empty(),
    }
}

/// The scanner's whole state after some prefix of the module's items.
pub ghost struct ScanState {
    /// Whether the directive prologue has been closed. Once true it never
    /// re-opens.
    pub finished_directives: bool,
    pub is_client_entry: bool,
    pub is_action_file: bool,
    pub imports: Seq<SpecImport>,
    pub export_names: Seq<Seq<char>>,
    pub diags: Seq<SpecDiag>,
}

pub open spec fn scan_init() -> ScanState {
    ScanState {
        finished_directives: false,
        is_client_entry: false,
        is_action_file: false,
        imports: Seq::empty(),
        export_names: Seq::empty(),
        diags: Seq::empty(),
    }
}

/// One step of the single forward pass, in source order: a string-literal
/// statement is honoured as a directive only while the prologue is open;
/// `"use client"` after the prologue, and a parenthesized `"use client"`
/// anywhere, are flagged as misplaced; both directives active together are
/// flagged as redundant; every other item closes the prologue.
pub open spec fn scan_step(st: ScanState, item: ModuleItem) -> ScanState {
    match item {
        ModuleItem::StrLitStmt { value, span } => {
            if value@ == "use client"@ {
                if !st.finished_directives {
                    if st.is_action_file {
                        ScanState {
                            is_client_entry: true,
                            diags: st.diags.push(spec_redundant_diag(span)),
                            ..st
                        }
                    } else {
                        ScanState { is_client_entry: true, ..st }
                    }
                } else {
                    ScanState { diags: st.diags.push(spec_misplaced_diag(span)), ..st }
                }
            } else if value@ == "use server"@ && !st.finished_directives {
                if st.is_client_entry {
                    ScanState {
                        is_action_file: true,
                        diags: st.diags.push(spec_redundant_diag(span)),
                        ..st
                    }
                } else {
                    ScanState { is_action_file: true, ..st }
                }
            } else {
                st
            }
        },
        ModuleItem::ParenStrLitStmt { value, span } => {
            if value@ == "use client"@ {
                ScanState {
                    finished_directives: true,
                    diags: st.diags.push(spec_misplaced_diag(span)),
                    ..st
                }
            } else {
                ScanState { finished_directives: true, ..st }
            }
        },
        ModuleItem::Import { import } => {
            if import.type_only {
                ScanState { finished_directives: true, ..st }
            } else {
                ScanState {
                    finished_directives: true,
                    imports: st.imports.push(import_record(import)),
                    ..st
                }
            }
        },
        ModuleItem::ExportNamed { specifiers, span } => ScanState {
            finished_directives: true,
            export_names: st.export_names + export_specifier_names(specifiers@),
            ..st
        },
        ModuleItem::ExportDecl { decl, span } => ScanState {
            finished_directives: true,
            export_names: st.export_names + export_decl_names(decl),
            ..st
        },
        ModuleItem::ExportDefaultDecl { span } => ScanState {
            finished_directives: true,
            export_names: st.export_names.push("default"@),
            ..st
        },
        ModuleItem::ExportDefaultExpr { span } => ScanState {
            finished_directives: true,
            export_names: st.export_names.push("default"@),
            ..st
        },
        ModuleItem::ExportAll { span } => ScanState {
            finished_directives: true,
            export_names: st.export_names.push("*"@),
            ..st
        },
        _ => ScanState { finished_directives: true, ..st },
    }
}

/// The scanner's state after all items, folded in source order from the
/// all-empty initial state.
pub open spec fn scan_items(items: Seq<ModuleItem>) -> ScanState
    decreases items.len(),
{
    if items.len() == 0 {
        scan_init()
    } else {
        scan_step(scan_items(items.drop_last()), items.last())
    }
}

/// Records one non-type-only import declaration.
fn record_import(import: &ImportDecl) -> (r: ModuleImports)
    ensures
        import_view(r) == import_record(*import),
{
    let mut specifiers: Vec<(String, Span)> = Vec::new();
    let n = import.specifiers.len();
    for i in 0..n
        invariant
            n == import.specifiers@.len(),
            specifiers@.map_values(|p: (String, Span)| (p.0@, p.1))
                == import_specifier_records(import.specifiers@.take(i as int)),
    {
        let ghost pre = specifiers@;
        match &import.specifiers[i] {
            ImportSpecifierAst::Named { imported, local, is_type_only } => {
                if !*is_type_only {
                    match imported {
                        Some(p) => specifiers.push((p.0.clone(), p.1)),
                        None => specifiers.push((local.0.clone(), local.1)),
                    }
                }
            },
            ImportSpecifierAst::DefaultImport { span } => {
                specifiers.push(("".to_owned(), *span));
            },
            ImportSpecifierAst::NamespaceImport { span } => {
                specifiers.push(("*".to_owned(), *span));
            },
        }
        proof {
            let s = import.specifiers@;
            assert(s.take(i as int + 1).drop_last() =~= s.take(i as int));
            assert(s.take(i as int + 1).last() == s[i as int]);
            assert(specifiers@.map_values(|p: (String, Span)| (p.0@, p.1))
                =~= import_specifier_records(s.take(i as int + 1)));
        }
    }
    proof {
        assert(import.specifiers@.take(import.specifiers@.len() as int) =~= import.specifiers@);
    }
    ModuleImports { source: (import.source.clone(), import.span), specifiers }
}

/// Appends the resolved name of each specifier of a named export.
fn append_export_specifier_names(names: &mut Vec<String>, specifiers: &Vec<ExportSpecifierAst>)
    ensures
        view_names(final(names)@) == view_names(old(names)@) + export_specifier_names(specifiers@),
{
    let mut fresh: Vec<String> = Vec::new();
    let n = specifiers.len();
    for i in 0..n
        invariant
            n == specifiers@.len(),
            view_names(fresh@) == export_specifier_names(specifiers@.take(i as int)),
    {
        match &specifiers[i] {
            ExportSpecifierAst::DefaultExport { span } => {
                fresh.push("default".to_owned());
            },
            ExportSpecifierAst::NamespaceExport { span } => {
                fresh.push("*".to_owned());
            },
            ExportSpecifierAst::NamedExport { orig, exported } => {
                match exported {
                    Some(e) => fresh.push(e.clone()),
                    None => fresh.push(orig.clone()),
                }
            },
        }
        proof {
            let s = specifiers@;
            assert(s.take(i as int + 1).drop_last() =~= s.take(i as int));
            assert(s.take(i as int + 1).last() == s[i as int]);
            assert(view_names(fresh@) =~= export_specifier_names(s.take(i as int + 1)));
        }
    }
    proof {
        assert(specifiers@.take(specifiers@.len() as int) =~= specifiers@);
    }
    let ghost fresh_view = fresh@;
    names.append(&mut fresh);
    proof {
        assert(view_names(names@) =~= view_names(old(names)@) + view_names(fresh_view));
    }
}

/// Appends the names an exported declaration contributes.
fn append_export_decl_names(names: &mut Vec<String>, decl: &ExportDeclKind)
    ensures
        view_names(final(names)@) == view_names(old(names)@) + export_decl_names(*decl),
{
    match decl {
        ExportDeclKind::ClassDecl { name } => {
            names.push(name.clone());
            proof {
                assert(view_names(names@) =~= view_names(old(names)@)
                    + export_decl_names(*decl));
            }
        },
        ExportDeclKind::FnDecl { name } => {
            names.push(name.clone());
            proof {
                assert(view_names(names@) =~= view_names(old(names)@)
                    + export_decl_names(*decl));
            }
        },
        ExportDeclKind::VarDecl { binding_names } => {
            let mut fresh: Vec<String> = Vec::new();
            let n = binding_names.len();
            for i in 0..n
                invariant
                    n == binding_names@.len(),
                    view_names(fresh@) == var_decl_names(binding_names@.take(i as int)),
            {
                match &binding_names[i] {
                    Some(name) => fresh.push(name.clone()),
                    None => {},
                }
                proof {
                    let s = binding_names@;
                    assert(s.take(i as int + 1).drop_last() =~= s.take(i as int));
                    assert(s.take(i as int + 1).last() == s[i as int]);
                    assert(view_names(fresh@) =~= var_decl_names(s.take(i as int + 1)));
                }
            }
            proof {
                assert(binding_names@.take(binding_names@.len() as int) =~= binding_names@);
            }
            let ghost fresh_view = fresh@;
            names.append(&mut fresh);
            proof {
                assert(view_names(names@) =~= view_names(old(names)@) + view_names(fresh_view));
            }
        },
        ExportDeclKind::OtherDecl => {
            proof {
                assert(view_names(names@) =~= view_names(old(names)@)
                    + export_decl_names(*decl));
            }
        },
    }
}

/// The directive and import scanner: one linear pass over the module, in
/// source order, yielding the classification record and the diagnostics of
/// misplaced or redundant directives.
pub fn collect_top_level_directives_and_imports(module: &Module) -> (r: (
    ClassificationResult,
    Vec<Diagnostic>,
))
    ensures
        r.0.is_client_entry == scan_items(module.body@).is_client_entry,
        r.0.is_server_action_file == scan_items(module.body@).is_action_file,
        view_imports(r.0.imports@) == scan_items(module.body@).imports,
        view_names(r.0.export_names@) == scan_items(module.body@).export_names,
        view_diags(r.1@) == scan_items(module.body@).diags,
{
    let mut finished_directives = false;
    let mut is_client_entry = false;
    let mut is_action_file = false;
    let mut imports: Vec<ModuleImports> = Vec::new();
    let mut export_names: Vec<String> = Vec::new();
    let mut diags: Vec<Diagnostic> = Vec::new();

    let n = module.body.len();
    for i in 0..n
        invariant
            n == module.body@.len(),
            finished_directives == scan_items(module.body@.take(i as int)).finished_directives,
            is_client_entry == scan_items(module.body@.take(i as int)).is_client_entry,
            is_action_file == scan_items(module.body@.take(i as int)).is_action_file,
            view_imports(imports@) == scan_items(module.body@.take(i as int)).imports,
            view_names(export_names@) == scan_items(module.body@.take(i as int)).export_names,
            view_diags(diags@) == scan_items(module.body@.take(i as int)).diags,
    {
        let ghost pre = scan_items(module.body@.take(i as int));
        match &module.body[i] {
            ModuleItem::StrLitStmt { value, span } => {
                if string_eq_lit(value, "use client") {
                    if !finished_directives {
                        is_client_entry = true;
                        if is_action_file {
                            diags.push(redundant_directives_diag(*span));
                        }
                    } else {
                        diags.push(misplaced_client_directive_diag(*span));
                    }
                } else if string_eq_lit(value, "use server") && !finished_directives {
                    is_action_file = true;
                    if is_client_entry {
                        diags.push(redundant_directives_diag(*span));
                    }
                }
            },
            ModuleItem::ParenStrLitStmt { value, span } => {
                finished_directives = true;
                if string_eq_lit(value, "use client") {
                    diags.push(misplaced_client_directive_diag(*span));
                }
            },
            ModuleItem::OtherExprStmt { span } => {
                finished_directives = true;
            },
            ModuleItem::OtherStmt { span } => {
                finished_directives = true;
            },
            ModuleItem::Import { import } => {
                finished_directives = true;
                if !import.type_only {
                    imports.push(record_import(import));
                }
            },
            ModuleItem::ExportNamed { specifiers, span } => {
                finished_directives = true;
                append_export_specifier_names(&mut export_names, specifiers);
            },
            ModuleItem::ExportDecl { decl, span } => {
                finished_directives = true;
                append_export_decl_names(&mut export_names, decl);
            },
            ModuleItem::ExportDefaultDecl { span } => {
                finished_directives = true;
                export_names.push("default".to_owned());
            },
            ModuleItem::ExportDefaultExpr { span } => {
                finished_directives = true;
                export_names.push("default".to_owned());
            },
            ModuleItem::ExportAll { span } => {
                finished_directives = true;
                export_names.push("*".to_owned());
            },
            ModuleItem::OtherModuleDecl { span } => {
                finished_directives = true;
            },
            ModuleItem::ProxyFactoryBinding { specifier, span } => {
                finished_directives = true;
            },
            ModuleItem::ProxyExportAssign { filepath, span } => {
                finished_directives = true;
            },
        }
        proof {
            let s = module.body@;
            assert(s.take(i as int + 1).drop_last() =~= s.take(i as int));
            assert(s.take(i as int + 1).last() == s[i as int]);
            let post = scan_step(pre, s[i as int]);
            assert(scan_items(s.take(i as int + 1)) == post);
            assert(view_imports(imports@) =~= post.imports);
            assert(view_names(export_names@) =~= post.export_names);
            assert(view_diags(diags@) =~= post.diags);
        }
    }
    proof {
        assert(module.body@.take(module.body@.len() as int) =~= module.body@);
    }
    (
        ClassificationResult { is_client_entry, is_server_action_file: is_action_file, imports, export_names },
        diags,
    )
}

} // verus!
