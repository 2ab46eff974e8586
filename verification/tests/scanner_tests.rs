use react_server_components::ast::{
    ExportDeclKind, ExportSpecifierAst, ImportDecl, ImportSpecifierAst, Module, ModuleItem, Span,
};
use react_server_components::diagnostics::DiagnosticKind;
use react_server_components::rewriter::remove_top_level_directive;
use react_server_components::scanner::collect_top_level_directives_and_imports;

fn sp(n: u32) -> Span {
    Span { lo: n, hi: n + 1 }
}

fn str_stmt(value: &str, n: u32) -> ModuleItem {
    ModuleItem::StrLitStmt { value: value.to_string(), span: sp(n) }
}

fn module(body: Vec<ModuleItem>) -> Module {
    Module { span: sp(0), body }
}

#[test]
fn empty_module_classifies_all_false() {
    let m = module(vec![]);
    let (c, diags) = collect_top_level_directives_and_imports(&m);
    assert!(!c.is_client_entry);
    assert!(!c.is_server_action_file);
    assert!(c.imports.is_empty());
    assert!(c.export_names.is_empty());
    assert!(diags.is_empty());
}

#[test]
fn no_directive_statements_classify_false_and_strip_nothing() {
    let mut m = module(vec![
        ModuleItem::OtherExprStmt { span: sp(1) },
        ModuleItem::OtherStmt { span: sp(2) },
    ]);
    let (c, diags) = collect_top_level_directives_and_imports(&m);
    assert!(!c.is_client_entry);
    assert!(!c.is_server_action_file);
    assert!(diags.is_empty());
    remove_top_level_directive(&mut m);
    assert_eq!(m.body.len(), 2);
}

#[test]
fn leading_use_client_sets_flag_and_is_stripped() {
    let mut m = module(vec![str_stmt("use client", 1), ModuleItem::OtherStmt { span: sp(2) }]);
    let (c, diags) = collect_top_level_directives_and_imports(&m);
    assert!(c.is_client_entry);
    assert!(!c.is_server_action_file);
    assert!(diags.is_empty());
    remove_top_level_directive(&mut m);
    assert_eq!(m.body.len(), 1);
    assert!(matches!(m.body[0], ModuleItem::OtherStmt { .. }));
}

#[test]
fn redundant_directives_client_then_server() {
    let m = module(vec![str_stmt("use client", 1), str_stmt("use server", 2)]);
    let (c, diags) = collect_top_level_directives_and_imports(&m);
    assert!(c.is_client_entry);
    assert!(c.is_server_action_file);
    assert_eq!(diags.len(), 1);
    assert_eq!(diags[0].kind, DiagnosticKind::RedundantDirectives);
    assert_eq!(
        diags[0].message,
        "It's not possible to have both `use client` and `use server` directives in the same file."
    );
    assert_eq!(diags[0].span, sp(2));
}

#[test]
fn redundant_directives_server_then_client() {
    let m = module(vec![str_stmt("use server", 1), str_stmt("use client", 2)]);
    let (c, diags) = collect_top_level_directives_and_imports(&m);
    assert!(c.is_client_entry);
    assert!(c.is_server_action_file);
    assert_eq!(diags.len(), 1);
    assert_eq!(diags[0].kind, DiagnosticKind::RedundantDirectives);
    assert_eq!(diags[0].span, sp(2));
}

#[test]
fn misplaced_use_client_after_statement() {
    let m = module(vec![ModuleItem::OtherExprStmt { span: sp(1) }, str_stmt("use client", 2)]);
    let (c, diags) = collect_top_level_directives_and_imports(&m);
    assert!(!c.is_client_entry);
    assert_eq!(diags.len(), 1);
    assert_eq!(diags[0].kind, DiagnosticKind::MisplacedClientDirective);
    assert_eq!(
        diags[0].message,
        "The \"use client\" directive must be placed before other expressions. Move it to the top of the file to resolve this issue."
    );
    assert_eq!(diags[0].span, sp(2));
}

#[test]
fn parenthesized_use_client_is_never_a_directive() {
    let m = module(vec![
        ModuleItem::ParenStrLitStmt { value: "use client".to_string(), span: sp(1) },
        str_stmt("use client", 2),
    ]);
    let (c, diags) = collect_top_level_directives_and_imports(&m);
    assert!(!c.is_client_entry);
    assert_eq!(diags.len(), 2);
    assert_eq!(diags[0].kind, DiagnosticKind::MisplacedClientDirective);
    assert_eq!(diags[0].span, sp(1));
    assert_eq!(diags[1].kind, DiagnosticKind::MisplacedClientDirective);
    assert_eq!(diags[1].span, sp(2));
}

#[test]
fn parenthesized_other_string_closes_prologue_silently() {
    let m = module(vec![
        ModuleItem::ParenStrLitStmt { value: "whatever".to_string(), span: sp(1) },
        str_stmt("use client", 2),
    ]);
    let (c, diags) = collect_top_level_directives_and_imports(&m);
    assert!(!c.is_client_entry);
    assert_eq!(diags.len(), 1);
    assert_eq!(diags[0].kind, DiagnosticKind::MisplacedClientDirective);
}

#[test]
fn inert_string_literal_keeps_prologue_open() {
    let m = module(vec![str_stmt("hello", 1), str_stmt("use client", 2)]);
    let (c, diags) = collect_top_level_directives_and_imports(&m);
    assert!(c.is_client_entry);
    assert!(diags.is_empty());
}

#[test]
fn leading_use_server_sets_action_flag() {
    let m = module(vec![str_stmt("use server", 1), ModuleItem::OtherStmt { span: sp(2) }]);
    let (c, diags) = collect_top_level_directives_and_imports(&m);
    assert!(!c.is_client_entry);
    assert!(c.is_server_action_file);
    assert!(diags.is_empty());
}

#[test]
fn use_server_text_is_not_stripped() {
    let mut m = module(vec![str_stmt("use server", 1), ModuleItem::OtherStmt { span: sp(2) }]);
    remove_top_level_directive(&mut m);
    assert_eq!(m.body.len(), 2);
    assert!(matches!(m.body[0], ModuleItem::StrLitStmt { .. }));
}

#[test]
fn export_item_closes_prologue() {
    let m = module(vec![ModuleItem::ExportAll { span: sp(1) }, str_stmt("use client", 2)]);
    let (c, diags) = collect_top_level_directives_and_imports(&m);
    assert!(!c.is_client_entry);
    assert_eq!(diags.len(), 1);
    assert_eq!(diags[0].kind, DiagnosticKind::MisplacedClientDirective);
}

#[test]
fn use_server_after_prologue_is_inert() {
    let m = module(vec![ModuleItem::OtherStmt { span: sp(1) }, str_stmt("use server", 2)]);
    let (c, diags) = collect_top_level_directives_and_imports(&m);
    assert!(!c.is_server_action_file);
    assert!(diags.is_empty());
}

#[test]
fn import_specifiers_recorded_with_sentinels() {
    let import = ImportDecl {
        source: "react".to_string(),
        span: sp(1),
        type_only: false,
        specifiers: vec![
            ImportSpecifierAst::Named {
                imported: Some(("useState".to_string(), sp(2))),
                local: ("s".to_string(), sp(3)),
                is_type_only: false,
            },
            ImportSpecifierAst::Named {
                imported: None,
                local: ("useEffect".to_string(), sp(4)),
                is_type_only: false,
            },
            ImportSpecifierAst::Named {
                imported: None,
                local: ("SomeType".to_string(), sp(5)),
                is_type_only: true,
            },
            ImportSpecifierAst::DefaultImport { span: sp(6) },
            ImportSpecifierAst::NamespaceImport { span: sp(7) },
        ],
    };
    let m = module(vec![ModuleItem::Import { import }]);
    let (c, _) = collect_top_level_directives_and_imports(&m);
    assert_eq!(c.imports.len(), 1);
    let rec = &c.imports[0];
    assert_eq!(rec.source.0, "react");
    assert_eq!(rec.source.1, sp(1));
    let names: Vec<&str> = rec.specifiers.iter().map(|p| p.0.as_str()).collect();
    assert_eq!(names, vec!["useState", "useEffect", "", "*"]);
    assert_eq!(rec.specifiers[0].1, sp(2));
    assert_eq!(rec.specifiers[2].1, sp(6));
}

#[test]
fn type_only_import_not_recorded() {
    let import = ImportDecl {
        source: "react".to_string(),
        span: sp(1),
        type_only: true,
        specifiers: vec![ImportSpecifierAst::DefaultImport { span: sp(2) }],
    };
    let m = module(vec![ModuleItem::Import { import }, str_stmt("use client", 3)]);
    let (c, diags) = collect_top_level_directives_and_imports(&m);
    assert!(c.imports.is_empty());
    // the type-only import still closes the prologue
    assert!(!c.is_client_entry);
    assert_eq!(diags.len(), 1);
    assert_eq!(diags[0].kind, DiagnosticKind::MisplacedClientDirective);
}

#[test]
fn export_names_collected_in_order() {
    let m = module(vec![
        ModuleItem::ExportNamed {
            specifiers: vec![
                ExportSpecifierAst::NamedExport { orig: "a".to_string(), exported: None },
                ExportSpecifierAst::NamedExport {
                    orig: "b".to_string(),
                    exported: Some("c".to_string()),
                },
                ExportSpecifierAst::DefaultExport { span: sp(2) },
                ExportSpecifierAst::NamespaceExport { span: sp(3) },
            ],
            span: sp(1),
        },
        ModuleItem::ExportDecl { decl: ExportDeclKind::ClassDecl { name: "K".to_string() }, span: sp(4) },
        ModuleItem::ExportDecl { decl: ExportDeclKind::FnDecl { name: "f".to_string() }, span: sp(5) },
        ModuleItem::ExportDecl {
            decl: ExportDeclKind::VarDecl {
                binding_names: vec![Some("v1".to_string()), None, Some("v2".to_string())],
            },
            span: sp(6),
        },
        ModuleItem::ExportDefaultExpr { span: sp(7) },
        ModuleItem::ExportAll { span: sp(8) },
    ]);
    let (c, _) = collect_top_level_directives_and_imports(&m);
    let names: Vec<&str> = c.export_names.iter().map(|s| s.as_str()).collect();
    assert_eq!(names, vec!["a", "c", "default", "*", "K", "f", "v1", "v2", "default", "*"]);
}

#[test]
fn each_export_all_contributes_one_star() {
    let m = module(vec![
        ModuleItem::ExportAll { span: sp(1) },
        ModuleItem::ExportAll { span: sp(2) },
        ModuleItem::ExportAll { span: sp(3) },
    ]);
    let (c, _) = collect_top_level_directives_and_imports(&m);
    let names: Vec<&str> = c.export_names.iter().map(|s| s.as_str()).collect();
    assert_eq!(names, vec!["*", "*", "*"]);
}
