use react_server_components::ast::{ExportDeclKind, Module, ModuleItem, Span};
use react_server_components::diagnostics::DiagnosticKind;
use react_server_components::rewriter::client_entry_comment_text;
use react_server_components::transform::server_components;
use react_server_components::TransformConfig;

fn sp(n: u32) -> Span {
    Span { lo: n, hi: n + 1 }
}

fn str_stmt(value: &str, n: u32) -> ModuleItem {
    ModuleItem::StrLitStmt { value: value.to_string(), span: sp(n) }
}

fn client_entry_module() -> Module {
    Module {
        span: sp(0),
        body: vec![
            str_stmt("use client", 1),
            ModuleItem::OtherStmt { span: sp(2) },
            ModuleItem::ExportDecl {
                decl: ExportDeclKind::FnDecl { name: "Button".to_string() },
                span: sp(3),
            },
            ModuleItem::ExportDefaultExpr { span: sp(4) },
        ],
    }
}

#[test]
fn server_layer_client_entry_rewritten_to_proxy() {
    let pass = server_components("/app/button.jsx".to_string(), true);
    let mut m = client_entry_module();
    let out = pass.visit_mut_module(&mut m, false);
    assert!(out.classification.is_client_entry);
    assert_eq!(m.body.len(), 2);
    match &m.body[0] {
        ModuleItem::ProxyFactoryBinding { specifier, .. } => {
            assert_eq!(specifier, "private-next-rsc-mod-ref-proxy");
        }
        other => panic!("expected a proxy factory binding, got {:?}", other),
    }
    match &m.body[1] {
        ModuleItem::ProxyExportAssign { filepath, .. } => {
            assert_eq!(filepath, "/app/button.jsx");
        }
        other => panic!("expected a proxy export assignment, got {:?}", other),
    }
    assert_eq!(
        out.leading_comment.as_deref(),
        Some(" __next_internal_client_entry_do_not_use__ Button,default auto ")
    );
    assert!(!out.recurse_children);
    assert!(out.diagnostics.is_empty());
}

#[test]
fn server_layer_client_entry_cjs_tag() {
    let pass = server_components("/app/button.jsx".to_string(), true);
    let mut m = client_entry_module();
    let out = pass.visit_mut_module(&mut m, true);
    assert_eq!(
        out.leading_comment.as_deref(),
        Some(" __next_internal_client_entry_do_not_use__ Button,default cjs ")
    );
}

#[test]
fn second_run_on_proxy_rewrite_changes_nothing() {
    let pass = server_components("/app/button.jsx".to_string(), true);
    let mut m = client_entry_module();
    pass.visit_mut_module(&mut m, false);
    let out = pass.visit_mut_module(&mut m, false);
    assert!(!out.classification.is_client_entry);
    assert!(out.leading_comment.is_none());
    assert!(out.recurse_children);
    assert!(out.diagnostics.is_empty());
    assert_eq!(m.body.len(), 2);
    assert!(matches!(m.body[0], ModuleItem::ProxyFactoryBinding { .. }));
    assert!(matches!(m.body[1], ModuleItem::ProxyExportAssign { .. }));
}

#[test]
fn non_server_layer_client_entry_keeps_body_and_comments() {
    let pass = server_components("/app/button.jsx".to_string(), false);
    let mut m = client_entry_module();
    let out = pass.visit_mut_module(&mut m, false);
    assert!(out.classification.is_client_entry);
    // only the directive is stripped; everything else stays
    assert_eq!(m.body.len(), 3);
    assert!(matches!(m.body[0], ModuleItem::OtherStmt { .. }));
    assert_eq!(
        out.leading_comment.as_deref(),
        Some(" __next_internal_client_entry_do_not_use__ Button,default auto ")
    );
    assert!(out.recurse_children);
}

#[test]
fn non_client_entry_gets_no_comment() {
    let pass = server_components("/app/page.js".to_string(), true);
    let mut m = Module { span: sp(0), body: vec![ModuleItem::OtherStmt { span: sp(1) }] };
    let out = pass.visit_mut_module(&mut m, false);
    assert!(!out.classification.is_client_entry);
    assert!(out.leading_comment.is_none());
    assert!(out.recurse_children);
    assert_eq!(m.body.len(), 1);
}

#[test]
fn every_use_client_statement_is_stripped() {
    let pass = server_components("/app/a.js".to_string(), false);
    let mut m = Module {
        span: sp(0),
        body: vec![
            str_stmt("use client", 1),
            str_stmt("use client", 2),
            ModuleItem::OtherStmt { span: sp(3) },
            str_stmt("use client", 4),
        ],
    };
    let out = pass.visit_mut_module(&mut m, false);
    assert!(out.classification.is_client_entry);
    // the late duplicate is reported as misplaced, yet still stripped
    assert_eq!(out.diagnostics.len(), 1);
    assert_eq!(out.diagnostics[0].kind, DiagnosticKind::MisplacedClientDirective);
    assert_eq!(m.body.len(), 1);
    assert!(matches!(m.body[0], ModuleItem::OtherStmt { .. }));
}

#[test]
fn scanner_and_validator_diagnostics_in_order() {
    let pass = server_components("/app/page.js".to_string(), true);
    let mut m = Module {
        span: sp(0),
        body: vec![
            ModuleItem::OtherStmt { span: sp(1) },
            str_stmt("use client", 2),
            ModuleItem::Import {
                import: react_server_components::ast::ImportDecl {
                    source: "react".to_string(),
                    span: sp(3),
                    type_only: false,
                    specifiers: vec![react_server_components::ast::ImportSpecifierAst::Named {
                        imported: None,
                        local: ("useState".to_string(), sp(4)),
                        is_type_only: false,
                    }],
                },
            },
        ],
    };
    let out = pass.visit_mut_module(&mut m, false);
    // the misplaced directive did not make this a client entry, so the
    // validator still runs and flags the hook
    assert_eq!(out.diagnostics.len(), 2);
    assert_eq!(out.diagnostics[0].kind, DiagnosticKind::MisplacedClientDirective);
    assert_eq!(out.diagnostics[1].kind, DiagnosticKind::ForbiddenServerApiUsage);
}

#[test]
fn empty_export_list_comment_shape() {
    let comment = client_entry_comment_text(&vec![], false);
    assert_eq!(comment, " __next_internal_client_entry_do_not_use__  auto ");
}

#[test]
fn transform_config_defaults_to_client_layer() {
    let c = TransformConfig::default();
    assert!(!c.is_react_server_layer);
}
