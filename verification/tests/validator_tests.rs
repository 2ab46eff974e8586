use react_server_components::ast::Span;
use react_server_components::diagnostics::DiagnosticKind;
use react_server_components::scanner::{ClassificationResult, ModuleImports};
use react_server_components::validator::ReactServerComponentValidator;

fn sp(n: u32) -> Span {
    Span { lo: n, hi: n + 1 }
}

fn import(source: &str, names: &[&str]) -> ModuleImports {
    ModuleImports {
        source: (source.to_string(), sp(1)),
        specifiers: names
            .iter()
            .enumerate()
            .map(|(i, n)| (n.to_string(), sp(10 + i as u32)))
            .collect(),
    }
}

fn classification(is_client_entry: bool, imports: Vec<ModuleImports>) -> ClassificationResult {
    ClassificationResult {
        is_client_entry,
        is_server_action_file: false,
        imports,
        export_names: vec![],
    }
}

#[test]
fn react_use_state_forbidden_on_server_layer() {
    let v = ReactServerComponentValidator::new(true, "/app/page.js".to_string());
    let c = classification(false, vec![import("react", &["useState"])]);
    let diags = v.validate(&c);
    assert_eq!(diags.len(), 1);
    assert_eq!(diags[0].kind, DiagnosticKind::ForbiddenServerApiUsage);
    assert_eq!(
        diags[0].message,
        "You're importing a component that needs `useState`. This React hook only works in a client component. To fix, mark the file (or its parent) with the `\"use client\"` directive.\n\n"
    );
    assert_eq!(diags[0].span, sp(10));
}

#[test]
fn react_use_state_vendored_path_exempt() {
    let v = ReactServerComponentValidator::new(
        true,
        "/app/node_modules/some-pkg/index.js".to_string(),
    );
    let c = classification(false, vec![import("react", &["useState"])]);
    let diags = v.validate(&c);
    assert!(diags.is_empty());
}

#[test]
fn node_modules_detection_both_separators() {
    let v = ReactServerComponentValidator::new(true, "x".to_string());
    assert!(v.is_from_node_modules("/proj/node_modules/lib/a.js"));
    assert!(v.is_from_node_modules("C:\\proj\\node_modules\\lib\\a.js"));
    assert!(!v.is_from_node_modules("/proj/src/app.js"));
    assert!(!v.is_from_node_modules("/proj/node_modules"));
    assert!(!v.is_from_node_modules("/proj/my_node_module/a.js"));
}

#[test]
fn react_dom_server_import_special_message() {
    let v = ReactServerComponentValidator::new(true, "/app/page.js".to_string());
    let c = classification(false, vec![import("react-dom/server", &[])]);
    let diags = v.validate(&c);
    assert_eq!(diags.len(), 1);
    assert_eq!(diags[0].kind, DiagnosticKind::ForbiddenServerImport);
    assert_eq!(
        diags[0].message,
        "You're importing a component that imports react-dom/server. To fix it, render or return the content directly as a Server Component instead for perf and security."
    );
    assert_eq!(diags[0].span, sp(1));
}

#[test]
fn react_dom_client_import_generic_message() {
    let v = ReactServerComponentValidator::new(true, "/app/page.js".to_string());
    let c = classification(false, vec![import("react-dom/client", &[])]);
    let diags = v.validate(&c);
    assert_eq!(diags.len(), 1);
    assert_eq!(diags[0].kind, DiagnosticKind::ForbiddenServerImport);
    assert_eq!(
        diags[0].message,
        "You're importing a component that imports react-dom/client. It only works in a Client Component but none of its parents are marked with \"use client\", so they're Server Components by default.\\n\\n"
    );
}

#[test]
fn component_import_special_message() {
    let v = ReactServerComponentValidator::new(true, "/app/page.js".to_string());
    let c = classification(false, vec![import("react", &["Component"])]);
    let diags = v.validate(&c);
    assert_eq!(diags.len(), 1);
    assert_eq!(diags[0].kind, DiagnosticKind::ForbiddenServerApiUsage);
    assert_eq!(
        diags[0].message,
        "You're importing a class component. It only works in a Client Component but none of its parents are marked with \"use client\", so they're Server Components by default.\n\n"
    );
}

#[test]
fn react_dom_apis_each_flagged() {
    let v = ReactServerComponentValidator::new(true, "/app/page.js".to_string());
    let c = classification(false, vec![import("react-dom", &["useFormStatus", "flushSync"])]);
    let diags = v.validate(&c);
    assert_eq!(diags.len(), 2);
    assert!(diags[0].message.contains("useFormStatus"));
    assert!(diags[1].message.contains("flushSync"));
}

#[test]
fn unlisted_api_and_unlisted_package_allowed() {
    let v = ReactServerComponentValidator::new(true, "/app/page.js".to_string());
    let c = classification(
        false,
        vec![import("react", &["useMemo"]), import("lodash", &["useState"])],
    );
    let diags = v.validate(&c);
    assert!(diags.is_empty());
}

#[test]
fn forbidden_source_and_api_combined_in_order() {
    let v = ReactServerComponentValidator::new(true, "/app/page.js".to_string());
    let c = classification(
        false,
        vec![import("react-dom/server", &[]), import("react", &["useEffect", "useRef"])],
    );
    let diags = v.validate(&c);
    assert_eq!(diags.len(), 3);
    assert_eq!(diags[0].kind, DiagnosticKind::ForbiddenServerImport);
    assert!(diags[1].message.contains("useEffect"));
    assert!(diags[2].message.contains("useRef"));
}

#[test]
fn validator_silent_off_server_layer() {
    let v = ReactServerComponentValidator::new(false, "/app/page.js".to_string());
    let c = classification(false, vec![import("react-dom/server", &["anything"])]);
    assert!(v.validate(&c).is_empty());
}

#[test]
fn validator_silent_for_client_entry() {
    let v = ReactServerComponentValidator::new(true, "/app/page.js".to_string());
    let c = classification(true, vec![import("react-dom/server", &[])]);
    assert!(v.validate(&c).is_empty());
}
