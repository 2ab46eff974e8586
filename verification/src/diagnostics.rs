use vstd::prelude::*;
use vstd::string::StringExecFns;
use crate::ast::Span;

verus! {

/// The four advisory diagnostic kinds of the pass. None of them halts it.
#[derive(Clone, Copy, PartialEq, Eq, Structural, Debug)]
pub enum DiagnosticKind {
    /// Both `use client` and `use server` are active in one prologue.
    RedundantDirectives,
    /// Directive text outside the prologue, or inside parentheses.
    MisplacedClientDirective,
    /// A deny-listed import source on the server layer.
    ForbiddenServerImport,
    /// A deny-listed symbol from an otherwise allowed package on the server layer.
    ForbiddenServerApiUsage,
}

/// One emitted diagnostic: a kind, a fully rendered message, and one span.
#[derive(Debug)]
pub struct Diagnostic {
    pub kind: DiagnosticKind,
    pub message: String,
    pub span: Span,
}

/// Spec-level image of a diagnostic.
pub ghost struct SpecDiag {
    pub kind: DiagnosticKind,
    pub message: Seq<char>,
    pub span: Span,
}

pub open spec fn diag_view(d: Diagnostic) -> SpecDiag {
    SpecDiag { kind: d.kind, message: d.message@, span: d.span }
}

pub open spec fn view_diags(v: Seq<Diagnostic>) -> Seq<SpecDiag> {
    v.map_values(|d: Diagnostic| diag_view(d))
}

/// Compares two string values.
pub fn string_eq(a: &String, b: &String) -> (r: bool)
    ensures
        r == (a@ == b@),
{
    *a == *b
}

/// Compares a string value against a literal.
pub fn string_eq_lit(v: &String, lit: &str) -> (r: bool)
    ensures
        r == (v@ == lit@),
{
    let l: String = lit.to_owned();
    *v == l
}

pub open spec fn redundant_directives_message() -> Seq<char> {
    "It's not possible to have both `use client` and `use server` directives in the same file."@
}

pub open spec fn misplaced_client_directive_message() -> Seq<char> {
    "The \"use client\" directive must be placed before other expressions. Move it to the top of the file to resolve this issue."@
}

/// The message for a deny-listed import source; one source gets a special
/// wording that recommends rendering the content directly instead.
pub open spec fn forbidden_server_import_message(source: Seq<char>) -> Seq<char> {
    if source == "react-dom/server"@ {
        "You're importing a component that imports react-dom/server. To fix it, render or return the content directly as a Server Component instead for perf and security."@
    } else {
        "You're importing a component that imports "@ + source
            + ". It only works in a Client Component but none of its parents are marked with \"use client\", so they're Server Components by default.\\n\\n"@
    }
}

/// The message for a deny-listed symbol; the legacy stateful base class gets
/// a special wording.
pub open spec fn forbidden_server_api_message(name: Seq<char>) -> Seq<char> {
    if name == "Component"@ {
        "You're importing a class component. It only works in a Client Component but none of its parents are marked with \"use client\", so they're Server Components by default.\n\n"@
    } else {
        "You're importing a component that needs `"@ + name
            + "`. This React hook only works in a client component. To fix, mark the file (or its parent) with the `\"use client\"` directive.\n\n"@
    }
}

pub open spec fn spec_redundant_diag(span: Span) -> SpecDiag {
    SpecDiag {
        kind: DiagnosticKind::RedundantDirectives,
        message: redundant_directives_message(),
        span,
    }
}

pub open spec fn spec_misplaced_diag(span: Span) -> SpecDiag {
    SpecDiag {
        kind: DiagnosticKind::MisplacedClientDirective,
        message: misplaced_client_directive_message(),
        span,
    }
}

pub open spec fn spec_forbidden_import_diag(source: Seq<char>, span: Span) -> SpecDiag {
    SpecDiag {
        kind: DiagnosticKind::ForbiddenServerImport,
        message: forbidden_server_import_message(source),
        span,
    }
}

pub open spec fn spec_forbidden_api_diag(name: Seq<char>, span: Span) -> SpecDiag {
    SpecDiag {
        kind: DiagnosticKind::ForbiddenServerApiUsage,
        message: forbidden_server_api_message(name),
        span,
    }
}

/// Renders the diagnostic for two directives active in the same prologue.
pub fn redundant_directives_diag(span: Span) -> (d: Diagnostic)
    ensures
        diag_view(d) == spec_redundant_diag(span),
{
    Diagnostic {
        kind: DiagnosticKind::RedundantDirectives,
        message: "It's not possible to have both `use client` and `use server` directives in the same file.".to_owned(),
        span,
    }
}

/// Renders the diagnostic for directive text outside the prologue or inside
/// parentheses.
pub fn misplaced_client_directive_diag(span: Span) -> (d: Diagnostic)
    ensures
        diag_view(d) == spec_misplaced_diag(span),
{
    Diagnostic {
        kind: DiagnosticKind::MisplacedClientDirective,
        message: "The \"use client\" directive must be placed before other expressions. Move it to the top of the file to resolve this issue.".to_owned(),
        span,
    }
}

/// Renders the diagnostic for a deny-listed import source.
pub fn forbidden_server_import_diag(source: &String, span: Span) -> (d: Diagnostic)
    ensures
        diag_view(d) == spec_forbidden_import_diag(source@, span),
{
    let message: String = if string_eq_lit(source, "react-dom/server") {
        "You're importing a component that imports react-dom/server. To fix it, render or return the content directly as a Server Component instead for perf and security.".to_owned()
    } else {
        let mut m: String = "You're importing a component that imports ".to_owned();
        m.append(source.as_str());
        m.append(". It only works in a Client Component but none of its parents are marked with \"use client\", so they're Server Components by default.\\n\\n");
        m
    };
    Diagnostic { kind: DiagnosticKind::ForbiddenServerImport, message, span }
}

/// Renders the diagnostic for a deny-listed symbol of an allowed package.
pub fn forbidden_server_api_diag(name: &String, span: Span) -> (d: Diagnostic)
    ensures
        diag_view(d) == spec_forbidden_api_diag(name@, span),
{
    let message: String = if string_eq_lit(name, "Component") {
        "You're importing a class component. It only works in a Client Component but none of its parents are marked with \"use client\", so they're Server Components by default.\n\n".to_owned()
    } else {
        let mut m: String = "You're importing a component that needs `".to_owned();
        m.append(name.as_str());
        m.append("`. This React hook only works in a client component. To fix, mark the file (or its parent) with the `\"use client\"` directive.\n\n");
        m
    };
    Diagnostic { kind: DiagnosticKind::ForbiddenServerApiUsage, message, span }
}

} // verus!
