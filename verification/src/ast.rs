use vstd::prelude::*;

verus! {

/// Source location of one item, in the host's coordinates. The pass never
/// interprets positions; it only copies them into diagnostics.
#[derive(Clone, Copy, PartialEq, Eq, Structural, Debug)]
pub struct Span {
    pub lo: u32,
    pub hi: u32,
}

/// A span for synthetic items that have no source position.
pub fn dummy_span() -> (s: Span)
    ensures
        s == (Span { lo: 0, hi: 0 }),
{
    Span { lo: 0, hi: 0 }
}

/// One specifier of an import declaration.
#[derive(Debug)]
pub enum ImportSpecifierAst {
    /// `import { a }` or `import { a as b }`: `imported` holds the exported
    /// name with its span where the binding was renamed, `local` the local
    /// binding with its span.
    Named { imported: Option<(String, Span)>, local: (String, Span), is_type_only: bool },
    /// `import d from "..."`.
    DefaultImport { span: Span },
    /// `import * as ns from "..."`.
    NamespaceImport { span: Span },
}

/// An import declaration.
#[derive(Debug)]
pub struct ImportDecl {
    /// The source specifier, the string after `from`.
    pub source: String,
    /// Span of the whole declaration.
    pub span: Span,
    /// Whether the declaration itself is type-only (`import type ...`).
    pub type_only: bool,
    pub specifiers: Vec<ImportSpecifierAst>,
}

/// One specifier of a named export declaration.
#[derive(Debug)]
pub enum ExportSpecifierAst {
    /// `export v from "x"`: a default re-export.
    DefaultExport { span: Span },
    /// `export * as ns from "x"`.
    NamespaceExport { span: Span },
    /// `export { orig }` or `export { orig as exported }`.
    NamedExport { orig: String, exported: Option<String> },
}

/// The declaration carried by an `export <decl>` item.
#[derive(Debug)]
pub enum ExportDeclKind {
    ClassDecl { name: String },
    FnDecl { name: String },
    /// The declared bindings; a pattern that is not a plain identifier
    /// carries `None`.
    VarDecl { binding_names: Vec<Option<String>> },
    OtherDecl,
}

/// One top-level item of a module: exactly the distinctions the pass reads,
/// with plain values for everything it looks at.
#[derive(Debug)]
pub enum ModuleItem {
    /// An expression statement that is a bare string literal.
    StrLitStmt { value: String, span: Span },
    /// An expression statement that is a parenthesized string literal,
    /// such as `("use client");`.
    ParenStrLitStmt { value: String, span: Span },
    /// Any other expression statement.
    OtherExprStmt { span: Span },
    /// A statement that is not an expression statement.
    OtherStmt { span: Span },
    Import { import: ImportDecl },
    ExportNamed { specifiers: Vec<ExportSpecifierAst>, span: Span },
    ExportDecl { decl: ExportDeclKind, span: Span },
    ExportDefaultDecl { span: Span },
    ExportDefaultExpr { span: Span },
    /// `export * from "..."`.
    ExportAll { span: Span },
    /// Any other module-level declaration.
    OtherModuleDecl { span: Span },
    /// Synthetic: a binding that acquires the proxy factory from the reserved
    /// module specifier, `const { createProxy } = require(specifier)`.
    ProxyFactoryBinding { specifier: String, span: Span },
    /// Synthetic: `module.exports = createProxy(filepath)`.
    ProxyExportAssign { filepath: String, span: Span },
}

/// A module: an ordered sequence of top-level items.
#[derive(Debug)]
pub struct Module {
    pub span: Span,
    pub body: Vec<ModuleItem>,
}

/// Whether the item is a bare string-literal expression statement, the only
/// form that keeps the directive prologue open.
pub open spec fn is_string_literal_stmt(item: ModuleItem) -> bool {
    item is StrLitStmt
}

/// Whether the item is the `"use client"` directive statement, the form the
/// rewriter strips.
pub open spec fn is_use_client_stmt(item: ModuleItem) -> bool {
    match item {
        ModuleItem::StrLitStmt { value, span } => value@ == "use client"@,
        _ => false,
    }
}

/// Whether the item is the `"use server"` directive statement.
pub open spec fn is_use_server_stmt(item: ModuleItem) -> bool {
    match item {
        ModuleItem::StrLitStmt { value, span } => value@ == "use server"@,
        _ => false,
    }
}

/// The span of one item.
pub open spec fn item_span(item: ModuleItem) -> Span {
    match item {
        ModuleItem::StrLitStmt { value, span } => span,
        ModuleItem::ParenStrLitStmt { value, span } => span,
        ModuleItem::OtherExprStmt { span } => span,
        ModuleItem::OtherStmt { span } => span,
        ModuleItem::Import { import } => import.span,
        ModuleItem::ExportNamed { specifiers, span } => span,
        ModuleItem::ExportDecl { decl, span } => span,
        ModuleItem::ExportDefaultDecl { span } => span,
        ModuleItem::ExportDefaultExpr { span } => span,
        ModuleItem::ExportAll { span } => span,
        ModuleItem::OtherModuleDecl { span } => span,
        ModuleItem::ProxyFactoryBinding { specifier, span } => span,
        ModuleItem::ProxyExportAssign { filepath, span } => span,
    }
}

/// The reserved specifier a synthetic proxy binding acquires the factory
/// from; the empty sequence on any other item.
pub open spec fn proxy_binding_specifier(item: ModuleItem) -> Seq<char> {
    match item {
        ModuleItem::ProxyFactoryBinding { specifier, span } => specifier@,
        _ => Seq::empty(),
    }
}

/// The file path a synthetic proxy assignment hands to the factory; the
/// empty sequence on any other item.
pub open spec fn proxy_assign_filepath(item: ModuleItem) -> Seq<char> {
    match item {
        ModuleItem::ProxyExportAssign { filepath, span } => filepath@,
        _ => Seq::empty(),
    }
}

} // verus!
