use vstd::prelude::*;
use crate::ast::{proxy_assign_filepath, proxy_binding_specifier, Module, ModuleItem};
use crate::diagnostics::{view_diags, Diagnostic, SpecDiag};
use crate::rewriter::{
    client_entry_comment, client_entry_comment_text, remove_top_level_directive, strip_spec,
    to_module_ref,
};
use crate::scanner::{
    collect_top_level_directives_and_imports, scan_items, view_imports, view_names,
    ClassificationResult,
};
use crate::validator::{validate_spec, ReactServerComponentValidator};

verus! {

/// The pass over one module: configuration plus the file path of the module
/// under compilation.
pub struct ReactServerComponents {
    pub is_react_server_layer: bool,
    pub filepath: String,
}

/// What one run of the pass hands back to the host, besides the mutated
/// module: the classification record, the emitted diagnostics, the metadata
/// comment to inject before the module's first token (for client entries),
/// and whether the host should recurse into the remaining children.
pub struct TransformOutput {
    pub classification: ClassificationResult,
    pub diagnostics: Vec<Diagnostic>,
    pub leading_comment: Option<String>,
    pub recurse_children: bool,
}

/// Every diagnostic one run of the pass emits: the scanner's directive
/// diagnostics first, then the boundary validator's.
pub open spec fn pass_diags(
    is_server_layer: bool,
    filepath: Seq<char>,
    items: Seq<ModuleItem>,
) -> Seq<SpecDiag> {
    scan_items(items).diags + validate_spec(
        is_server_layer,
        filepath,
        scan_items(items).is_client_entry,
        scan_items(items).imports,
    )
}

impl ReactServerComponents {
    /// Runs the pass on one module: scan, validate (read-only), then rewrite.
    /// `is_cjs` is the CommonJS oracle's verdict on the module, supplied by
    /// the host. On the server layer a client entry's body becomes exactly
    /// the two-statement proxy stub and the host must not recurse; otherwise
    /// the body only loses its `"use client"` statements.
    pub fn visit_mut_module(&self, module: &mut Module, is_cjs: bool) -> (out: TransformOutput)
        ensures
            out.classification.is_client_entry == scan_items(old(module).body@).is_client_entry,
            out.classification.is_server_action_file == scan_items(
                old(module).body@,
            ).is_action_file,
            view_imports(out.classification.imports@) == scan_items(old(module).body@).imports,
            view_names(out.classification.export_names@) == scan_items(
                old(module).body@,
            ).export_names,
            view_diags(out.diagnostics@) == pass_diags(
                self.is_react_server_layer,
                self.filepath@,
                old(module).body@,
            ),
            final(module).span == old(module).span,
            (self.is_react_server_layer && scan_items(old(module).body@).is_client_entry) ==> ({
                &&& final(module).body@.len() == 2
                &&& final(module).body@[0] is ProxyFactoryBinding
                &&& proxy_binding_specifier(final(module).body@[0])
                    == "private-next-rsc-mod-ref-proxy"@
                &&& final(module).body@[1] is ProxyExportAssign
                &&& proxy_assign_filepath(final(module).body@[1]) == self.filepath@
                &&& out.recurse_children == false
            }),
            !(self.is_react_server_layer && scan_items(old(module).body@).is_client_entry) ==> ({
                &&& final(module).body@ == strip_spec(old(module).body@)
                &&& out.recurse_children == true
            }),
            scan_items(old(module).body@).is_client_entry ==> ({
                &&& out.leading_comment is Some
                &&& out.leading_comment.unwrap()@ == client_entry_comment(
                    scan_items(old(module).body@).export_names,
                    is_cjs,
                )
            }),
            !scan_items(old(module).body@).is_client_entry ==> out.leading_comment is None,
    {
        // Run the validator first to assert, and collect directives and
        // imports.
        let validator = ReactServerComponentValidator::new(
            self.is_react_server_layer,
            self.filepath.clone(),
        );
        let (classification, mut diagnostics) = collect_top_level_directives_and_imports(module);
        let mut vdiags = validator.validate(&classification);
        let ghost scan_view = view_diags(diagnostics@);
        let ghost validate_view = view_diags(vdiags@);
        diagnostics.append(&mut vdiags);
        proof {
            assert(view_diags(diagnostics@) =~= scan_view + validate_view);
        }

        remove_top_level_directive(module);

        if self.is_react_server_layer && classification.is_client_entry {
            let comment = to_module_ref(
                module,
                &self.filepath,
                &classification.export_names,
                is_cjs,
            );
            TransformOutput {
                classification,
                diagnostics,
                leading_comment: Some(comment),
                recurse_children: false,
            }
        } else if classification.is_client_entry {
            let comment = client_entry_comment_text(&classification.export_names, is_cjs);
            TransformOutput {
                classification,
                diagnostics,
                leading_comment: Some(comment),
                recurse_children: true,
            }
        } else {
            TransformOutput {
                classification,
                diagnostics,
                leading_comment: None,
                recurse_children: true,
            }
        }
    }
}

/// Builds the pass for one module's compilation.
pub fn server_components(filepath: String, is_react_server_layer: bool) -> (v:
    ReactServerComponents)
    ensures
        v.is_react_server_layer == is_react_server_layer,
        v.filepath@ == filepath@,
{
    ReactServerComponents { is_react_server_layer, filepath }
}

} // verus!
