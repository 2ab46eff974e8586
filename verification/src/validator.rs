use vstd::prelude::*;
use crate::ast::Span;
use crate::diagnostics::{
    forbidden_server_api_diag, forbidden_server_import_diag, spec_forbidden_api_diag,
    spec_forbidden_import_diag, string_eq, string_eq_lit, view_diags, Diagnostic, SpecDiag,
};
use crate::scanner::{
    import_view, view_imports, view_names, ClassificationResult, ModuleImports, SpecImport,
};

verus! {

/// The deny-list of client-only entry points: importing one of these on the
/// server layer is flagged.
pub open spec fn spec_invalid_server_imports() -> Seq<Seq<char>> {
    seq!["react-dom/client"@, "react-dom/server"@]
}

pub open spec fn spec_react_apis() -> Seq<Seq<char>> {
    seq![
        "Component"@,
        "createContext"@,
        "createFactory"@,
        "PureComponent"@,
        "useDeferredValue"@,
        "useEffect"@,
        "useImperativeHandle"@,
        "useInsertionEffect"@,
        "useLayoutEffect"@,
        "useReducer"@,
        "useRef"@,
        "useState"@,
        "useSyncExternalStore"@,
        "useTransition"@,
        "useOptimistic"@,
        "useActionState"@,
        "experimental_useOptimistic"@,
    ]
}

pub open spec fn spec_react_dom_apis() -> Seq<Seq<char>> {
    seq!["flushSync"@, "unstable_batchedUpdates"@, "useFormStatus"@, "useFormState"@]
}

/// The table mapping a package name to the exported symbols of it that a
/// server-layer module may not import.
pub open spec fn spec_invalid_apis(package: Seq<char>) -> Option<Seq<Seq<char>>> {
    if package == "react"@ {
        Some(spec_react_apis())
    } else if package == "react-dom"@ {
        Some(spec_react_dom_apis())
    } else {
        None
    }
}

pub open spec fn is_invalid_server_import(source: Seq<char>) -> bool {
    spec_invalid_server_imports().contains(source)
}

pub open spec fn is_invalid_api(package: Seq<char>, name: Seq<char>) -> bool {
    match spec_invalid_apis(package) {
        Some(list) => list.contains(name),
        None => false,
    }
}

/// Whether the path matches the vendored/third-party convention: it contains
/// "node_modules" followed by a slash or a backslash.
pub open spec fn spec_is_from_node_modules(path: Seq<char>) -> bool {
    exists|i: int|
        0 <= i && i + 13 <= path.len() && (#[trigger] path.subrange(i, i + 13)
            == "node_modules/"@ || path.subrange(i, i + 13) == "node_modules\\"@)
}

/// Relies on `regex::Regex::is_match` with the fixed pattern
/// `node_modules[\\/]`: the match succeeds exactly when the haystack contains
/// "node_modules" followed by a slash or a backslash.
#[verifier::external_body]
fn path_is_from_node_modules(filepath: &str) -> (r: bool)
    ensures
        r == spec_is_from_node_modules(filepath@),
{
    match regex::Regex::new(r"node_modules[\\/]") {
        Ok(re) => re.is_match(filepath),
        Err(_) => false,
    }
}

/// The diagnostics the forbidden-API rule emits for one import's specifier
/// list, in source order.
pub open spec fn api_diags(package: Seq<char>, specifiers: Seq<(Seq<char>, Span)>) -> Seq<SpecDiag>
    decreases specifiers.len(),
{
    if specifiers.len() == 0 {
        Seq::empty()
    } else {
        api_diags(package, specifiers.drop_last()) + (if is_invalid_api(
            package,
            specifiers.last().0,
        ) {
            seq![spec_forbidden_api_diag(specifiers.last().0, specifiers.last().1)]
        } else {
            Seq::<SpecDiag>::empty()
        })
    }
}

/// The diagnostics one import yields: the forbidden-source rule first, then
/// the forbidden-API rule over its specifiers.
pub open spec fn import_diags(imp: SpecImport) -> Seq<SpecDiag> {
    (if is_invalid_server_import(imp.source) {
        seq![spec_forbidden_import_diag(imp.source, imp.span)]
    } else {
        Seq::<SpecDiag>::empty()
    }) + api_diags(imp.source, imp.specifiers)
}

pub open spec fn server_graph_diags(imports: Seq<SpecImport>) -> Seq<SpecDiag>
    decreases imports.len(),
{
    if imports.len() == 0 {
        Seq::empty()
    } else {
        server_graph_diags(imports.drop_last()) + import_diags(imports.last())
    }
}

/// Everything the boundary validator emits for one module: nothing at all
/// off the server layer, for a client entry, or for a vendored path;
/// otherwise the deny-list diagnostics of every import, in order.
pub open spec fn validate_spec(
    is_server_layer: bool,
    filepath: Seq<char>,
    is_client_entry: bool,
    imports: Seq<SpecImport>,
) -> Seq<SpecDiag> {
    if !is_server_layer || is_client_entry || spec_is_from_node_modules(filepath) {
        Seq::empty()
    } else {
        server_graph_diags(imports)
    }
}

/// Without an entry in the API table, the forbidden-API rule is silent.
proof fn lemma_api_diags_empty(package: Seq<char>, specifiers: Seq<(Seq<char>, Span)>)
    requires
        spec_invalid_apis(package) is None,
    ensures
        api_diags(package, specifiers) == Seq::<SpecDiag>::empty(),
    decreases specifiers.len(),
{
    if specifiers.len() == 0 {
    } else {
        lemma_api_diags_empty(package, specifiers.drop_last());
        assert(api_diags(package, specifiers) =~= Seq::<SpecDiag>::empty());
    }
}

/// Linear search for a name in a list of names.
fn contains_name(v: &Vec<String>, name: &String) -> (r: bool)
    ensures
        r == view_names(v@).contains(name@),
{
    let n = v.len();
    for i in 0..n
        invariant
            n == v@.len(),
            forall|k: int| 0 <= k < i ==> view_names(v@)[k] != name@,
    {
        if string_eq(&v[i], name) {
            proof {
                assert(view_names(v@)[i as int] == name@);
            }
            return true;
        }
    }
    proof {
        assert(!view_names(v@).contains(name@));
    }
    false
}

/// Asserts that a module on the server layer does not reach into client-only
/// APIs. The deny-list tables are process-wide constants in substance; they
/// are built once per validator here.
pub struct ReactServerComponentValidator {
    pub is_react_server_layer: bool,
    pub filepath: String,
    pub invalid_server_imports: Vec<String>,
    pub invalid_server_lib_apis_mapping: Vec<(String, Vec<String>)>,
}

impl ReactServerComponentValidator {
    /// The tables hold exactly the deny-lists the rules speak of.
    pub open spec fn wf(self) -> bool {
        &&& view_names(self.invalid_server_imports@) == spec_invalid_server_imports()
        &&& self.invalid_server_lib_apis_mapping@.len() == 2
        &&& self.invalid_server_lib_apis_mapping@[0].0@ == "react"@
        &&& view_names(self.invalid_server_lib_apis_mapping@[0].1@) == spec_react_apis()
        &&& self.invalid_server_lib_apis_mapping@[1].0@ == "react-dom"@
        &&& view_names(self.invalid_server_lib_apis_mapping@[1].1@) == spec_react_dom_apis()
    }

    pub fn new(is_react_server_layer: bool, filepath: String) -> (v: Self)
        ensures
            v.wf(),
            v.is_react_server_layer == is_react_server_layer,
            v.filepath@ == filepath@,
    {
        let mut react_apis: Vec<String> = Vec::new();
        react_apis.push("Component".to_owned());
        react_apis.push("createContext".to_owned());
        react_apis.push("createFactory".to_owned());
        react_apis.push("PureComponent".to_owned());
        react_apis.push("useDeferredValue".to_owned());
        react_apis.push("useEffect".to_owned());
        react_apis.push("useImperativeHandle".to_owned());
        react_apis.push("useInsertionEffect".to_owned());
        react_apis.push("useLayoutEffect".to_owned());
        react_apis.push("useReducer".to_owned());
        react_apis.push("useRef".to_owned());
        react_apis.push("useState".to_owned());
        react_apis.push("useSyncExternalStore".to_owned());
        react_apis.push("useTransition".to_owned());
        react_apis.push("useOptimistic".to_owned());
        react_apis.push("useActionState".to_owned());
        react_apis.push("experimental_useOptimistic".to_owned());
        proof {
            assert(view_names(react_apis@) =~= spec_react_apis());
        }

        let mut react_dom_apis: Vec<String> = Vec::new();
        react_dom_apis.push("flushSync".to_owned());
        react_dom_apis.push("unstable_batchedUpdates".to_owned());
        react_dom_apis.push("useFormStatus".to_owned());
        react_dom_apis.push("useFormState".to_owned());
        proof {
            assert(view_names(react_dom_apis@) =~= spec_react_dom_apis());
        }

        let mut mapping: Vec<(String, Vec<String>)> = Vec::new();
        mapping.push(("react".to_owned(), react_apis));
        mapping.push(("react-dom".to_owned(), react_dom_apis));

        let mut invalid_server_imports: Vec<String> = Vec::new();
        invalid_server_imports.push("react-dom/client".to_owned());
        invalid_server_imports.push("react-dom/server".to_owned());
        proof {
            assert(view_names(invalid_server_imports@) =~= spec_invalid_server_imports());
        }

        ReactServerComponentValidator {
            is_react_server_layer,
            filepath,
            invalid_server_imports,
            invalid_server_lib_apis_mapping: mapping,
        }
    }

    /// Whether the module under compilation lies under a vendored path.
    pub fn is_from_node_modules(&self, filepath: &str) -> (r: bool)
        ensures
            r == spec_is_from_node_modules(filepath@),
    {
        path_is_from_node_modules(filepath)
    }

    /// The forbidden-API rule for one import.
    pub fn assert_invalid_server_lib_apis(
        &self,
        import_source: &String,
        import: &ModuleImports,
    ) -> (diags: Vec<Diagnostic>)
        requires
            self.wf(),
        ensures
            view_diags(diags@) == api_diags(import_source@, import_view(*import).specifiers),
    {
        let mut diags: Vec<Diagnostic> = Vec::new();
        let mut api_list: Option<&Vec<String>> = None;
        if string_eq_lit(import_source, "react") {
            api_list = Some(&self.invalid_server_lib_apis_mapping[0].1);
        } else if string_eq_lit(import_source, "react-dom") {
            api_list = Some(&self.invalid_server_lib_apis_mapping[1].1);
        }
        match api_list {
            None => {
                proof {
                    lemma_api_diags_empty(import_source@, import_view(*import).specifiers);
                }
            },
            Some(list) => {
                let ghost sspecs = import_view(*import).specifiers;
                let n = import.specifiers.len();
                for i in 0..n
                    invariant
                        n == import.specifiers@.len(),
                        sspecs == import_view(*import).specifiers,
                        sspecs.len() == n,
                        spec_invalid_apis(import_source@) is Some,
                        view_names(list@) == spec_invalid_apis(import_source@).unwrap(),
                        view_diags(diags@) == api_diags(import_source@, sspecs.take(i as int)),
                {
                    let name = &import.specifiers[i].0;
                    let span = import.specifiers[i].1;
                    proof {
                        assert(sspecs[i as int] == (name@, span));
                    }
                    if contains_name(list, name) {
                        diags.push(forbidden_server_api_diag(name, span));
                    }
                    proof {
                        assert(sspecs.take(i as int + 1).drop_last() =~= sspecs.take(i as int));
                        assert(sspecs.take(i as int + 1).last() == sspecs[i as int]);
                        assert(view_diags(diags@) =~= api_diags(
                            import_source@,
                            sspecs.take(i as int + 1),
                        ));
                    }
                }
                proof {
                    assert(sspecs.take(sspecs.len() as int) =~= sspecs);
                }
            },
        }
        diags
    }

    /// The forbidden-source and forbidden-API rules over every import, unless
    /// the module lies under a vendored path.
    pub fn assert_server_graph(&self, imports: &Vec<ModuleImports>) -> (diags: Vec<Diagnostic>)
        requires
            self.wf(),
        ensures
            view_diags(diags@) == (if spec_is_from_node_modules(self.filepath@) {
                Seq::<SpecDiag>::empty()
            } else {
                server_graph_diags(view_imports(imports@))
            }),
    {
        if self.is_from_node_modules(self.filepath.as_str()) {
            let diags: Vec<Diagnostic> = Vec::new();
            proof {
                assert(view_diags(diags@) =~= Seq::<SpecDiag>::empty());
            }
            return diags;
        }
        let mut diags: Vec<Diagnostic> = Vec::new();
        let ghost simports = view_imports(imports@);
        let n = imports.len();
        for i in 0..n
            invariant
                n == imports@.len(),
                simports == view_imports(imports@),
                simports.len() == n,
                self.wf(),
                view_diags(diags@) == server_graph_diags(simports.take(i as int)),
        {
            let import = &imports[i];
            proof {
                assert(simports[i as int] == import_view(*import));
            }
            if contains_name(&self.invalid_server_imports, &import.source.0) {
                diags.push(forbidden_server_import_diag(&import.source.0, import.source.1));
            }
            let mut api = self.assert_invalid_server_lib_apis(&import.source.0, import);
            let ghost api_view = api@;
            diags.append(&mut api);
            proof {
                assert(simports.take(i as int + 1).drop_last() =~= simports.take(i as int));
                assert(simports.take(i as int + 1).last() == simports[i as int]);
                assert(view_diags(diags@) =~= server_graph_diags(simports.take(i as int + 1)));
            }
        }
        proof {
            assert(simports.take(simports.len() as int) =~= simports);
        }
        diags
    }

    /// The boundary validator's whole contract: a no-op off the server layer,
    /// for a client entry, and for a vendored path; otherwise the deny-list
    /// diagnostics of every recorded import, in source order.
    pub fn validate(&self, classification: &ClassificationResult) -> (diags: Vec<Diagnostic>)
        requires
            self.wf(),
        ensures
            view_diags(diags@) == validate_spec(
                self.is_react_server_layer,
                self.filepath@,
                classification.is_client_entry,
                view_imports(classification.imports@),
            ),
    {
        if !self.is_react_server_layer || classification.is_client_entry {
            let diags: Vec<Diagnostic> = Vec::new();
            proof {
                assert(view_diags(diags@) =~= Seq::<SpecDiag>::empty());
            }
            diags
        } else {
            self.assert_server_graph(&classification.imports)
        }
    }
}

} // verus!
