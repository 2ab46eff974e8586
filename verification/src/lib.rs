//! A compilation pass that classifies modules as client or server components
//! for a framework with a client/server execution split, validates that
//! server-side modules do not import client-only APIs, and rewrites a
//! client-marked module compiled for the server layer into a proxy module.

use vstd::prelude::*;

pub mod ast;
pub mod diagnostics;
pub mod laws;
pub mod scanner;
pub mod transform;
pub mod rewriter;
pub mod validator;

verus! {

/// Build configuration for one run of the pass.
#[derive(Clone, Debug)]
pub struct TransformConfig {
    /// Whether this invocation compiles for the server layer.
    pub is_react_server_layer: bool,
}

impl Default for TransformConfig {
    fn default() -> (r: Self)
        ensures
            r.is_react_server_layer == false,
    {
        TransformConfig { is_react_server_layer: false }
    }
}

/// A visitor with no behaviour of its own; the directive handling lives in
/// the pass returned by `server_components`.
pub struct TransformVisitor;

} // verus!
