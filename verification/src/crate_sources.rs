//! The proxy that offers research on the sources of Rust crates: what a
//! query names, and the tool under which the agent finds it.

use crate::text::opt_text;
use vstd::prelude::*;

verus! {

/// The name of the MCP server that the proxy registers.
pub const SERVER_NAME: &'static str = "rust-crate-query";

/// The name of the tool.
pub const TOOL_NAME: &'static str = "rust_crate_query";

/// The proxy that forwards every message to its successor and adds the
/// server for crate research to each new session.
#[derive(Debug)]
pub struct CrateSourcesProxy;

/// The parameters of a query.
#[derive(Debug)]
pub struct RustCrateQueryParams {
    /// The name of the crate to research.
    pub crate_name: String,
    /// A semver range; the latest version where it is absent.
    pub crate_version: Option<String>,
    /// What is asked about the crate.
    pub prompt: String,
}

/// A query on its way to a research session.
#[derive(Debug)]
pub struct ResearchRequest {
    pub crate_name: String,
    pub crate_version: Option<String>,
    pub prompt: String,
}

impl RustCrateQueryParams {
    /// The research that the parameters ask for.
    pub fn into_request(self) -> (r: ResearchRequest)
        ensures
            r.crate_name@ == self.crate_name@,
            opt_text(r.crate_version) == opt_text(self.crate_version),
            r.prompt@ == self.prompt@,
    {
        ResearchRequest {
            crate_name: self.crate_name,
            crate_version: self.crate_version,
            prompt: self.prompt,
        }
    }
}

} // verus!
