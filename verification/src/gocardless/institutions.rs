//! Listing the institutions that can be linked.

use crate::gocardless::config::ConfigArg;
use vstd::prelude::*;
use vstd::string::StringExecFns;

verus! {

/// The command that lists the institutions of the country served.
#[derive(Debug, Clone)]
pub struct Cmd {
    pub config: ConfigArg,
}

/// Where the institutions are fetched.
pub open spec fn institutions_path_text() -> Seq<char> {
    "/api/v2/institutions/?country=gb"@
}

impl Cmd {
    /// Where the institutions are fetched.
    pub fn path(&self) -> (r: String)
        ensures
            r@ == institutions_path_text(),
    {
        String::from_str("/api/v2/institutions/?country=gb")
    }
}

} // verus!
