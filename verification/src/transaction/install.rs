//! Failure of an install, as the store reports it.

use vstd::prelude::*;
use vstd::string::StringExecFns;

use crate::text::{debug_quoted, quote};

verus! {

/// Why the store could not install a package. The transaction core hands it
/// on unread.
#[derive(Debug, Clone)]
pub struct InstallError {
    pub reason: String,
}

impl InstallError {
    /// The failure as it is printed for inspection: the name of the type,
    /// and between braces its reason, quoted.
    pub open spec fn debug_text(self) -> Seq<char> {
        "InstallError { reason: "@ + debug_quoted(self.reason@) + " }"@
    }

    /// The failure as it is printed for inspection.
    pub fn debug_string(&self) -> (text: String)
        ensures
            text@ == self.debug_text(),
    {
        let quoted = quote(self.reason.as_str());
        "InstallError { reason: ".to_owned().concat(quoted.as_str()).concat(" }")
    }
}

} // verus!
