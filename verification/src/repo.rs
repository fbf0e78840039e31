//! What can go wrong while a package's payload is looked up.

use vstd::prelude::*;
use vstd::string::StringExecFns;

use crate::text::{debug_quoted, quote};

verus! {

/// Why no payload could be chosen for a package.
#[derive(Debug, Clone)]
pub enum PayloadError {
    /// The package does not exist.
    NoPackage,
    /// The package has no concrete variant.
    NoConcretePackage,
    /// The package has no payload for this platform.
    NoPayloadFound,
    /// A payload exists, but its criteria are not met; the text says which.
    CriteriaUnmet(String),
}

impl PayloadError {
    /// The failure as it is printed for inspection: the name of the variant,
    /// and behind it, in brackets, the quoted text if it has one.
    pub open spec fn debug_text(self) -> Seq<char> {
        match self {
            PayloadError::NoPackage => "NoPackage"@,
            PayloadError::NoConcretePackage => "NoConcretePackage"@,
            PayloadError::NoPayloadFound => "NoPayloadFound"@,
            PayloadError::CriteriaUnmet(what) => "CriteriaUnmet("@ + debug_quoted(what@) + ")"@,
        }
    }

    /// The failure as it is printed for inspection.
    pub fn debug_string(&self) -> (text: String)
        ensures
            text@ == self.debug_text(),
    {
        match self {
            PayloadError::NoPackage => "NoPackage".to_owned(),
            PayloadError::NoConcretePackage => "NoConcretePackage".to_owned(),
            PayloadError::NoPayloadFound => "NoPayloadFound".to_owned(),
            PayloadError::CriteriaUnmet(what) => {
                let quoted = quote(what.as_str());
                "CriteriaUnmet(".to_owned().concat(quoted.as_str()).concat(")")
            },
        }
    }
}

} // verus!
