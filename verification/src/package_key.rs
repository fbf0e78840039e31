//! The identity of a package.

use vstd::prelude::*;
use vstd::std_specs::cmp::PartialEqSpecImpl;

verus! {

/// Stable identity of a package inside a repository.
///
/// A key is the single string it prints as: two keys are the same key exactly
/// when they print the same.
#[derive(Debug, Eq, Hash)]
pub struct PackageKey {
    text: String,
}

impl View for PackageKey {
    type V = Seq<char>;

    closed spec fn view(&self) -> Seq<char> {
        self.text@
    }
}

impl PackageKey {
    /// The key that prints as `text`.
    pub fn new(text: String) -> (key: PackageKey)
        ensures
            key@ == text@,
    {
        PackageKey { text }
    }

    /// The key as text.
    pub fn as_str(&self) -> (text: &str)
        ensures
            text@ == self@,
    {
        self.text.as_str()
    }

    /// The key printed as a single string.
    pub fn to_string(&self) -> (text: String)
        ensures
            text@ == self@,
    {
        self.text.clone()
    }
}

impl Clone for PackageKey {
    fn clone(&self) -> (copy: PackageKey)
        ensures
            copy == *self,
    {
        PackageKey { text: self.text.clone() }
    }
}

impl PartialEq for PackageKey {
    fn eq(&self, other: &PackageKey) -> (same: bool) {
        self.text == other.text
    }
}

impl PartialEqSpecImpl for PackageKey {
    open spec fn obeys_eq_spec() -> bool {
        true
    }

    open spec fn eq_spec(&self, other: &PackageKey) -> bool {
        self@ == other@
    }
}

} // verus!
