//! Account identities.

use vstd::prelude::*;
use vstd::std_specs::cmp::PartialEqSpecImpl;

verus! {

/// The identity of an account.
///
/// Two identities are the same account exactly when their texts are equal,
/// character for character; upper and lower case differ.
#[derive(Debug)]
pub struct Addr(String);

impl View for Addr {
    type V = Seq<char>;

    closed spec fn view(&self) -> Seq<char> {
        self.0@
    }
}

impl Addr {
    /// Takes `input` as an identity without validating it.
    pub fn unchecked(input: &str) -> (addr: Addr)
        ensures
            addr@ == input@,
    {
        Addr(input.to_owned())
    }

    /// The identity's text.
    pub fn as_str(&self) -> (text: &str)
        ensures
            text@ == self@,
    {
        self.0.as_str()
    }

    /// The identity's text, owned.
    pub fn into_string(self) -> (text: String)
        ensures
            text@ == self@,
    {
        self.0
    }
}

impl Clone for Addr {
    fn clone(&self) -> (copy: Addr)
        ensures
            copy@ == self@,
    {
        Addr(self.0.clone())
    }
}

impl PartialEq for Addr {
    fn eq(&self, other: &Addr) -> (same: bool) {
        self.0 == other.0
    }
}

impl Eq for Addr {
}

impl PartialEqSpecImpl for Addr {
    open spec fn obeys_eq_spec() -> bool {
        true
    }

    open spec fn eq_spec(&self, other: &Addr) -> bool {
        self@ == other@
    }
}

} // verus!
