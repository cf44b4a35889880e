//! Identities of the parties that talk to the contract.

use vstd::prelude::*;

verus! {

/// An identity in the form in which the host hands it out. Its view is the
/// text of the identity, and two identities are equal when their texts are.
#[derive(Debug)]
pub struct Addr {
    text: String,
}

impl View for Addr {
    type V = Seq<char>;

    closed spec fn view(&self) -> Seq<char> {
        self.text@
    }
}

impl Addr {
    /// Takes `text` as an identity without asking the host about it.
    pub fn unchecked(text: String) -> (addr: Addr)
        ensures
            addr@ == text@,
    {
        Addr { text }
    }

    /// The text of the identity.
    pub fn as_str(&self) -> (text: &str)
        ensures
            text@ == self@,
    {
        self.text.as_str()
    }

    /// The text of the identity, as an owned string.
    pub fn into_string(self) -> (text: String)
        ensures
            text@ == self@,
    {
        self.text
    }

    /// Whether `text` spells this identity.
    pub fn is_text(&self, text: &String) -> (same: bool)
        ensures
            same == (self@ == text@),
    {
        self.text == *text
    }
}

impl Clone for Addr {
    fn clone(&self) -> (copy: Addr)
        ensures
            copy@ == self@,
    {
        Addr { text: self.text.clone() }
    }
}

impl PartialEq for Addr {
    fn eq(&self, other: &Addr) -> (same: bool) {
        self.text == other.text
    }
}

impl Eq for Addr {

}

impl vstd::std_specs::cmp::PartialEqSpecImpl for Addr {
    open spec fn obeys_eq_spec() -> bool {
        true
    }

    open spec fn eq_spec(&self, other: &Addr) -> bool {
        self@ == other@
    }
}

} // verus!
