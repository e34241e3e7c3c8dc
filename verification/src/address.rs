use vstd::prelude::*;

verus! {

/// A human readable address that the host chain has accepted.
///
/// The text of a raw request is a `String`; it becomes an `Addr` only when the
/// host's validation returns one. The view of an address is its text, and two
/// addresses name the same account exactly when their texts are equal.
#[derive(Debug)]
pub struct Addr {
    text: String,
}

impl View for Addr {
    type V = Seq<char>;

    closed spec fn view(&self) -> Seq<char> {
        self.text@
    }
}

impl Addr {
    /// Takes `text` for an address without asking the host: for addresses
    /// that were validated before, such as those read back from storage.
    pub fn unchecked(text: String) -> (addr: Addr)
        ensures
            addr@ == text@,
    {
        Addr { text }
    }

    /// The text of the address.
    pub fn as_str(&self) -> (text: &str)
        ensures
            text@ == self@,
    {
        self.text.as_str()
    }

    /// Gives up the address for its text.
    pub fn into_string(self) -> (text: String)
        ensures
            text@ == self@,
    {
        self.text
    }
}

impl Clone for Addr {
    fn clone(&self) -> (copy: Addr)
        ensures
            copy == *self,
    {
        Addr { text: self.text.clone() }
    }
}

impl PartialEq for Addr {
    fn eq(&self, other: &Addr) -> (equal: bool) {
        self.text == other.text
    }
}

impl Eq for Addr {}

impl vstd::std_specs::cmp::PartialEqSpecImpl for Addr {
    open spec fn obeys_eq_spec() -> bool {
        true
    }

    open spec fn eq_spec(&self, other: &Addr) -> bool {
        self@ == other@
    }
}

} // verus!
