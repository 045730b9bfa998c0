use vstd::prelude::*;

verus! {

/// Composite key identifying a body, a frame, or an ephemeris record.
///
/// Two identifiers denote the same object exactly when both the numeric
/// code and the name match; there is no case folding and no
/// numeric-code-only matching.
#[derive(Debug, Clone)]
pub struct Identifier {
    pub number: i32,
    pub name: String,
}

impl Identifier {
    /// The mathematical key of this identifier: the numeric code paired
    /// with the name's character sequence.  Keyed collections in this
    /// crate are indexed by this value.
    pub open spec fn key(self) -> (int, Seq<char>) {
        (self.number as int, self.name@)
    }

    /// An owned copy, equal to `self` in every field.
    pub fn dup(&self) -> (r: Identifier)
        ensures
            r == *self,
    {
        Identifier { number: self.number, name: self.name.clone() }
    }
}

impl PartialEq for Identifier {
    fn eq(&self, other: &Identifier) -> (r: bool) {
        self.number == other.number && self.name == other.name
    }
}

impl vstd::std_specs::cmp::PartialEqSpecImpl for Identifier {
    open spec fn obeys_eq_spec() -> bool {
        true
    }

    open spec fn eq_spec(&self, other: &Identifier) -> bool {
        self.key() == other.key()
    }
}

} // verus!
