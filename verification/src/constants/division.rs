//! Divisions within a ranked tier.
use vstd::prelude::*;
use vstd::std_specs::cmp::PartialEqSpecImpl;
use crate::utils::same_text;

verus! {

/// The four divisions, best first.
#[derive(Debug, Clone, Copy, PartialEq, Eq, Hash, Structural)]
pub enum DivisionRank {
    /// Division I
    I,
    /// Division II
    II,
    /// Division III
    III,
    /// Division IV
    IV,
}

/// A division within a ranked tier.
#[derive(Debug, Clone, Copy, PartialEq, Eq, Hash, Structural)]
pub struct Division {
    pub rank: DivisionRank,
}

#[allow(non_snake_case)]
impl Division {
    /// Division I
    pub fn I() -> (r: Division)
        ensures
            r == (Division { rank: DivisionRank::I }),
    {
        Division { rank: DivisionRank::I }
    }

    /// Division II
    pub fn II() -> (r: Division)
        ensures
            r == (Division { rank: DivisionRank::II }),
    {
        Division { rank: DivisionRank::II }
    }

    /// Division III
    pub fn III() -> (r: Division)
        ensures
            r == (Division { rank: DivisionRank::III }),
    {
        Division { rank: DivisionRank::III }
    }

    /// Division IV
    pub fn IV() -> (r: Division)
        ensures
            r == (Division { rank: DivisionRank::IV }),
    {
        Division { rank: DivisionRank::IV }
    }

    /// The roman numeral of the division, as it stands in a request path.
    pub open spec fn name(self) -> Seq<char> {
        match self.rank {
            DivisionRank::I => "I"@,
            DivisionRank::II => "II"@,
            DivisionRank::III => "III"@,
            DivisionRank::IV => "IV"@,
        }
    }

    /// The roman numeral of the division.
    #[inline]
    pub fn as_str(&self) -> (s: &'static str)
        ensures
            s@ == self.name(),
    {
        match self.rank {
            DivisionRank::I => "I",
            DivisionRank::II => "II",
            DivisionRank::III => "III",
            DivisionRank::IV => "IV",
        }
    }
}

impl PartialEq<str> for Division {
    #[inline]
    fn eq(&self, other: &str) -> (r: bool) {
        same_text(self.as_str(), other)
    }
}

impl PartialEqSpecImpl<str> for Division {
    open spec fn obeys_eq_spec() -> bool {
        true
    }

    open spec fn eq_spec(&self, other: &str) -> bool {
        self.name() == other@
    }
}

impl<'a> PartialEq<&'a str> for Division {
    #[inline]
    fn eq(&self, other: &&'a str) -> (r: bool) {
        same_text(self.as_str(), *other)
    }
}

impl<'a> PartialEqSpecImpl<&'a str> for Division {
    open spec fn obeys_eq_spec() -> bool {
        true
    }

    open spec fn eq_spec(&self, other: &&'a str) -> bool {
        self.name() == other@
    }
}

impl PartialEq<Division> for str {
    #[inline]
    fn eq(&self, other: &Division) -> (r: bool) {
        same_text(self, other.as_str())
    }
}

impl PartialEqSpecImpl<Division> for str {
    open spec fn obeys_eq_spec() -> bool {
        true
    }

    open spec fn eq_spec(&self, other: &Division) -> bool {
        self@ == other.name()
    }
}

} // verus!
