//! Ranked tiers.
use vstd::prelude::*;
use vstd::std_specs::cmp::PartialEqSpecImpl;
use crate::utils::same_text;

verus! {

/// The ranked tiers, lowest first.
#[derive(Debug, Clone, Copy, PartialEq, Eq, Hash, Structural)]
pub enum TierKind {
    /// Iron
    Iron,
    /// Bronze
    Bronze,
    /// Silver
    Silver,
    /// Gold
    Gold,
    /// Platinum
    Platinum,
    /// Diamond
    Diamond,
    /// Master
    Master,
    /// Grandmaster
    Grandmaster,
    /// Challenger
    Challenger,
}

/// A ranked tier.
#[derive(Debug, Clone, Copy, PartialEq, Eq, Hash, Structural)]
pub struct RankedTier {
    pub kind: TierKind,
}

#[allow(non_snake_case)]
impl RankedTier {
    /// Iron
    pub fn IRON() -> (r: RankedTier)
        ensures
            r == (RankedTier { kind: TierKind::Iron }),
    {
        RankedTier { kind: TierKind::Iron }
    }

    /// Bronze
    pub fn BRONZE() -> (r: RankedTier)
        ensures
            r == (RankedTier { kind: TierKind::Bronze }),
    {
        RankedTier { kind: TierKind::Bronze }
    }

    /// Silver
    pub fn SILVER() -> (r: RankedTier)
        ensures
            r == (RankedTier { kind: TierKind::Silver }),
    {
        RankedTier { kind: TierKind::Silver }
    }

    /// Gold
    pub fn GOLD() -> (r: RankedTier)
        ensures
            r == (RankedTier { kind: TierKind::Gold }),
    {
        RankedTier { kind: TierKind::Gold }
    }

    /// Platinum
    pub fn PLATINUM() -> (r: RankedTier)
        ensures
            r == (RankedTier { kind: TierKind::Platinum }),
    {
        RankedTier { kind: TierKind::Platinum }
    }

    /// Diamond
    pub fn DIAMOND() -> (r: RankedTier)
        ensures
            r == (RankedTier { kind: TierKind::Diamond }),
    {
        RankedTier { kind: TierKind::Diamond }
    }

    /// Master
    pub fn MASTER() -> (r: RankedTier)
        ensures
            r == (RankedTier { kind: TierKind::Master }),
    {
        RankedTier { kind: TierKind::Master }
    }

    /// Grandmaster
    pub fn GRANDMASTER() -> (r: RankedTier)
        ensures
            r == (RankedTier { kind: TierKind::Grandmaster }),
    {
        RankedTier { kind: TierKind::Grandmaster }
    }

    /// Challenger
    pub fn CHALLENGER() -> (r: RankedTier)
        ensures
            r == (RankedTier { kind: TierKind::Challenger }),
    {
        RankedTier { kind: TierKind::Challenger }
    }

    /// The tier's name, as it stands in a request path.
    pub open spec fn name(self) -> Seq<char> {
        match self.kind {
            TierKind::Iron => "IRON"@,
            TierKind::Bronze => "BRONZE"@,
            TierKind::Silver => "SILVER"@,
            TierKind::Gold => "GOLD"@,
            TierKind::Platinum => "PLATINUM"@,
            TierKind::Diamond => "DIAMOND"@,
            TierKind::Master => "MASTER"@,
            TierKind::Grandmaster => "GRANDMASTER"@,
            TierKind::Challenger => "CHALLENGER"@,
        }
    }

    /// The tier's name.
    #[inline]
    pub fn as_str(&self) -> (s: &'static str)
        ensures
            s@ == self.name(),
    {
        match self.kind {
            TierKind::Iron => "IRON",
            TierKind::Bronze => "BRONZE",
            TierKind::Silver => "SILVER",
            TierKind::Gold => "GOLD",
            TierKind::Platinum => "PLATINUM",
            TierKind::Diamond => "DIAMOND",
            TierKind::Master => "MASTER",
            TierKind::Grandmaster => "GRANDMASTER",
            TierKind::Challenger => "CHALLENGER",
        }
    }
}

impl PartialEq<str> for RankedTier {
    #[inline]
    fn eq(&self, other: &str) -> (r: bool) {
        same_text(self.as_str(), other)
    }
}

impl PartialEqSpecImpl<str> for RankedTier {
    open spec fn obeys_eq_spec() -> bool {
        true
    }

    open spec fn eq_spec(&self, other: &str) -> bool {
        self.name() == other@
    }
}

impl<'a> PartialEq<&'a str> for RankedTier {
    #[inline]
    fn eq(&self, other: &&'a str) -> (r: bool) {
        same_text(self.as_str(), *other)
    }
}

impl<'a> PartialEqSpecImpl<&'a str> for RankedTier {
    open spec fn obeys_eq_spec() -> bool {
        true
    }

    open spec fn eq_spec(&self, other: &&'a str) -> bool {
        self.name() == other@
    }
}

impl PartialEq<RankedTier> for str {
    #[inline]
    fn eq(&self, other: &RankedTier) -> (r: bool) {
        same_text(self, other.as_str())
    }
}

impl PartialEqSpecImpl<RankedTier> for str {
    open spec fn obeys_eq_spec() -> bool {
        true
    }

    open spec fn eq_spec(&self, other: &RankedTier) -> bool {
        self@ == other.name()
    }
}

} // verus!
