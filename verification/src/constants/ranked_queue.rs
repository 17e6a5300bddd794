//! Ranked queues.
use vstd::prelude::*;
use vstd::std_specs::cmp::PartialEqSpecImpl;
use crate::utils::same_text;

verus! {

/// The ranked queues that the API knows.
#[derive(Debug, Clone, Copy, PartialEq, Eq, Hash, Structural)]
pub enum QueueKind {
    /// Solo ranked queue
    Solo,
    /// Flex ranked queue
    Flex,
    /// Twisted Treeline ranked queue
    TwistedTreeline,
}

/// A ranked queue.
#[derive(Debug, Clone, Copy, PartialEq, Eq, Hash, Structural)]
pub struct RankedQueue {
    pub kind: QueueKind,
}

#[allow(non_snake_case)]
impl RankedQueue {
    /// Solo ranked queue
    pub fn SOLO() -> (r: RankedQueue)
        ensures
            r == (RankedQueue { kind: QueueKind::Solo }),
    {
        RankedQueue { kind: QueueKind::Solo }
    }

    /// Flex ranked queue
    pub fn FLEX() -> (r: RankedQueue)
        ensures
            r == (RankedQueue { kind: QueueKind::Flex }),
    {
        RankedQueue { kind: QueueKind::Flex }
    }

    /// Twisted Treeline ranked queue
    pub fn TWISTED_TREELINE() -> (r: RankedQueue)
        ensures
            r == (RankedQueue { kind: QueueKind::TwistedTreeline }),
    {
        RankedQueue { kind: QueueKind::TwistedTreeline }
    }

    /// The queue's name, as it stands in a request path.
    pub open spec fn name(self) -> Seq<char> {
        match self.kind {
            QueueKind::Solo => "RANKED_SOLO_5x5"@,
            QueueKind::Flex => "RANKED_FLEX_SR"@,
            QueueKind::TwistedTreeline => "RANKED_FLEX_TT"@,
        }
    }

    /// The queue's name.
    #[inline]
    pub fn as_str(&self) -> (s: &'static str)
        ensures
            s@ == self.name(),
    {
        match self.kind {
            QueueKind::Solo => "RANKED_SOLO_5x5",
            QueueKind::Flex => "RANKED_FLEX_SR",
            QueueKind::TwistedTreeline => "RANKED_FLEX_TT",
        }
    }
}

impl PartialEq<str> for RankedQueue {
    #[inline]
    fn eq(&self, other: &str) -> (r: bool) {
        same_text(self.as_str(), other)
    }
}

impl PartialEqSpecImpl<str> for RankedQueue {
    open spec fn obeys_eq_spec() -> bool {
        true
    }

    open spec fn eq_spec(&self, other: &str) -> bool {
        self.name() == other@
    }
}

impl<'a> PartialEq<&'a str> for RankedQueue {
    #[inline]
    fn eq(&self, other: &&'a str) -> (r: bool) {
        same_text(self.as_str(), *other)
    }
}

impl<'a> PartialEqSpecImpl<&'a str> for RankedQueue {
    open spec fn obeys_eq_spec() -> bool {
        true
    }

    open spec fn eq_spec(&self, other: &&'a str) -> bool {
        self.name() == other@
    }
}

impl PartialEq<RankedQueue> for str {
    #[inline]
    fn eq(&self, other: &RankedQueue) -> (r: bool) {
        same_text(self, other.as_str())
    }
}

impl PartialEqSpecImpl<RankedQueue> for str {
    open spec fn obeys_eq_spec() -> bool {
        true
    }

    open spec fn eq_spec(&self, other: &RankedQueue) -> bool {
        self@ == other.name()
    }
}

} // verus!
