//! Passives: temporary effects on raking.
use vstd::prelude::*;

verus! {

/// A temporary effect on raking.
#[derive(Clone, Copy, PartialEq, Eq, Structural, Debug)]
pub enum Passive {
    Lucky,
    LuckyZero,
    Unlucky,
}

/// The passive stored under number `i`, if any.
pub open spec fn passive_from_repr(i: int) -> Option<Passive> {
    if i == 0 {
        Some(Passive::Lucky)
    } else if i == 1 {
        Some(Passive::LuckyZero)
    } else if i == 2 {
        Some(Passive::Unlucky)
    } else {
        None
    }
}

impl Passive {
    pub open spec fn spec_repr(self) -> int {
        match self {
            Passive::Lucky => 0,
            Passive::LuckyZero => 1,
            Passive::Unlucky => 2,
        }
    }

    pub open spec fn spec_name(self) -> Seq<char> {
        match self {
            Passive::Lucky => "Lucky!"@,
            Passive::LuckyZero => "Luck o' Clock!"@,
            Passive::Unlucky => "Unlucky..."@,
        }
    }

    pub open spec fn spec_description(self) -> Seq<char> {
        match self {
            Passive::Lucky => "+10% to maximum possible Leaves received from raking (1 hour)"@,
            Passive::LuckyZero => "+10% chance to 10x Leaves received from raking (3 hours)"@,
            Passive::Unlucky => "-10% to minimum possible Leaves received from raking (10 minutes)"@,
        }
    }

    /// Seconds the passive lasts: one hour, three hours or ten minutes.
    pub open spec fn spec_duration(self) -> int {
        match self {
            Passive::Lucky => 3600,
            Passive::LuckyZero => 10800,
            Passive::Unlucky => 600,
        }
    }

    /// The number under which the passive is stored.
    pub fn repr(&self) -> (r: u32)
        ensures
            r as int == self.spec_repr(),
    {
        match self {
            Passive::Lucky => 0,
            Passive::LuckyZero => 1,
            Passive::Unlucky => 2,
        }
    }

    /// The passive stored under number `i`.
    pub fn from_repr(i: usize) -> (r: Option<Passive>)
        ensures
            r == passive_from_repr(i as int),
    {
        match i {
            0 => Some(Passive::Lucky),
            1 => Some(Passive::LuckyZero),
            2 => Some(Passive::Unlucky),
            _ => None,
        }
    }

    /// The name of the passive.
    pub fn name(&self) -> (r: &'static str)
        ensures
            r@ == self.spec_name(),
    {
        match self {
            Passive::Lucky => "Lucky!",
            Passive::LuckyZero => "Luck o' Clock!",
            Passive::Unlucky => "Unlucky...",
        }
    }

    /// What the passive does, and for how long.
    pub fn description(&self) -> (r: &'static str)
        ensures
            r@ == self.spec_description(),
    {
        match self {
            Passive::Lucky => "+10% to maximum possible Leaves received from raking (1 hour)",
            Passive::LuckyZero => "+10% chance to 10x Leaves received from raking (3 hours)",
            Passive::Unlucky => "-10% to minimum possible Leaves received from raking (10 minutes)",
        }
    }

    /// Duration of the passive in seconds.
    pub fn duration(&self) -> (r: i64)
        ensures
            r as int == self.spec_duration(),
    {
        60 * match self {
            Passive::Lucky => 60,
            Passive::LuckyZero => 180,
            Passive::Unlucky => 10,
        }
    }
}

/// The stored number of a passive gives back the passive, and exactly the
/// numbers below 3 name a passive.
pub proof fn lemma_passive_repr_round_trip(p: Passive, i: int)
    ensures
        passive_from_repr(p.spec_repr()) == Some(p),
        passive_from_repr(i) is Some <==> 0 <= i < 3,
{
}

} // verus!
