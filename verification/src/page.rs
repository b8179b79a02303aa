//! Page taxonomy, rarity, and the typed resistance table of a key page.

use crate::dice::AttackDice;
use vstd::prelude::*;

verus! {

/// Anything that identifies itself as a kind of page.
pub trait Page {
    /// The page's kind tag.
    fn ptype(&self) -> PageType;
}

/// A page is a participant's key page or an action's combat page.
#[derive(Clone, Copy, PartialEq, Eq, Structural, Debug)]
pub enum PageType {
    Key,
    Combat(CombatPageType),
}

/// The kind of a combat page.
#[derive(Clone, Copy, PartialEq, Eq, Structural, Debug)]
pub enum CombatPageType {
    Melee(MeleePageType),
    Ranged,
    Mass(MassPageType),
    Instant,
}

/// The kind of a melee combat page.
#[derive(Clone, Copy, PartialEq, Eq, Structural, Debug)]
pub enum MeleePageType {
    NormalMelee,
    PriorityMelee,
}

/// The kind of a mass combat page.
#[derive(Clone, Copy, PartialEq, Eq, Structural, Debug)]
pub enum MassPageType {
    Summation,
    Individual,
}

/// How rare a page is. Pure data; nothing here dispatches on it.
#[derive(Clone, Copy, PartialEq, Eq, Structural, Debug)]
pub enum PageRarity {
    Paperback,
    Hardcover,
    Limited,
    Art,
}

/// A multiplier applied to an incoming attack magnitude, from double damage
/// (fatal) down to none at all (immune).
#[derive(Clone, Copy, PartialEq, Eq, Structural, Debug)]
pub enum Resistance {
    Fatal,
    Weak,
    Normal,
    Endured,
    Ineffective,
    Immune,
}

impl Resistance {
    /// The multiplier in quarter units: fatal is 2, weak 1.5, normal 1,
    /// endured 0.5, ineffective 0.25, immune 0, each times four.
    pub open spec fn spec_quarters(self) -> int {
        match self {
            Self::Fatal => 8,
            Self::Weak => 6,
            Self::Normal => 4,
            Self::Endured => 2,
            Self::Ineffective => 1,
            Self::Immune => 0,
        }
    }

    /// The multiplier in quarter units.
    pub fn quarters(&self) -> (q: i32)
        ensures
            q == self.spec_quarters(),
    {
        match self {
            Self::Fatal => 8,
            Self::Weak => 6,
            Self::Normal => 4,
            Self::Endured => 2,
            Self::Ineffective => 1,
            Self::Immune => 0,
        }
    }
}

/// Six resistances, keyed by attack subtype and by which resource (health or
/// stagger) the incoming magnitude lands on.
#[derive(Clone, Copy, PartialEq, Eq, Structural, Debug)]
pub struct KeyPageResistances {
    pub hslash: Resistance,
    pub hpierce: Resistance,
    pub hblunt: Resistance,
    pub sslash: Resistance,
    pub spierce: Resistance,
    pub sblunt: Resistance,
}

impl KeyPageResistances {
    /// The health resistance against the given attack subtype.
    pub open spec fn spec_health_res(self, dtype: AttackDice) -> Resistance {
        match dtype {
            AttackDice::Slash => self.hslash,
            AttackDice::Pierce => self.hpierce,
            AttackDice::Blunt => self.hblunt,
        }
    }

    /// The stagger resistance against the given attack subtype.
    pub open spec fn spec_stagger_res(self, dtype: AttackDice) -> Resistance {
        match dtype {
            AttackDice::Slash => self.sslash,
            AttackDice::Pierce => self.spierce,
            AttackDice::Blunt => self.sblunt,
        }
    }

    /// The pair of resistances (health first, stagger second) against the
    /// given attack subtype.
    pub fn get(&self, dtype: &AttackDice) -> (r: (&Resistance, &Resistance))
        ensures
            *r.0 == self.spec_health_res(*dtype),
            *r.1 == self.spec_stagger_res(*dtype),
    {
        match dtype {
            AttackDice::Slash => (&self.hslash, &self.sslash),
            AttackDice::Pierce => (&self.hpierce, &self.spierce),
            AttackDice::Blunt => (&self.hblunt, &self.sblunt),
        }
    }
}

} // verus!
