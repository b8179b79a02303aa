//! The dice primitive and its role taxonomy.
//!
//! A die carries one combat role and an inclusive numeric range. Rolling it
//! samples a value from that range; a degenerate die (`min > max`) rolls
//! deterministically to `max`. An unrolled die holds the sentinel value `-1`
//! in its `cur` field.

use rand::Rng;
use vstd::prelude::*;

verus! {

/// The role a die carries: an initiative (speed) die or a combat die.
#[derive(Clone, Copy, PartialEq, Eq, Structural, Debug)]
pub enum DiceType {
    Speed,
    Combat(CombatDice),
}

/// A combat die acts on the owner's turn (normal) or in reaction (counter).
#[derive(Clone, Copy, PartialEq, Eq, Structural, Debug)]
pub enum CombatDice {
    Normal(NormalDice),
    Counter(NormalDice),
}

/// A combat die either attacks or defends.
#[derive(Clone, Copy, PartialEq, Eq, Structural, Debug)]
pub enum NormalDice {
    Attack(AttackDice),
    Defense(DefenseDice),
}

/// The subtype of an attack die; resistances are keyed by it.
#[derive(Clone, Copy, PartialEq, Eq, Structural, Debug)]
pub enum AttackDice {
    Slash,
    Pierce,
    Blunt,
}

/// The subtype of a defense die.
#[derive(Clone, Copy, PartialEq, Eq, Structural, Debug)]
pub enum DefenseDice {
    Block,
    Evade,
}

/// A rollable value with a typed combat role and an inclusive range.
#[derive(Clone, Copy)]
pub struct Dice {
    min: i32,
    max: i32,
    cur: i32,
    dtype: DiceType,
}

/// Relies on rand::Rng::gen_range over the inclusive range `min..=max`
/// (drawn from rand::thread_rng): the sample lies within the bounds.
#[verifier::external_body]
fn sample_inclusive(min: i32, max: i32) -> (r: i32)
    requires
        min <= max,
    ensures
        min <= r <= max,
{
    rand::thread_rng().gen_range(min..=max)
}

/// Every value the die can roll to: `max` alone for a degenerate die,
/// anything in the inclusive range otherwise.
pub open spec fn rolled_value(d: Dice, v: int) -> bool {
    if d.spec_min() > d.spec_max() {
        v == d.spec_max()
    } else {
        d.spec_min() <= v <= d.spec_max()
    }
}

impl Dice {
    /// The lower bound of the die's range.
    pub closed spec fn spec_min(&self) -> int {
        self.min as int
    }

    /// The upper bound of the die's range.
    pub closed spec fn spec_max(&self) -> int {
        self.max as int
    }

    /// The die's current value: the last rolled value, or `-1` while unrolled.
    pub closed spec fn spec_cur(&self) -> int {
        self.cur as int
    }

    /// The die's combat role.
    pub closed spec fn spec_dtype(&self) -> DiceType {
        self.dtype
    }

    /// Whether the die's current value is readable, i.e. it does not hold
    /// the unrolled sentinel.
    pub open spec fn is_rolled(&self) -> bool {
        self.spec_cur() != -1
    }

    /// A fresh, unrolled die with the given role and inclusive range.
    pub fn new(dtype: DiceType, min: i32, max: i32) -> (d: Self)
        ensures
            d.spec_min() == min,
            d.spec_max() == max,
            d.spec_cur() == -1,
            d.spec_dtype() == dtype,
    {
        Self { min, max, cur: -1, dtype }
    }

    /// Roll the die: a degenerate die (`min > max`) deterministically takes
    /// `max`; any other die takes a sample from its inclusive range.
    pub fn roll(&mut self) -> (r: i32)
        ensures
            r == final(self).spec_cur(),
            rolled_value(*old(self), final(self).spec_cur()),
            final(self).spec_min() == old(self).spec_min(),
            final(self).spec_max() == old(self).spec_max(),
            final(self).spec_dtype() == old(self).spec_dtype(),
    {
        if self.min > self.max {
            self.cur = self.max;
            return self.cur;
        }
        self.cur = sample_inclusive(self.min, self.max);
        self.cur
    }

    /// A resolved outcome die: zero range, with its value already in place.
    pub(crate) fn resolved(dtype: DiceType, cur: i32) -> (d: Self)
        ensures
            d.spec_min() == 0,
            d.spec_max() == 0,
            d.spec_cur() == cur,
            d.spec_dtype() == dtype,
    {
        Self { min: 0, max: 0, cur, dtype }
    }

    /// The raw current field, sentinel included. Crate-internal: a resolved
    /// outcome's magnitude may legitimately be `-1`, which `cur` refuses.
    pub(crate) fn value(&self) -> (r: i32)
        ensures
            r == self.spec_cur(),
    {
        self.cur
    }

    /// The last rolled value.
    pub fn cur(&self) -> (r: i32)
        requires
            self.is_rolled(),
        ensures
            r == self.spec_cur(),
    {
        self.cur
    }

    /// The die's combat role.
    pub fn dtype(&self) -> (r: &DiceType)
        ensures
            *r == self.spec_dtype(),
    {
        &self.dtype
    }
}

} // verus!
