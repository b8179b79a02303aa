//! The duel resolver: two rolled dice go in, a winning role and a signed
//! magnitude come out.
//!
//! A non-negative magnitude signals that the first ("our") side's role
//! prevailed; a negative one signals the other side's. On a loss the
//! magnitude is the negated full roll of the winner — except in the
//! attack-versus-attack and attack-versus-block difference cells, where it is
//! a difference. The asymmetry is part of the ruleset and is kept cell by
//! cell, never generalized to one formula.

use crate::dice::AttackDice;
use crate::dice::CombatDice;
use crate::dice::DefenseDice;
use crate::dice::Dice;
use crate::dice::DiceType;
use crate::dice::NormalDice;
use vstd::prelude::*;

verus! {

/// The combat-role sub-matrix: what role wins and with what magnitude when
/// `our` role with rolled value `cur` meets `other` with rolled value `cur2`.
pub open spec fn normal_duel_spec(our: NormalDice, cur: int, other: NormalDice, cur2: int) -> (
    NormalDice,
    int,
) {
    match our {
        NormalDice::Attack(dice) => match other {
            NormalDice::Attack(dice2) => {
                if cur > cur2 {
                    (NormalDice::Attack(dice), cur)
                } else if cur < cur2 {
                    (NormalDice::Attack(dice2), -cur2)
                } else {
                    (NormalDice::Attack(dice), 0)
                }
            },
            NormalDice::Defense(DefenseDice::Block) => {
                if cur > cur2 {
                    (NormalDice::Attack(dice), cur - cur2)
                } else {
                    (NormalDice::Defense(DefenseDice::Block), cur - cur2)
                }
            },
            NormalDice::Defense(DefenseDice::Evade) => {
                if cur > cur2 {
                    (NormalDice::Attack(dice), cur)
                } else if cur < cur2 {
                    (NormalDice::Defense(DefenseDice::Evade), -cur2)
                } else {
                    (NormalDice::Defense(DefenseDice::Evade), 0)
                }
            },
        },
        NormalDice::Defense(DefenseDice::Block) => match other {
            NormalDice::Attack(dice2) => {
                if cur >= cur2 {
                    (NormalDice::Defense(DefenseDice::Block), cur - cur2)
                } else {
                    (NormalDice::Attack(dice2), cur - cur2)
                }
            },
            NormalDice::Defense(DefenseDice::Block) => {
                if cur > cur2 {
                    (NormalDice::Defense(DefenseDice::Block), cur)
                } else if cur < cur2 {
                    (NormalDice::Defense(DefenseDice::Block), -cur2)
                } else {
                    (NormalDice::Defense(DefenseDice::Block), 0)
                }
            },
            NormalDice::Defense(DefenseDice::Evade) => {
                if cur > cur2 {
                    (NormalDice::Defense(DefenseDice::Block), cur)
                } else if cur < cur2 {
                    (NormalDice::Defense(DefenseDice::Evade), -cur2)
                } else {
                    (NormalDice::Defense(DefenseDice::Evade), 0)
                }
            },
        },
        NormalDice::Defense(DefenseDice::Evade) => match other {
            NormalDice::Attack(dice2) => {
                if cur > cur2 {
                    (NormalDice::Defense(DefenseDice::Evade), cur)
                } else if cur < cur2 {
                    (NormalDice::Attack(dice2), -cur2)
                } else {
                    (NormalDice::Defense(DefenseDice::Evade), 0)
                }
            },
            NormalDice::Defense(DefenseDice::Block) => {
                if cur > cur2 {
                    (NormalDice::Defense(DefenseDice::Evade), cur)
                } else if cur < cur2 {
                    (NormalDice::Defense(DefenseDice::Block), -cur2)
                } else {
                    (NormalDice::Defense(DefenseDice::Block), 0)
                }
            },
            NormalDice::Defense(DefenseDice::Evade) => (NormalDice::Defense(DefenseDice::Evade), 0),
        },
    }
}

/// The sanctioned role pairings: speed against speed, normal against any
/// combat die, counter against normal. Anything else is a construction bug.
pub open spec fn legal_duel(a: DiceType, b: DiceType) -> bool {
    match (a, b) {
        (DiceType::Speed, DiceType::Speed) => true,
        (DiceType::Combat(CombatDice::Normal(_)), DiceType::Combat(_)) => true,
        (DiceType::Combat(CombatDice::Counter(_)), DiceType::Combat(CombatDice::Normal(_))) => true,
        _ => false,
    }
}

/// The full resolver: dispatch on the pair of roles, then the combat
/// sub-matrix, with the counter-attack role flip on the sign of the result.
pub open spec fn resolve_spec(a: DiceType, cur: int, b: DiceType, cur2: int) -> (DiceType, int)
    recommends
        legal_duel(a, b),
{
    match (a, b) {
        (DiceType::Speed, DiceType::Speed) => (DiceType::Speed, cur - cur2),
        (DiceType::Combat(CombatDice::Normal(x)), DiceType::Combat(CombatDice::Normal(y))) => {
            let (side, val) = normal_duel_spec(x, cur, y, cur2);
            (DiceType::Combat(CombatDice::Normal(side)), val)
        },
        (DiceType::Combat(CombatDice::Normal(x)), DiceType::Combat(CombatDice::Counter(y))) => {
            let (side, val) = normal_duel_spec(x, cur, y, cur2);
            if val >= 0 {
                (DiceType::Combat(CombatDice::Normal(side)), val)
            } else {
                (DiceType::Combat(CombatDice::Counter(side)), val)
            }
        },
        (DiceType::Combat(CombatDice::Counter(x)), DiceType::Combat(CombatDice::Normal(y))) => {
            let (side, val) = normal_duel_spec(x, cur, y, cur2);
            if val >= 0 {
                (DiceType::Combat(CombatDice::Counter(side)), val)
            } else {
                (DiceType::Combat(CombatDice::Normal(side)), val)
            }
        },
        _ => (a, cur),
    }
}

/// The machine limit on a duel: its magnitude must be representable.
pub open spec fn duel_fits(a: DiceType, cur: int, b: DiceType, cur2: int) -> bool {
    i32::MIN <= resolve_spec(a, cur, b, cur2).1 <= i32::MAX
}

impl NormalDice {
    /// The combat-role sub-duel of two rolled values, one cell of the
    /// three-by-three matrix per role pair.
    pub fn combat(&self, cur: i32, other: &Self, cur2: i32) -> (r: (Self, i32))
        requires
            cur != -1,
            cur2 != -1,
            i32::MIN <= normal_duel_spec(*self, cur as int, *other, cur2 as int).1 <= i32::MAX,
        ensures
            (r.0, r.1 as int) == normal_duel_spec(*self, cur as int, *other, cur2 as int),
    {
        match *self {
            Self::Attack(dice) => match *other {
                Self::Attack(dice2) => {
                    if cur > cur2 {
                        (Self::Attack(dice), cur)
                    } else if cur < cur2 {
                        (Self::Attack(dice2), -cur2)
                    } else {
                        (Self::Attack(dice), 0)
                    }
                },
                Self::Defense(DefenseDice::Block) => {
                    if cur > cur2 {
                        (Self::Attack(dice), cur - cur2)
                    } else {
                        (Self::Defense(DefenseDice::Block), cur - cur2)
                    }
                },
                Self::Defense(DefenseDice::Evade) => {
                    if cur > cur2 {
                        (Self::Attack(dice), cur)
                    } else if cur < cur2 {
                        (Self::Defense(DefenseDice::Evade), -cur2)
                    } else {
                        (Self::Defense(DefenseDice::Evade), 0)
                    }
                },
            },
            Self::Defense(DefenseDice::Block) => match *other {
                Self::Attack(dice2) => {
                    if cur >= cur2 {
                        (Self::Defense(DefenseDice::Block), cur - cur2)
                    } else {
                        (Self::Attack(dice2), cur - cur2)
                    }
                },
                Self::Defense(DefenseDice::Block) => {
                    if cur > cur2 {
                        (Self::Defense(DefenseDice::Block), cur)
                    } else if cur < cur2 {
                        (Self::Defense(DefenseDice::Block), -cur2)
                    } else {
                        (Self::Defense(DefenseDice::Block), 0)
                    }
                },
                Self::Defense(DefenseDice::Evade) => {
                    if cur > cur2 {
                        (Self::Defense(DefenseDice::Block), cur)
                    } else if cur < cur2 {
                        (Self::Defense(DefenseDice::Evade), -cur2)
                    } else {
                        (Self::Defense(DefenseDice::Evade), 0)
                    }
                },
            },
            Self::Defense(DefenseDice::Evade) => match *other {
                Self::Attack(dice2) => {
                    if cur > cur2 {
                        (Self::Defense(DefenseDice::Evade), cur)
                    } else if cur < cur2 {
                        (Self::Attack(dice2), -cur2)
                    } else {
                        (Self::Defense(DefenseDice::Evade), 0)
                    }
                },
                Self::Defense(DefenseDice::Block) => {
                    if cur > cur2 {
                        (Self::Defense(DefenseDice::Evade), cur)
                    } else if cur < cur2 {
                        (Self::Defense(DefenseDice::Block), -cur2)
                    } else {
                        (Self::Defense(DefenseDice::Block), 0)
                    }
                },
                Self::Defense(DefenseDice::Evade) => (Self::Defense(DefenseDice::Evade), 0),
            },
        }
    }
}

impl Dice {
    /// Resolve two rolled dice. The result is a fresh die whose role is the
    /// winning role and whose current value is the signed magnitude.
    pub fn resolve(self, other: Self) -> (r: Self)
        requires
            self.is_rolled(),
            other.is_rolled(),
            legal_duel(self.spec_dtype(), other.spec_dtype()),
            duel_fits(self.spec_dtype(), self.spec_cur(), other.spec_dtype(), other.spec_cur()),
        ensures
            (r.spec_dtype(), r.spec_cur()) == resolve_spec(
                self.spec_dtype(),
                self.spec_cur(),
                other.spec_dtype(),
                other.spec_cur(),
            ),
            r.spec_min() == 0,
            r.spec_max() == 0,
    {
        let cur = self.cur();
        let cur2 = other.cur();
        match *self.dtype() {
            DiceType::Speed => match *other.dtype() {
                DiceType::Speed => Self::resolved(DiceType::Speed, cur - cur2),
                DiceType::Combat(_) => vstd::pervasive::unreached(),
            },
            DiceType::Combat(CombatDice::Normal(dice)) => match *other.dtype() {
                DiceType::Speed => vstd::pervasive::unreached(),
                DiceType::Combat(CombatDice::Normal(dice2)) => {
                    let (side, val) = dice.combat(cur, &dice2, cur2);
                    Self::resolved(DiceType::Combat(CombatDice::Normal(side)), val)
                },
                DiceType::Combat(CombatDice::Counter(dice2)) => {
                    let (side, val) = dice.combat(cur, &dice2, cur2);
                    if val >= 0 {
                        Self::resolved(DiceType::Combat(CombatDice::Normal(side)), val)
                    } else {
                        Self::resolved(DiceType::Combat(CombatDice::Counter(side)), val)
                    }
                },
            },
            DiceType::Combat(CombatDice::Counter(dice)) => match *other.dtype() {
                DiceType::Speed => vstd::pervasive::unreached(),
                DiceType::Combat(CombatDice::Counter(_)) => vstd::pervasive::unreached(),
                DiceType::Combat(CombatDice::Normal(dice2)) => {
                    let (side, val) = dice.combat(cur, &dice2, cur2);
                    if val >= 0 {
                        Self::resolved(DiceType::Combat(CombatDice::Counter(side)), val)
                    } else {
                        Self::resolved(DiceType::Combat(CombatDice::Normal(side)), val)
                    }
                },
            },
        }
    }
}

/// A speed duel is antisymmetric: with the rolled values fixed, swapping the
/// sides negates the magnitude, and both outcomes carry the speed role.
pub proof fn lemma_speed_duel_antisymmetric(cur: int, cur2: int)
    ensures
        resolve_spec(DiceType::Speed, cur, DiceType::Speed, cur2).0 == DiceType::Speed,
        resolve_spec(DiceType::Speed, cur, DiceType::Speed, cur2).1 == -resolve_spec(
            DiceType::Speed,
            cur2,
            DiceType::Speed,
            cur,
        ).1,
{
}

} // verus!
