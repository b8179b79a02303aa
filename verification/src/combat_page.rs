//! The combat page: a named, immutable template of combat dice, and the page
//! duel that pairs two pages' dice off index by index.

use crate::dice::rolled_value;
use crate::dice::Dice;
use crate::duel::duel_fits;
use crate::duel::legal_duel;
use crate::duel::resolve_spec;
use crate::page::CombatPageType;
use crate::page::MeleePageType;
use crate::page::PageRarity;
use crate::page::PageType;
use vstd::prelude::*;

verus! {

/// How many dice pair off: the smaller of the two sequence lengths.
pub open spec fn paired_len(s: Seq<Dice>, o: Seq<Dice>) -> int {
    if s.len() <= o.len() {
        s.len() as int
    } else {
        o.len() as int
    }
}

/// A die as it lands in a leftover list: the template die `d` after one roll.
pub open spec fn rolled_from(l: Dice, d: Dice) -> bool {
    &&& l.spec_dtype() == d.spec_dtype()
    &&& l.spec_min() == d.spec_min()
    &&& l.spec_max() == d.spec_max()
    &&& rolled_value(d, l.spec_cur())
}

/// A die as it lands in the results list: some roll of each template die,
/// resolved.
pub open spec fn duel_outcome(res: Dice, a: Dice, b: Dice) -> bool {
    &&& exists|x: int, y: int|
        rolled_value(a, x) && rolled_value(b, y) && (res.spec_dtype(), res.spec_cur())
            == resolve_spec(a.spec_dtype(), x, b.spec_dtype(), y)
    &&& res.spec_min() == 0
    &&& res.spec_max() == 0
}

/// Every pair of dice at a shared index may legally duel, no rollable value
/// is the unrolled sentinel, and every possible magnitude is representable.
pub open spec fn duelable(s: Seq<Dice>, o: Seq<Dice>) -> bool {
    &&& forall|i: int|
        0 <= i < paired_len(s, o) ==> legal_duel(
            #[trigger] s[i].spec_dtype(),
            o[i].spec_dtype(),
        )
    &&& forall|i: int, x: int, y: int|
        0 <= i < paired_len(s, o) && #[trigger] rolled_value(s[i], x) && #[trigger] rolled_value(
            o[i],
            y,
        ) ==> x != -1 && y != -1 && duel_fits(s[i].spec_dtype(), x, o[i].spec_dtype(), y)
}

/// An action's definition: a named template of dice, rolled and consumed
/// exactly once per duel invocation.
#[derive(Clone)]
pub struct CombatPage {
    pub name: String,
    pub rarity: PageRarity,
    pub dices: Vec<Dice>,
    pub ptype: PageType,
}

impl CombatPage {
    /// The page name.
    pub fn name(&self) -> (r: &str)
        ensures
            r@ == self.name@,
    {
        self.name.as_str()
    }

    /// The page rarity.
    pub fn rarity(&self) -> (r: &PageRarity)
        ensures
            *r == self.rarity,
    {
        &self.rarity
    }

    /// The whole dice template.
    pub fn gets(&self) -> (r: &Vec<Dice>)
        ensures
            *r == self.dices,
    {
        &self.dices
    }

    /// One template die by index.
    pub fn get(&self, index: usize) -> (r: Option<&Dice>)
        ensures
            r is Some <==> index < self.dices@.len(),
            r matches Some(d) ==> *d == self.dices@[index as int],
    {
        if index < self.dices.len() {
            Some(&self.dices[index])
        } else {
            None
        }
    }

    /// The page duel. Both pages' dice walk in step: while both sides have a
    /// die at the current index, both are rolled and resolved, and the
    /// outcome appended to the results. The moment one side runs out, only
    /// the first remaining die of the longer side is rolled and kept as that
    /// side's leftover; any further unmatched dice are neither rolled nor
    /// collected. Both pages are consumed.
    pub fn eval(self, other: Self) -> (r: (Vec<Dice>, Vec<Dice>, Vec<Dice>))
        requires
            duelable(self.dices@, other.dices@),
        ensures
            r.0@.len() == paired_len(self.dices@, other.dices@),
            forall|i: int|
                0 <= i < r.0@.len() ==> duel_outcome(
                    #[trigger] r.0@[i],
                    self.dices@[i],
                    other.dices@[i],
                ),
            self.dices@.len() > other.dices@.len() ==> (r.1@.len() == 1 && rolled_from(
                r.1@[0],
                self.dices@[other.dices@.len() as int],
            )),
            self.dices@.len() <= other.dices@.len() ==> r.1@.len() == 0,
            other.dices@.len() > self.dices@.len() ==> (r.2@.len() == 1 && rolled_from(
                r.2@[0],
                other.dices@[self.dices@.len() as int],
            )),
            other.dices@.len() <= self.dices@.len() ==> r.2@.len() == 0,
    {
        let self_dices = self.dices;
        let other_dices = other.dices;
        let mut results: Vec<Dice> = Vec::new();
        let mut self_recycle: Vec<Dice> = Vec::new();
        let mut other_recycle: Vec<Dice> = Vec::new();

        let m: usize = if self_dices.len() <= other_dices.len() {
            self_dices.len()
        } else {
            other_dices.len()
        };
        let mut i: usize = 0;
        while i < m
            invariant
                i <= m,
                m == paired_len(self_dices@, other_dices@),
                duelable(self_dices@, other_dices@),
                results@.len() == i,
                forall|k: int|
                    0 <= k < i ==> duel_outcome(
                        #[trigger] results@[k],
                        self_dices@[k],
                        other_dices@[k],
                    ),
            decreases m - i,
        {
            let mut self_dice = self_dices[i];
            let mut other_dice = other_dices[i];
            self_dice.roll();
            other_dice.roll();
            results.push(self_dice.resolve(other_dice));
            i += 1;
        }

        if self_dices.len() > m {
            let mut next = self_dices[m];
            next.roll();
            self_recycle.push(next);
        } else if other_dices.len() > m {
            let mut next = other_dices[m];
            next.roll();
            other_recycle.push(next);
        }

        (results, self_recycle, other_recycle)
    }
}

/// Chained assembly of a combat page; every field has a default.
#[derive(Clone)]
pub struct CombatPageBuilder {
    name: String,
    rarity: PageRarity,
    dices: Vec<Dice>,
    ptype: PageType,
}

impl CombatPageBuilder {
    /// The page name so far.
    pub closed spec fn spec_name(&self) -> Seq<char> {
        self.name@
    }

    /// The rarity so far.
    pub closed spec fn spec_rarity(&self) -> PageRarity {
        self.rarity
    }

    /// The dice so far.
    pub closed spec fn spec_dices(&self) -> Seq<Dice> {
        self.dices@
    }

    /// The page type so far.
    pub closed spec fn spec_ptype(&self) -> PageType {
        self.ptype
    }

    /// A builder with every field at its default.
    pub fn new() -> (r: Self)
        ensures
            r.spec_name() == Seq::<char>::empty(),
            r.spec_rarity() == PageRarity::Paperback,
            r.spec_dices() == Seq::<Dice>::empty(),
            r.spec_ptype() == PageType::Combat(CombatPageType::Melee(MeleePageType::NormalMelee)),
    {
        Self {
            name: String::new(),
            rarity: PageRarity::Paperback,
            dices: Vec::new(),
            ptype: PageType::Combat(CombatPageType::Melee(MeleePageType::NormalMelee)),
        }
    }

    /// Set the page name.
    pub fn name(self, name: &str) -> (r: Self)
        ensures
            r.spec_name() == name@,
            r.spec_rarity() == self.spec_rarity(),
            r.spec_dices() == self.spec_dices(),
            r.spec_ptype() == self.spec_ptype(),
    {
        let mut s = self;
        s.name = name.to_owned();
        s
    }

    /// Set the rarity.
    pub fn rarity(self, rarity: PageRarity) -> (r: Self)
        ensures
            r.spec_name() == self.spec_name(),
            r.spec_rarity() == rarity,
            r.spec_dices() == self.spec_dices(),
            r.spec_ptype() == self.spec_ptype(),
    {
        let mut s = self;
        s.rarity = rarity;
        s
    }

    /// Append one die.
    pub fn dice(self, dice: Dice) -> (r: Self)
        ensures
            r.spec_name() == self.spec_name(),
            r.spec_rarity() == self.spec_rarity(),
            r.spec_dices() == self.spec_dices().push(dice),
            r.spec_ptype() == self.spec_ptype(),
    {
        let mut s = self;
        s.dices.push(dice);
        s
    }

    /// Set the page type; the key tag is not a combat page type and is an
    /// illegal argument.
    pub fn ptype(self, ptype: PageType) -> (r: Self)
        requires
            !(ptype is Key),
        ensures
            r.spec_name() == self.spec_name(),
            r.spec_rarity() == self.spec_rarity(),
            r.spec_dices() == self.spec_dices(),
            r.spec_ptype() == ptype,
    {
        let mut s = self;
        match ptype {
            PageType::Key => vstd::pervasive::unreached(),
            _ => {
                s.ptype = ptype;
            },
        };
        s
    }

    /// Freeze the page.
    pub fn build(self) -> (r: CombatPage)
        ensures
            r.name@ == self.spec_name(),
            r.rarity == self.spec_rarity(),
            r.dices@ == self.spec_dices(),
            r.ptype == self.spec_ptype(),
    {
        CombatPage {
            name: self.name,
            rarity: self.rarity,
            dices: self.dices,
            ptype: self.ptype,
        }
    }
}

impl Default for CombatPageBuilder {
    /// The same builder `new` hands out.
    fn default() -> (r: Self)
        ensures
            r.spec_name() == Seq::<char>::empty(),
            r.spec_rarity() == PageRarity::Paperback,
            r.spec_dices() == Seq::<Dice>::empty(),
            r.spec_ptype() == PageType::Combat(CombatPageType::Melee(MeleePageType::NormalMelee)),
    {
        Self::new()
    }
}

impl Default for CombatPage {
    /// The page a default builder builds: nameless, common, no dice, normal
    /// melee.
    fn default() -> (r: Self)
        ensures
            r.name@ == Seq::<char>::empty(),
            r.rarity == PageRarity::Paperback,
            r.dices@ == Seq::<Dice>::empty(),
            r.ptype == PageType::Combat(CombatPageType::Melee(MeleePageType::NormalMelee)),
    {
        CombatPageBuilder::new().build()
    }
}

} // verus!
