//! The key page: a participant's persistent state — health, stagger, lights,
//! speed dice and resistances — and how a resolved duel outcome mutates it.

use crate::dice::AttackDice;
use crate::dice::CombatDice;
use crate::dice::DefenseDice;
use crate::dice::Dice;
use crate::dice::DiceType;
use crate::dice::NormalDice;
use crate::page::KeyPageResistances;
use crate::page::Page;
use crate::page::PageRarity;
use crate::page::PageType;
use crate::page::Resistance;
use vstd::arithmetic::div_mod::lemma_div_pos_is_pos;
use vstd::prelude::*;

verus! {

/// The inner combat role of a resolved outcome, normal or counter alike.
pub open spec fn combat_inner(t: DiceType) -> NormalDice
    recommends
        t is Combat,
{
    match t {
        DiceType::Combat(CombatDice::Normal(dice)) => dice,
        DiceType::Combat(CombatDice::Counter(dice)) => dice,
        DiceType::Speed => NormalDice::Attack(AttackDice::Slash),
    }
}

/// What a resistance in quarter units takes off a resource for a negative
/// incoming magnitude: the product scaled down by four, truncating toward
/// zero (the delta is never positive).
pub open spec fn resisted_delta(quarters: int, cur: int) -> int
    recommends
        quarters >= 0,
        cur < 0,
{
    -((quarters * -cur) / 4)
}

/// Stagger is clamped from above by its maximum; there is no lower clamp.
pub open spec fn clamp_stagger(s: int, maxstagger: int) -> int {
    if s > maxstagger {
        maxstagger
    } else {
        s
    }
}

/// A participant's persistent combat state. Built once; only the current
/// resources mutate afterwards, through `eval`.
#[derive(Clone)]
pub struct KeyPage {
    pub name: String,
    pub rarity: PageRarity,
    pub speed: Vec<Dice>,
    pub maxhealth: i32,
    pub maxstagger: i32,
    pub maxlights: i32,
    pub resistances: KeyPageResistances,
    pub curlights: i32,
    pub curhealth: i32,
    pub curstagger: i32,
}

/// The health this page has after consuming an outcome with the given inner
/// combat role and magnitude: a landed attack (negative magnitude) takes the
/// resisted loss off; everything else leaves health alone.
pub open spec fn eval_health_spec(p: KeyPage, dice: NormalDice, cur: int) -> int {
    match dice {
        NormalDice::Attack(atype) => {
            if cur < 0 {
                p.curhealth + resisted_delta(
                    p.resistances.spec_health_res(atype).spec_quarters(),
                    cur,
                )
            } else {
                p.curhealth as int
            }
        },
        NormalDice::Defense(_) => p.curhealth as int,
    }
}

/// The stagger this page has after consuming an outcome: a landed attack
/// takes the resisted loss off; a lost block adds its negative magnitude; a
/// won evade adds its positive magnitude; both defensive changes are clamped
/// from above by the maximum. Anything else leaves stagger alone.
pub open spec fn eval_stagger_spec(p: KeyPage, dice: NormalDice, cur: int) -> int {
    match dice {
        NormalDice::Attack(atype) => {
            if cur < 0 {
                p.curstagger + resisted_delta(
                    p.resistances.spec_stagger_res(atype).spec_quarters(),
                    cur,
                )
            } else {
                p.curstagger as int
            }
        },
        NormalDice::Defense(DefenseDice::Block) => {
            if cur < 0 {
                clamp_stagger(p.curstagger + cur, p.maxstagger as int)
            } else {
                p.curstagger as int
            }
        },
        NormalDice::Defense(DefenseDice::Evade) => {
            if cur > 0 {
                clamp_stagger(p.curstagger + cur, p.maxstagger as int)
            } else {
                p.curstagger as int
            }
        },
    }
}

/// The machine limit on `eval`: both updated resources must be representable.
pub open spec fn eval_fits(p: KeyPage, dice: NormalDice, cur: int) -> bool {
    &&& i32::MIN <= eval_health_spec(p, dice, cur) <= i32::MAX
    &&& i32::MIN <= eval_stagger_spec(p, dice, cur) <= i32::MAX
}

/// The resisted loss off a resource, as executable arithmetic.
fn resisted_loss(quarters: i32, cur: i32) -> (loss: i64)
    requires
        0 <= quarters <= 8,
        cur < 0,
    ensures
        loss == -resisted_delta(quarters as int, cur as int),
        loss >= 0,
{
    let neg: i64 = -(cur as i64);
    proof {
        assert(0 <= (quarters as i64) * neg <= 8 * 0x8000_0000i64) by (nonlinear_arith)
            requires
                0 <= quarters <= 8,
                0 < neg <= 0x8000_0000i64,
        ;
    }
    let prod: i64 = (quarters as i64) * neg;
    proof {
        lemma_div_pos_is_pos(prod as int, 4);
    }
    prod / 4
}

impl KeyPage {
    /// Whether the page is out of the fight: health or stagger at or below
    /// zero. Terminal for queries, though `eval` itself never checks it.
    pub open spec fn is_defeated(&self) -> bool {
        self.curstagger <= 0 || self.curhealth <= 0
    }

    /// Consume one resolved duel outcome, mutating current health and stagger
    /// in place. A speed outcome is an illegal input here. No defeated guard:
    /// resources keep moving even on a page already defeated.
    pub fn eval(&mut self, result: &Dice)
        requires
            result.spec_dtype() is Combat,
            eval_fits(*old(self), combat_inner(result.spec_dtype()), result.spec_cur()),
        ensures
            final(self).curhealth == eval_health_spec(
                *old(self),
                combat_inner(result.spec_dtype()),
                result.spec_cur(),
            ),
            final(self).curstagger == eval_stagger_spec(
                *old(self),
                combat_inner(result.spec_dtype()),
                result.spec_cur(),
            ),
            final(self).name == old(self).name,
            final(self).rarity == old(self).rarity,
            final(self).speed == old(self).speed,
            final(self).maxhealth == old(self).maxhealth,
            final(self).maxstagger == old(self).maxstagger,
            final(self).maxlights == old(self).maxlights,
            final(self).resistances == old(self).resistances,
            final(self).curlights == old(self).curlights,
    {
        let dice: NormalDice = match *result.dtype() {
            DiceType::Speed => vstd::pervasive::unreached(),
            DiceType::Combat(CombatDice::Normal(dice)) => dice,
            DiceType::Combat(CombatDice::Counter(dice)) => dice,
        };
        match dice {
            NormalDice::Attack(atype) => {
                if result.value() < 0 {
                    let (hresist, sresist) = self.resistances.get(&atype);
                    let hloss: i64 = resisted_loss(hresist.quarters(), result.value());
                    let sloss: i64 = resisted_loss(sresist.quarters(), result.value());
                    self.curhealth = ((self.curhealth as i64) - hloss) as i32;
                    self.curstagger = ((self.curstagger as i64) - sloss) as i32;
                }
            },
            NormalDice::Defense(DefenseDice::Block) => {
                if result.value() < 0 {
                    let s: i64 = (self.curstagger as i64) + (result.value() as i64);
                    let clamped: i64 = if s > (self.maxstagger as i64) {
                        self.maxstagger as i64
                    } else {
                        s
                    };
                    self.curstagger = clamped as i32;
                }
            },
            NormalDice::Defense(DefenseDice::Evade) => {
                if result.value() > 0 {
                    let s: i64 = (self.curstagger as i64) + (result.value() as i64);
                    let clamped: i64 = if s > (self.maxstagger as i64) {
                        self.maxstagger as i64
                    } else {
                        s
                    };
                    self.curstagger = clamped as i32;
                }
            },
        }
    }

    /// Current health.
    pub fn health(&self) -> (r: i32)
        ensures
            r == self.curhealth,
    {
        self.curhealth
    }

    /// Current stagger.
    pub fn stagger(&self) -> (r: i32)
        ensures
            r == self.curstagger,
    {
        self.curstagger
    }

    /// The speed dice, readable only while the page is still in the fight.
    pub fn gets(&self) -> (r: Option<&Vec<Dice>>)
        ensures
            r is Some <==> !self.is_defeated(),
            r matches Some(v) ==> *v == self.speed,
    {
        if self.curstagger <= 0 || self.curhealth <= 0 {
            return None;
        }
        Some(&self.speed)
    }

    /// One speed die by index, readable only while the page is still in the
    /// fight and the index is within the sequence.
    pub fn get(&self, index: usize) -> (r: Option<&Dice>)
        ensures
            r is Some <==> (!self.is_defeated() && index < self.speed@.len()),
            r matches Some(d) ==> *d == self.speed@[index as int],
    {
        let speed = self.gets();
        match speed {
            None => None,
            Some(speed) => {
                if index < speed.len() {
                    Some(&speed[index])
                } else {
                    None
                }
            },
        }
    }
}

/// Chained assembly of a key page: every field has a default, and `build`
/// freezes the maxima and starts the current resources at them.
#[derive(Clone)]
pub struct KeyPageBuilder {
    name: String,
    rarity: PageRarity,
    speed: Vec<Dice>,
    maxhealth: i32,
    maxstagger: i32,
    lights: i32,
    resistances: KeyPageResistances,
}

/// The resistance table every key page starts from: normal across the board.
pub open spec fn default_resistances() -> KeyPageResistances {
    KeyPageResistances {
        hslash: Resistance::Normal,
        hpierce: Resistance::Normal,
        hblunt: Resistance::Normal,
        sslash: Resistance::Normal,
        spierce: Resistance::Normal,
        sblunt: Resistance::Normal,
    }
}

impl KeyPageBuilder {
    /// The page name so far.
    pub closed spec fn spec_name(&self) -> Seq<char> {
        self.name@
    }

    /// The rarity so far.
    pub closed spec fn spec_rarity(&self) -> PageRarity {
        self.rarity
    }

    /// The speed dice so far.
    pub closed spec fn spec_speed(&self) -> Seq<Dice> {
        self.speed@
    }

    /// The maximum health so far.
    pub closed spec fn spec_health(&self) -> int {
        self.maxhealth as int
    }

    /// The maximum stagger so far.
    pub closed spec fn spec_stagger(&self) -> int {
        self.maxstagger as int
    }

    /// The lights so far.
    pub closed spec fn spec_lights(&self) -> int {
        self.lights as int
    }

    /// The resistance table so far.
    pub closed spec fn spec_resistances(&self) -> KeyPageResistances {
        self.resistances
    }

    /// A builder with every field at its default.
    pub fn new() -> (r: Self)
        ensures
            r.spec_name() == Seq::<char>::empty(),
            r.spec_rarity() == PageRarity::Paperback,
            r.spec_speed() == Seq::<Dice>::empty(),
            r.spec_health() == 1,
            r.spec_stagger() == 1,
            r.spec_lights() == 0,
            r.spec_resistances() == default_resistances(),
    {
        Self {
            name: String::new(),
            rarity: PageRarity::Paperback,
            speed: Vec::new(),
            maxhealth: 1,
            maxstagger: 1,
            lights: 0,
            resistances: KeyPageResistances {
                hslash: Resistance::Normal,
                hpierce: Resistance::Normal,
                hblunt: Resistance::Normal,
                sslash: Resistance::Normal,
                spierce: Resistance::Normal,
                sblunt: Resistance::Normal,
            },
        }
    }

    /// Set the page name.
    pub fn name(self, name: &str) -> (r: Self)
        ensures
            r.spec_name() == name@,
            r.spec_rarity() == self.spec_rarity(),
            r.spec_speed() == self.spec_speed(),
            r.spec_health() == self.spec_health(),
            r.spec_stagger() == self.spec_stagger(),
            r.spec_lights() == self.spec_lights(),
            r.spec_resistances() == self.spec_resistances(),
    {
        let mut s = self;
        s.name = name.to_owned();
        s
    }

    /// Set the rarity.
    pub fn rarity(self, rarity: PageRarity) -> (r: Self)
        ensures
            r.spec_name() == self.spec_name(),
            r.spec_rarity() == rarity,
            r.spec_speed() == self.spec_speed(),
            r.spec_health() == self.spec_health(),
            r.spec_stagger() == self.spec_stagger(),
            r.spec_lights() == self.spec_lights(),
            r.spec_resistances() == self.spec_resistances(),
    {
        let mut s = self;
        s.rarity = rarity;
        s
    }

    /// Append one speed die; only a speed-role die is a legal argument.
    pub fn speed(self, speed: Dice) -> (r: Self)
        requires
            speed.spec_dtype() == DiceType::Speed,
        ensures
            r.spec_name() == self.spec_name(),
            r.spec_rarity() == self.spec_rarity(),
            r.spec_speed() == self.spec_speed().push(speed),
            r.spec_health() == self.spec_health(),
            r.spec_stagger() == self.spec_stagger(),
            r.spec_lights() == self.spec_lights(),
            r.spec_resistances() == self.spec_resistances(),
    {
        let mut s = self;
        s.speed.push(speed);
        s
    }

    /// Set the maximum health.
    pub fn health(self, health: i32) -> (r: Self)
        ensures
            r.spec_name() == self.spec_name(),
            r.spec_rarity() == self.spec_rarity(),
            r.spec_speed() == self.spec_speed(),
            r.spec_health() == health,
            r.spec_stagger() == self.spec_stagger(),
            r.spec_lights() == self.spec_lights(),
            r.spec_resistances() == self.spec_resistances(),
    {
        let mut s = self;
        s.maxhealth = health;
        s
    }

    /// Set the maximum stagger.
    pub fn stagger(self, stagger: i32) -> (r: Self)
        ensures
            r.spec_name() == self.spec_name(),
            r.spec_rarity() == self.spec_rarity(),
            r.spec_speed() == self.spec_speed(),
            r.spec_health() == self.spec_health(),
            r.spec_stagger() == stagger,
            r.spec_lights() == self.spec_lights(),
            r.spec_resistances() == self.spec_resistances(),
    {
        let mut s = self;
        s.maxstagger = stagger;
        s
    }

    /// Set the lights.
    pub fn lights(self, lights: i32) -> (r: Self)
        ensures
            r.spec_name() == self.spec_name(),
            r.spec_rarity() == self.spec_rarity(),
            r.spec_speed() == self.spec_speed(),
            r.spec_health() == self.spec_health(),
            r.spec_stagger() == self.spec_stagger(),
            r.spec_lights() == lights,
            r.spec_resistances() == self.spec_resistances(),
    {
        let mut s = self;
        s.lights = lights;
        s
    }

    /// Replace the whole resistance table.
    pub fn resistances(self, resistances: KeyPageResistances) -> (r: Self)
        ensures
            r.spec_name() == self.spec_name(),
            r.spec_rarity() == self.spec_rarity(),
            r.spec_speed() == self.spec_speed(),
            r.spec_health() == self.spec_health(),
            r.spec_stagger() == self.spec_stagger(),
            r.spec_lights() == self.spec_lights(),
            r.spec_resistances() == resistances,
    {
        let mut s = self;
        s.resistances = resistances;
        s
    }

    /// Set the health resistance against slash attacks.
    pub fn hslash_resistance(self, resistance: Resistance) -> (r: Self)
        ensures
            r.spec_name() == self.spec_name(),
            r.spec_rarity() == self.spec_rarity(),
            r.spec_speed() == self.spec_speed(),
            r.spec_health() == self.spec_health(),
            r.spec_stagger() == self.spec_stagger(),
            r.spec_lights() == self.spec_lights(),
            r.spec_resistances() == (KeyPageResistances {
                hslash: resistance,
                ..self.spec_resistances()
            }),
    {
        let mut s = self;
        s.resistances.hslash = resistance;
        s
    }

    /// Set the health resistance against pierce attacks.
    pub fn hpierce_resistance(self, resistance: Resistance) -> (r: Self)
        ensures
            r.spec_name() == self.spec_name(),
            r.spec_rarity() == self.spec_rarity(),
            r.spec_speed() == self.spec_speed(),
            r.spec_health() == self.spec_health(),
            r.spec_stagger() == self.spec_stagger(),
            r.spec_lights() == self.spec_lights(),
            r.spec_resistances() == (KeyPageResistances {
                hpierce: resistance,
                ..self.spec_resistances()
            }),
    {
        let mut s = self;
        s.resistances.hpierce = resistance;
        s
    }

    /// Set the health resistance against blunt attacks.
    pub fn hblunt_resistance(self, resistance: Resistance) -> (r: Self)
        ensures
            r.spec_name() == self.spec_name(),
            r.spec_rarity() == self.spec_rarity(),
            r.spec_speed() == self.spec_speed(),
            r.spec_health() == self.spec_health(),
            r.spec_stagger() == self.spec_stagger(),
            r.spec_lights() == self.spec_lights(),
            r.spec_resistances() == (KeyPageResistances {
                hblunt: resistance,
                ..self.spec_resistances()
            }),
    {
        let mut s = self;
        s.resistances.hblunt = resistance;
        s
    }

    /// Set the stagger resistance against slash attacks.
    pub fn sslash_resistance(self, resistance: Resistance) -> (r: Self)
        ensures
            r.spec_name() == self.spec_name(),
            r.spec_rarity() == self.spec_rarity(),
            r.spec_speed() == self.spec_speed(),
            r.spec_health() == self.spec_health(),
            r.spec_stagger() == self.spec_stagger(),
            r.spec_lights() == self.spec_lights(),
            r.spec_resistances() == (KeyPageResistances {
                sslash: resistance,
                ..self.spec_resistances()
            }),
    {
        let mut s = self;
        s.resistances.sslash = resistance;
        s
    }

    /// Set the stagger resistance against pierce attacks.
    pub fn spierce_resistance(self, resistance: Resistance) -> (r: Self)
        ensures
            r.spec_name() == self.spec_name(),
            r.spec_rarity() == self.spec_rarity(),
            r.spec_speed() == self.spec_speed(),
            r.spec_health() == self.spec_health(),
            r.spec_stagger() == self.spec_stagger(),
            r.spec_lights() == self.spec_lights(),
            r.spec_resistances() == (KeyPageResistances {
                spierce: resistance,
                ..self.spec_resistances()
            }),
    {
        let mut s = self;
        s.resistances.spierce = resistance;
        s
    }

    /// Set the stagger resistance against blunt attacks.
    pub fn sblunt_resistance(self, resistance: Resistance) -> (r: Self)
        ensures
            r.spec_name() == self.spec_name(),
            r.spec_rarity() == self.spec_rarity(),
            r.spec_speed() == self.spec_speed(),
            r.spec_health() == self.spec_health(),
            r.spec_stagger() == self.spec_stagger(),
            r.spec_lights() == self.spec_lights(),
            r.spec_resistances() == (KeyPageResistances {
                sblunt: resistance,
                ..self.spec_resistances()
            }),
    {
        let mut s = self;
        s.resistances.sblunt = resistance;
        s
    }

    /// Freeze the page. One trailing unrolled speed placeholder die is
    /// appended, so preserved defense or counter dice have a slot; current
    /// health and stagger start at their maxima, current lights at the
    /// configured lights.
    pub fn build(self) -> (r: KeyPage)
        ensures
            r.name@ == self.spec_name(),
            r.rarity == self.spec_rarity(),
            r.speed@.len() == self.spec_speed().len() + 1,
            r.speed@.subrange(0, self.spec_speed().len() as int) == self.spec_speed(),
            r.speed@.last().spec_dtype() == DiceType::Speed,
            r.speed@.last().spec_min() == 0,
            r.speed@.last().spec_max() == 0,
            r.speed@.last().spec_cur() == -1,
            r.maxhealth == self.spec_health(),
            r.maxstagger == self.spec_stagger(),
            r.maxlights == self.spec_lights(),
            r.resistances == self.spec_resistances(),
            r.curlights == self.spec_lights(),
            r.curhealth == self.spec_health(),
            r.curstagger == self.spec_stagger(),
    {
        let mut s = self;
        s.speed.push(Dice::new(DiceType::Speed, 0, 0));
        proof {
            assert(s.speed@.subrange(0, s.speed@.len() - 1) =~= self.spec_speed());
        }
        KeyPage {
            name: s.name,
            rarity: s.rarity,
            speed: s.speed,
            maxhealth: s.maxhealth,
            maxstagger: s.maxstagger,
            maxlights: s.lights,
            resistances: s.resistances,
            curlights: s.lights,
            curhealth: s.maxhealth,
            curstagger: s.maxstagger,
        }
    }
}

impl Default for KeyPageBuilder {
    /// The same builder `new` hands out.
    fn default() -> (r: Self)
        ensures
            r.spec_name() == Seq::<char>::empty(),
            r.spec_rarity() == PageRarity::Paperback,
            r.spec_speed() == Seq::<Dice>::empty(),
            r.spec_health() == 1,
            r.spec_stagger() == 1,
            r.spec_lights() == 0,
            r.spec_resistances() == default_resistances(),
    {
        Self::new()
    }
}

impl Default for KeyPage {
    /// The page a default builder builds: unit health and stagger, no lights,
    /// only the placeholder speed die, normal resistances.
    fn default() -> (r: Self)
        ensures
            r.name@ == Seq::<char>::empty(),
            r.rarity == PageRarity::Paperback,
            r.speed@.len() == 1,
            r.maxhealth == 1,
            r.maxstagger == 1,
            r.maxlights == 0,
            r.resistances == default_resistances(),
            r.curlights == 0,
            r.curhealth == 1,
            r.curstagger == 1,
    {
        KeyPageBuilder::new().build()
    }
}

impl Page for KeyPage {
    fn ptype(&self) -> (r: PageType)
        ensures
            r == PageType::Key,
    {
        PageType::Key
    }
}

/// `eval` never raises health: a landed attack takes a non-negative loss off,
/// and nothing else touches health at all.
pub proof fn lemma_eval_health_monotone(p: KeyPage, dice: NormalDice, cur: int)
    ensures
        eval_health_spec(p, dice, cur) <= p.curhealth,
{
    match dice {
        NormalDice::Attack(atype) => {
            if cur < 0 {
                let q = p.resistances.spec_health_res(atype).spec_quarters();
                assert(q * -cur >= 0) by (nonlinear_arith)
                    requires
                        q >= 0,
                        cur < 0,
                ;
                lemma_div_pos_is_pos(q * -cur, 4);
            }
        },
        NormalDice::Defense(_) => {},
    }
}

/// Defeat on health is permanent: once current health is at or below zero,
/// no outcome fed to `eval` brings it back above, so `gets` and `get` keep
/// answering `None` however often `eval` runs afterwards. (Defeat on stagger
/// alone is not so protected: a won evade outcome can raise stagger again.)
pub proof fn lemma_health_defeat_is_permanent(p: KeyPage, dice: NormalDice, cur: int)
    requires
        p.curhealth <= 0,
    ensures
        eval_health_spec(p, dice, cur) <= 0,
{
    lemma_eval_health_monotone(p, dice, cur);
}

} // verus!
