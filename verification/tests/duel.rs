use lor_combat::AttackDice;
use lor_combat::CombatDice;
use lor_combat::DefenseDice;
use lor_combat::Dice;
use lor_combat::DiceType;
use lor_combat::NormalDice;

#[test]
fn speed_duel() {
    let mut dice1 = Dice::new(DiceType::Speed, 2, 2);
    let mut dice2 = Dice::new(DiceType::Speed, 3, 4);

    dice1.roll();
    dice2.roll();
    let duel_result = dice1.resolve(dice2);

    assert!(*duel_result.dtype() == DiceType::Speed);
    assert!(duel_result.cur() < 0);
}

#[test]
fn speed_duel_is_antisymmetric() {
    let mut dice1 = Dice::new(DiceType::Speed, 5, 5);
    let mut dice2 = Dice::new(DiceType::Speed, 2, 2);

    dice1.roll();
    dice2.roll();
    let forward = dice1.resolve(dice2);
    let backward = dice2.resolve(dice1);

    assert!(*forward.dtype() == DiceType::Speed);
    assert!(*backward.dtype() == DiceType::Speed);
    assert!(forward.cur() == 3);
    assert!(backward.cur() == -3);
}

#[test]
#[should_panic]
fn illegal_duel_speed() {
    let mut speed = Dice::new(DiceType::Speed, 1, 4);
    let mut attack = Dice::new(
        DiceType::Combat(CombatDice::Normal(NormalDice::Attack(AttackDice::Slash))),
        2,
        3,
    );

    speed.roll();
    attack.roll();

    let _ = speed.resolve(attack);
}

#[test]
#[should_panic]
fn illegal_duel_counter() {
    let mut counter = Dice::new(
        DiceType::Combat(CombatDice::Counter(NormalDice::Attack(AttackDice::Slash))),
        2,
        3,
    );
    let mut attack = Dice::new(
        DiceType::Combat(CombatDice::Counter(NormalDice::Attack(AttackDice::Slash))),
        2,
        3,
    );

    counter.roll();
    attack.roll();

    let _ = counter.resolve(attack);
}

#[test]
#[should_panic]
fn illegal_duel_combat() {
    let mut combat = Dice::new(
        DiceType::Combat(CombatDice::Normal(NormalDice::Attack(AttackDice::Slash))),
        2,
        3,
    );
    let mut speed = Dice::new(DiceType::Speed, 1, 4);

    combat.roll();
    speed.roll();

    let _ = combat.resolve(speed);
}

#[test]
fn duel_combat_attack_attack() {
    let mut combat1 = Dice::new(
        DiceType::Combat(CombatDice::Normal(NormalDice::Attack(AttackDice::Slash))),
        2,
        3,
    );
    let mut combat2 = Dice::new(
        DiceType::Combat(CombatDice::Normal(NormalDice::Attack(AttackDice::Pierce))),
        4,
        6,
    );

    combat1.roll();
    combat2.roll();

    let duel_result = combat1.resolve(combat2);
    assert!(
        *duel_result.dtype()
            == DiceType::Combat(CombatDice::Normal(NormalDice::Attack(AttackDice::Pierce)))
    );
    assert!(duel_result.cur() < 0);
    assert!(duel_result.cur() >= -6);
    assert!(duel_result.cur() <= -4);
}

#[test]
fn duel_combat_defense() {
    let mut attack = Dice::new(
        DiceType::Combat(CombatDice::Normal(NormalDice::Attack(AttackDice::Slash))),
        2,
        3,
    );
    let mut block = Dice::new(
        DiceType::Combat(CombatDice::Normal(NormalDice::Defense(DefenseDice::Block))),
        4,
        6,
    );
    let mut evade = Dice::new(
        DiceType::Combat(CombatDice::Normal(NormalDice::Defense(DefenseDice::Evade))),
        15,
        15,
    );

    attack.roll();
    block.roll();
    evade.roll();

    let attack_block = attack.resolve(block);
    let attack_evade = attack.resolve(evade);

    assert!(
        *attack_block.dtype()
            == DiceType::Combat(CombatDice::Normal(NormalDice::Defense(DefenseDice::Block)))
    );
    assert!(attack_block.cur() < 0);
    assert!(attack_block.cur() >= -4);
    assert!(attack_block.cur() <= -1);

    assert!(
        *attack_evade.dtype()
            == DiceType::Combat(CombatDice::Normal(NormalDice::Defense(DefenseDice::Evade)))
    );
    assert!(attack_evade.cur() < 0);
    assert!(attack_evade.cur() == -15);
}

#[test]
fn duel_combat_counter() {
    let mut attack = Dice::new(
        DiceType::Combat(CombatDice::Counter(NormalDice::Attack(AttackDice::Slash))),
        2,
        3,
    );
    let mut block = Dice::new(
        DiceType::Combat(CombatDice::Normal(NormalDice::Defense(DefenseDice::Block))),
        4,
        6,
    );
    let mut evade = Dice::new(
        DiceType::Combat(CombatDice::Normal(NormalDice::Defense(DefenseDice::Evade))),
        15,
        15,
    );

    attack.roll();
    block.roll();
    evade.roll();

    let attack_block = attack.resolve(block);
    let attack_evade = attack.resolve(evade);

    assert!(
        *attack_block.dtype()
            == DiceType::Combat(CombatDice::Normal(NormalDice::Defense(DefenseDice::Block)))
    );
    assert!(attack_block.cur() < 0);
    assert!(attack_block.cur() >= -4);
    assert!(attack_block.cur() <= -1);

    assert!(
        *attack_evade.dtype()
            == DiceType::Combat(CombatDice::Normal(NormalDice::Defense(DefenseDice::Evade)))
    );
    assert!(attack_evade.cur() < 0);
    assert!(attack_evade.cur() == -15);
}

#[test]
fn duel_normal_versus_counter_flips_on_a_loss() {
    let mut attack = Dice::new(
        DiceType::Combat(CombatDice::Normal(NormalDice::Attack(AttackDice::Slash))),
        5,
        5,
    );
    let mut counter_block = Dice::new(
        DiceType::Combat(CombatDice::Counter(NormalDice::Defense(DefenseDice::Block))),
        7,
        7,
    );

    attack.roll();
    counter_block.roll();

    let duel_result = attack.resolve(counter_block);
    assert!(
        *duel_result.dtype()
            == DiceType::Combat(CombatDice::Counter(NormalDice::Defense(DefenseDice::Block)))
    );
    assert!(duel_result.cur() == -2);
}

#[test]
fn duel_counter_keeps_its_tag_on_a_win() {
    let mut counter_attack = Dice::new(
        DiceType::Combat(CombatDice::Counter(NormalDice::Attack(AttackDice::Blunt))),
        9,
        9,
    );
    let mut block = Dice::new(
        DiceType::Combat(CombatDice::Normal(NormalDice::Defense(DefenseDice::Block))),
        4,
        4,
    );

    counter_attack.roll();
    block.roll();

    let duel_result = counter_attack.resolve(block);
    assert!(
        *duel_result.dtype()
            == DiceType::Combat(CombatDice::Counter(NormalDice::Attack(AttackDice::Blunt)))
    );
    assert!(duel_result.cur() == 5);
}

#[test]
fn duel_evade_versus_evade_is_a_zero_draw() {
    let mut evade1 = Dice::new(
        DiceType::Combat(CombatDice::Normal(NormalDice::Defense(DefenseDice::Evade))),
        2,
        2,
    );
    let mut evade2 = Dice::new(
        DiceType::Combat(CombatDice::Normal(NormalDice::Defense(DefenseDice::Evade))),
        9,
        9,
    );

    evade1.roll();
    evade2.roll();

    let duel_result = evade1.resolve(evade2);
    assert!(
        *duel_result.dtype()
            == DiceType::Combat(CombatDice::Normal(NormalDice::Defense(DefenseDice::Evade)))
    );
    assert!(duel_result.cur() == 0);
}

#[test]
fn duel_attack_versus_attack_tie_keeps_our_subtype_at_zero() {
    let mut slash = Dice::new(
        DiceType::Combat(CombatDice::Normal(NormalDice::Attack(AttackDice::Slash))),
        4,
        4,
    );
    let mut pierce = Dice::new(
        DiceType::Combat(CombatDice::Normal(NormalDice::Attack(AttackDice::Pierce))),
        4,
        4,
    );

    slash.roll();
    pierce.roll();

    let duel_result = slash.resolve(pierce);
    assert!(
        *duel_result.dtype()
            == DiceType::Combat(CombatDice::Normal(NormalDice::Attack(AttackDice::Slash)))
    );
    assert!(duel_result.cur() == 0);
}
