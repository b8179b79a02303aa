//! Rules engine for a turn-based, dice-driven combat duel.
//!
//! Two participants each expose ordered sequences of typed dice. Dice are
//! paired off, rolled, and resolved against each other into signed outcomes,
//! which are then applied to a participant's persistent health and stagger
//! resources, modulated by typed resistances.

pub mod combat_page;
pub mod dice;
pub mod duel;
pub mod key_page;
pub mod page;

pub use combat_page::CombatPage;
pub use combat_page::CombatPageBuilder;
pub use dice::AttackDice;
pub use dice::CombatDice;
pub use dice::DefenseDice;
pub use dice::Dice;
pub use dice::DiceType;
pub use dice::NormalDice;
pub use key_page::KeyPage;
pub use key_page::KeyPageBuilder;
pub use page::CombatPageType;
pub use page::KeyPageResistances;
pub use page::MassPageType;
pub use page::MeleePageType;
pub use page::Page;
pub use page::PageRarity;
pub use page::PageType;
pub use page::Resistance;
