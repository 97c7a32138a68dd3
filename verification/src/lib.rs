//! Dice-driven single combat between goblins: dice expressions, the d20
//! classifier, attack resolution, the life of a combatant and the turns of a fight.

pub mod combat;
pub mod d20;
pub mod dice;
pub mod goblin;
mod rng;
pub mod text;
pub mod turn;
pub mod weapon;

pub use combat::{AttackResult, AttackStage};
pub use d20::D20Roll;
pub use dice::Dice;
pub use goblin::{birth_goblin, Goblin};
pub use turn::{action_log, can_take_turn, settle, Action};
pub use weapon::{random_weapon, CommonWeapon, Weapon};
