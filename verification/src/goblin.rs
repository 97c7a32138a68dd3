//! Goblins: how they are born, how they attack, and how their health and
//! their counters change.

use crate::combat::{AttackResult, AttackStage};
use crate::d20::D20Roll;
use crate::dice::{Dice, DiceView};
use crate::weapon::{random_weapon, Weapon};
use vstd::prelude::*;

verus! {

/// A combatant. Its health is signed, so that a blow that kills reads as
/// the overkill below zero.
#[derive(Clone, Debug)]
pub struct Goblin {
    pub name: String,
    pub level: u8,
    pub max_health: u8,
    pub current_health: i8,
    pub weapon: Weapon,
    pub defense: u8,
    pub wins: u8,
    pub heals_available: u8,
}

impl Goblin {
    /// `result` is what an attack of this goblin on `defender` can come to:
    /// the outcome of some primary and confirmation roll of a twenty-sided
    /// die, with the attacker's level as modifier against the defender's
    /// defense, and of two damage rolls for the attacker's weapon.
    pub open spec fn can_inflict(&self, defender: &Goblin, result: AttackResult) -> bool {
        exists|primary: D20Roll, damage_roll: u8, confirmation: D20Roll, crit_damage_roll: u8|
            {
                &&& primary.possible(self.level, defender.defense)
                &&& confirmation.possible(self.level, defender.defense)
                &&& self.weapon@.deals(damage_roll as nat)
                &&& self.weapon@.deals(crit_damage_roll as nat)
                &&& result == #[trigger] AttackResult::outcome(
                    primary,
                    damage_roll,
                    confirmation,
                    crit_damage_roll,
                )
            }
    }

    /// The numbers of an attack of this goblin fit into a byte: its level
    /// added to a twenty-sided roll, and two damage rolls of its weapon.
    pub open spec fn fit_to_attack(&self) -> bool {
        self.level + 20 <= u8::MAX && 2 * self.weapon@.max_damage() <= u8::MAX
    }

    /// The goblin after one more win.
    pub open spec fn won(self) -> Goblin {
        Goblin { wins: (self.wins + 1) as u8, ..self }
    }

    /// The goblin after `times` more wins.
    pub open spec fn won_times(self, times: nat) -> Goblin
        decreases times,
    {
        if times == 0 {
            self
        } else {
            self.won_times((times - 1) as nat).won()
        }
    }

    /// The goblin after it has lost `damage` of its health.
    pub open spec fn damaged(self, damage: u8) -> Goblin {
        Goblin { current_health: (self.current_health - damage) as i8, ..self }
    }

    /// The goblin after it has spent one heal and gained `amount` of health.
    pub open spec fn healed(self, amount: u8) -> Goblin {
        Goblin {
            current_health: (self.current_health + amount) as i8,
            heals_available: (self.heals_available - 1) as u8,
            ..self
        }
    }

    /// Whether the numbers of an attack of this goblin fit into a byte.
    pub fn can_attack(&self) -> (fit: bool)
        ensures
            fit == self.fit_to_attack(),
    {
        self.level <= 235 && self.weapon.max_damage() <= 127
    }

    /// Attacks `defender` and says what the attack did. The defender is not
    /// changed: the damage is for the caller to apply.
    pub fn attacks(&self, defender: &Goblin) -> (result: AttackResult)
        requires
            self.fit_to_attack(),
        ensures
            self.can_inflict(defender, result),
    {
        let attack_roll = Dice::roll_d20(&self.level, &defender.defense);
        let damage_roll: u8 = self.damage_roll();
        // Rolls that the attack does not come to may stand for any roll.
        let ghost mut confirmation = attack_roll;
        let ghost mut crit_damage_roll = damage_roll;

        let mut stage = AttackStage::begin(attack_roll, damage_roll);
        if stage.awaits_confirmation() {
            let crit_attack_roll = Dice::roll_d20(&self.level, &defender.defense);
            proof {
                confirmation = crit_attack_roll;
            }
            stage = stage.confirm(crit_attack_roll);
            if stage.awaits_crit_damage() {
                let second_damage_roll: u8 = self.damage_roll();
                proof {
                    crit_damage_roll = second_damage_roll;
                }
                stage = stage.finish(second_damage_roll);
            }
        }
        assert(stage == AttackStage::Resolved(
            AttackResult::outcome(attack_roll, damage_roll, confirmation, crit_damage_roll),
        ));
        stage.result().unwrap()
    }

    /// Spends one heal, if one is left, on a roll of one six-sided die: the
    /// health rises by what the die shows, also beyond the maximum. With no
    /// heal left nothing changes.
    pub fn heal(&mut self) -> (healed: Option<u8>)
        requires
            old(self).heals_available > 0 ==> old(self).current_health + 6 <= i8::MAX,
        ensures
            old(self).heals_available == 0 ==> healed is None && *final(self) == *old(self),
            old(self).heals_available > 0 ==> (healed matches Some(amount) && 1 <= amount <= 6
                && *final(self) == old(self).healed(amount)),
    {
        if self.heals_available == 0 {
            return None;
        }
        let d6_roll: u8 = Dice::simple(6).roll().unwrap();
        self.heals_available -= 1;
        self.current_health += d6_roll as i8;
        Some(d6_roll)
    }

    /// Rolls the damage of the goblin's weapon. A weapon whose dice cannot
    /// be rolled deals 1.
    pub fn damage_roll(&self) -> (damage: u8)
        requires
            self.weapon@.max_damage() <= u8::MAX,
        ensures
            self.weapon@.deals(damage as nat),
    {
        let roll = self.weapon.damage_dice().roll();
        match roll {
            Some(result) => result,
            None => 1,
        }
    }

    /// Takes `damage` off the goblin's health, which may fall below zero.
    pub fn take_damage(&mut self, damage: u8)
        requires
            old(self).current_health - damage >= i8::MIN,
        ensures
            *final(self) == old(self).damaged(damage),
    {
        self.current_health = (self.current_health as i16 - damage as i16) as i8;
    }

    /// Counts one more win.
    pub fn win(&mut self)
        requires
            old(self).wins < u8::MAX,
        ensures
            *final(self) == old(self).won(),
    {
        self.wins += 1;
    }
}

/// Wins add up: after `times` wins the goblin has exactly `times` more than
/// before, so never fewer, and nothing else about it has changed.
pub proof fn lemma_wins_add_up(goblin: Goblin, times: nat)
    requires
        goblin.wins + times <= u8::MAX,
    ensures
        goblin.won_times(times) == (Goblin { wins: (goblin.wins + times) as u8, ..goblin }),
        goblin.won_times(times).wins == goblin.wins + times,
        goblin.won_times(times).wins >= goblin.wins,
    decreases times,
{
    if times > 0 {
        lemma_wins_add_up(goblin, (times - 1) as nat);
    }
}

/// An attack that hits deals what one damage roll of the weapon can deal,
/// and a critical hit the sum of two such rolls.
pub proof fn lemma_attack_damage(attacker: Goblin, defender: Goblin, result: AttackResult)
    requires
        attacker.can_inflict(&defender, result),
        2 * attacker.weapon@.max_damage() <= u8::MAX,
    ensures
        result matches AttackResult::Hit { damage_roll, .. } ==> attacker.weapon@.deals(
            damage_roll as nat,
        ),
        result matches AttackResult::Crit { damage_roll } ==> exists|first: u8, second: u8|
            attacker.weapon@.deals(first as nat) && attacker.weapon@.deals(second as nat)
                && damage_roll == #[trigger] (first + second),
{
    let (primary, damage_roll, confirmation, crit_damage_roll) = choose|
        primary: D20Roll,
        damage_roll: u8,
        confirmation: D20Roll,
        crit_damage_roll: u8,
    |
        {
            &&& primary.possible(attacker.level, defender.defense)
            &&& confirmation.possible(attacker.level, defender.defense)
            &&& attacker.weapon@.deals(damage_roll as nat)
            &&& attacker.weapon@.deals(crit_damage_roll as nat)
            &&& result == #[trigger] AttackResult::outcome(
                primary,
                damage_roll,
                confirmation,
                crit_damage_roll,
            )
        };
    if result is Crit {
        assert(result->Crit_damage_roll == damage_roll + crit_damage_roll);
    }
}

/// A weapon whose dice cannot be rolled still strikes: every hit with it
/// deals 1, and every critical hit 2.
pub proof fn lemma_unrollable_dice_deal_one(
    attacker: Goblin,
    defender: Goblin,
    result: AttackResult,
)
    requires
        attacker.can_inflict(&defender, result),
        !attacker.weapon@.attack_dice.rollable(),
    ensures
        result matches AttackResult::Hit { damage_roll, .. } ==> damage_roll == 1,
        result matches AttackResult::Crit { damage_roll } ==> damage_roll == 2,
{
    lemma_attack_damage(attacker, defender, result);
}

/// A new goblin of the given name. Its level and its heals are each a roll
/// of one four-sided die; its health is a roll of as many twenty-sided dice
/// as it has levels, plus its level; its defense a roll of four four-sided
/// dice, plus its level; its weapon is picked by chance. It starts in full
/// health and without a win.
pub fn birth_goblin(name: String) -> (goblin: Goblin)
    ensures
        goblin.name == name,
        (DiceView { amount: 1, sides: 4, modifier: 0 }).yields(goblin.level as nat),
        (DiceView {
            amount: goblin.level as nat,
            sides: 20,
            modifier: goblin.level as nat,
        }).yields(goblin.max_health as nat),
        goblin.current_health == goblin.max_health,
        (DiceView { amount: 1, sides: 4, modifier: 0 }).yields(goblin.heals_available as nat),
        (DiceView { amount: 4, sides: 4, modifier: goblin.level as nat }).yields(
            goblin.defense as nat,
        ),
        goblin.weapon@.is_common(),
        goblin.wins == 0,
{
    let level: u8 = Dice::simple(4).roll().unwrap();

    let health: u8 = Dice::new(level, 20, level).roll().unwrap();
    let heals_available: u8 = Dice::simple(4).roll().unwrap();

    let defense: u8 = Dice::new(4, 4, level).roll().unwrap();
    let weapon = random_weapon();

    Goblin {
        name,
        level,
        max_health: health,
        current_health: health as i8,
        weapon,
        defense,
        wins: 0,
        heals_available,
    }
}

} // verus!
