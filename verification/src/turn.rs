//! One turn of a fight: the goblin whose turn it is heals or attacks, the
//! blow lands, the log grows, and a fallen defender is counted as a win.

use crate::combat::AttackResult;
use crate::goblin::{lemma_attack_damage, Goblin};
use crate::text::{decimal, push_decimal};
use vstd::prelude::*;

verus! {

/// What a goblin did on its turn: it healed by an amount, or it attacked
/// with a result.
#[derive(Clone, Copy, Debug, PartialEq, Eq, Structural)]
pub enum Action {
    Healed(u8),
    Attacked(AttackResult),
}

/// The fight after a turn: both goblins, the lines of the log, and whether
/// the turn was won.
pub struct TurnView {
    pub attacker: Goblin,
    pub defender: Goblin,
    pub log: Seq<Seq<char>>,
    pub won: bool,
}

impl Action {
    /// The damage that the action does to the defender: that of a hit or a
    /// critical hit, and none otherwise.
    pub open spec fn damage(self) -> u8 {
        match self {
            Action::Attacked(AttackResult::Hit { damage_roll, .. }) => damage_roll,
            Action::Attacked(AttackResult::Crit { damage_roll }) => damage_roll,
            _ => 0,
        }
    }

    /// The line that the log gets for the action of the goblin `name`.
    pub open spec fn line(self, name: Seq<char>) -> Seq<char> {
        match self {
            Action::Healed(amount) => name + " heals for "@ + decimal(amount as nat),
            Action::Attacked(AttackResult::Hit { attack_roll, damage_roll }) => name + " rolls "@
                + decimal(attack_roll as nat) + " - Hit for "@ + decimal(damage_roll as nat),
            Action::Attacked(AttackResult::Crit { damage_roll }) => name + " Critical Hit! for "@
                + decimal(damage_roll as nat),
            Action::Attacked(AttackResult::Miss { attack_roll }) => name + " rolls "@ + decimal(
                attack_roll as nat,
            ) + " - Miss"@,
        }
    }

    /// The damage that the action does to the defender.
    pub fn damage_dealt(&self) -> (damage: u8)
        ensures
            damage == self.damage(),
    {
        match self {
            Action::Attacked(AttackResult::Hit { attack_roll: _, damage_roll }) => *damage_roll,
            Action::Attacked(AttackResult::Crit { damage_roll }) => *damage_roll,
            _ => 0,
        }
    }

    /// The line that the log gets for the action of the goblin `name`.
    pub fn log_line(&self, name: &String) -> (text: String)
        ensures
            text@ == self.line(name@),
    {
        let mut text = name.clone();
        match self {
            Action::Healed(amount) => {
                text.append(" heals for ");
                push_decimal(&mut text, *amount);
            },
            Action::Attacked(AttackResult::Hit { attack_roll, damage_roll }) => {
                text.append(" rolls ");
                push_decimal(&mut text, *attack_roll);
                text.append(" - Hit for ");
                push_decimal(&mut text, *damage_roll);
            },
            Action::Attacked(AttackResult::Crit { damage_roll }) => {
                text.append(" Critical Hit! for ");
                push_decimal(&mut text, *damage_roll);
            },
            Action::Attacked(AttackResult::Miss { attack_roll }) => {
                text.append(" rolls ");
                push_decimal(&mut text, *attack_roll);
                text.append(" - Miss");
            },
        }
        assert(text@ =~= self.line(name@));
        text
    }
}

impl Goblin {
    /// The goblin is low on health and has a heal left: it heals rather than
    /// attacks.
    pub open spec fn wants_heal(self) -> bool {
        self.current_health <= 10 && self.heals_available > 0
    }

    /// The goblin's health is used up.
    pub open spec fn has_fallen(self) -> bool {
        self.current_health <= 0
    }

    /// Both are the same goblin as it was born: name, level, maximum
    /// health, weapon and defense agree.
    pub open spec fn same_build(self, other: Goblin) -> bool {
        &&& self.name == other.name
        &&& self.level == other.level
        &&& self.max_health == other.max_health
        &&& self.weapon == other.weapon
        &&& self.defense == other.defense
    }

    /// The goblin after its action: a heal has changed it, an attack has
    /// not.
    pub open spec fn acted(self, action: Action) -> Goblin {
        match action {
            Action::Healed(amount) => self.healed(amount),
            Action::Attacked(_) => self,
        }
    }

    /// `action` is what this goblin can do on its turn against `defender`:
    /// a heal by a roll of one six-sided die when it wants to heal, and
    /// otherwise an attack with a result that it can inflict.
    pub open spec fn can_do(self, defender: Goblin, action: Action) -> bool {
        match action {
            Action::Healed(amount) => self.wants_heal() && 1 <= amount <= 6,
            Action::Attacked(result) => !self.wants_heal() && self.can_inflict(&defender, result),
        }
    }

    /// Whether the goblin heals rather than attacks.
    pub fn should_heal(&self) -> (heals: bool)
        ensures
            heals == self.wants_heal(),
    {
        self.current_health <= 10 && self.heals_available > 0
    }

    /// Whether the goblin's health is used up.
    pub fn is_dead(&self) -> (dead: bool)
        ensures
            dead == self.has_fallen(),
    {
        self.current_health <= 0
    }

    /// Takes the goblin's turn against `defender`: it heals when it wants
    /// to, and attacks otherwise. The defender is not changed.
    pub fn act(&mut self, defender: &Goblin) -> (action: Action)
        requires
            !old(self).wants_heal() ==> old(self).fit_to_attack(),
        ensures
            old(self).can_do(*defender, action),
            *final(self) == old(self).acted(action),
    {
        if self.should_heal() {
            let heal_amount: u8 = self.heal().unwrap();
            Action::Healed(heal_amount)
        } else {
            let attack_result = self.attacks(defender);
            Action::Attacked(attack_result)
        }
    }
}

/// The defender can be dead at the end of a turn of `attacker`: it is
/// dead already when the attacker heals, or the hardest blow of an attack,
/// a critical hit of two highest damage rolls, takes its health to zero.
pub open spec fn can_fall(attacker: Goblin, defender: Goblin) -> bool {
    if attacker.wants_heal() {
        defender.has_fallen()
    } else {
        defender.current_health - 2 * attacker.weapon@.max_damage() <= 0
    }
}

/// The numbers of a turn of `attacker` against `defender` fit into a byte:
/// where the attacker does not heal, its attack and the defender's health
/// after the hardest blow; and one more win, where the defender can fall.
pub open spec fn turn_fits(attacker: Goblin, defender: Goblin) -> bool {
    &&& !attacker.wants_heal() ==> {
        &&& attacker.fit_to_attack()
        &&& defender.current_health - 2 * attacker.weapon@.max_damage() >= i8::MIN
    }
    &&& can_fall(attacker, defender) ==> attacker.wins < u8::MAX
}

/// Whether the numbers of a turn of `attacker` against `defender` fit into
/// a byte.
pub fn can_take_turn(attacker: &Goblin, defender: &Goblin) -> (fit: bool)
    ensures
        fit == turn_fits(*attacker, *defender),
{
    if attacker.should_heal() {
        return !defender.is_dead() || attacker.wins < u8::MAX;
    }
    if !attacker.can_attack() {
        return false;
    }
    let hardest: i32 = 2 * (attacker.weapon.max_damage() as i32);
    let weakest: i32 = defender.current_health as i32 - hardest;
    weakest >= -128 && (weakest > 0 || attacker.wins < u8::MAX)
}

/// The fight after the goblin `attacker` has done `action`, which has
/// already changed the attacker itself: the log gets the line of the action
/// and the defender takes its damage. A defender whose health is used up
/// then has died: the log says so, and the attacker counts a win.
pub open spec fn settled(
    attacker: Goblin,
    defender: Goblin,
    log: Seq<Seq<char>>,
    action: Action,
) -> TurnView {
    let hurt = defender.damaged(action.damage());
    let lines = log.push(action.line(attacker.name@));
    if hurt.has_fallen() {
        TurnView {
            attacker: attacker.won(),
            defender: hurt,
            log: lines.push(defender.name@ + " Died"@),
            won: true,
        }
    } else {
        TurnView { attacker, defender: hurt, log: lines, won: false }
    }
}

/// The fight after a whole turn in which `attacker` did `action`.
pub open spec fn turn(
    attacker: Goblin,
    defender: Goblin,
    log: Seq<Seq<char>>,
    action: Action,
) -> TurnView {
    settled(attacker.acted(action), defender, log, action)
}

/// Over a turn the attacker's heals never grow and its wins never shrink;
/// the defender keeps both, and neither changes its name, level, maximum
/// health, weapon or defense.
pub proof fn lemma_turn_keeps_counters(
    attacker: Goblin,
    defender: Goblin,
    log: Seq<Seq<char>>,
    action: Action,
)
    requires
        attacker.can_do(defender, action),
        turn(attacker, defender, log, action).won ==> attacker.wins < u8::MAX,
    ensures
        turn(attacker, defender, log, action).attacker.heals_available
            <= attacker.heals_available,
        turn(attacker, defender, log, action).attacker.wins >= attacker.wins,
        turn(attacker, defender, log, action).attacker.wins == attacker.wins + (if turn(
            attacker,
            defender,
            log,
            action,
        ).won {
            1int
        } else {
            0int
        }),
        turn(attacker, defender, log, action).defender.heals_available
            == defender.heals_available,
        turn(attacker, defender, log, action).defender.wins == defender.wins,
        turn(attacker, defender, log, action).attacker.same_build(attacker),
        turn(attacker, defender, log, action).defender.same_build(defender),
{
}

/// Lets an action take effect that the attacker has done: writes its line,
/// takes its damage off the defender, and counts the win if the defender
/// has died of it. Says whether the attacker has won.
pub fn settle(
    action: Action,
    attacker: &mut Goblin,
    defender: &mut Goblin,
    log: &mut Vec<String>,
) -> (won: bool)
    requires
        old(defender).current_health - action.damage() >= i8::MIN,
        old(defender).damaged(action.damage()).has_fallen() ==> old(attacker).wins < u8::MAX,
    ensures
        (TurnView {
            attacker: *final(attacker),
            defender: *final(defender),
            log: final(log).deep_view(),
            won,
        }) == settled(*old(attacker), *old(defender), old(log).deep_view(), action),
{
    let ghost before = log.deep_view();
    let line = action.log_line(&attacker.name);
    defender.take_damage(action.damage_dealt());
    log.push(line);
    assert(log.deep_view() =~= before.push(action.line(attacker.name@)));

    if defender.is_dead() {
        let ghost lines = log.deep_view();
        let mut obituary = defender.name.clone();
        obituary.append(" Died");
        log.push(obituary);
        assert(log.deep_view() =~= lines.push(defender.name@ + " Died"@));
        attacker.win();
        return true;
    }
    false
}

/// One turn of a fight: `attacker` heals or attacks, the log tells of it,
/// and the defender takes the damage. Says whether the defender has died
/// and the attacker has won.
pub fn action_log(attacker: &mut Goblin, defender: &mut Goblin, log: &mut Vec<String>) -> (won:
    bool)
    requires
        turn_fits(*old(attacker), *old(defender)),
    ensures
        exists|action: Action|
            old(attacker).can_do(*old(defender), action) && (TurnView {
                attacker: *final(attacker),
                defender: *final(defender),
                log: final(log).deep_view(),
                won,
            }) == #[trigger] turn(*old(attacker), *old(defender), old(log).deep_view(), action),
{
    let action = attacker.act(defender);
    proof {
        if let Action::Attacked(result) = action {
            lemma_attack_damage(*old(attacker), *old(defender), result);
        }
    }
    let won = settle(action, attacker, defender, log);
    assert((TurnView {
        attacker: *attacker,
        defender: *defender,
        log: log.deep_view(),
        won,
    }) == turn(*old(attacker), *old(defender), old(log).deep_view(), action));
    won
}

} // verus!
