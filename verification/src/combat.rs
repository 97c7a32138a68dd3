//! Attack resolution: from the rolls of an attack to what it did.

use crate::d20::D20Roll;
use vstd::prelude::*;

verus! {

/// What an attack did.
#[derive(Clone, Copy, Debug, PartialEq, Eq, Structural)]
pub enum AttackResult {
    Miss { attack_roll: u8 },
    Hit { attack_roll: u8, damage_roll: u8 },
    Crit { damage_roll: u8 },
}

/// How far an attack has come. It starts with its primary roll and its
/// damage roll; a critical success then awaits a confirmation roll, and a
/// confirmed one a second damage roll.
#[derive(Clone, Copy, Debug, PartialEq, Eq, Structural)]
pub enum AttackStage {
    PendingConfirmation { attack_roll: u8, damage_roll: u8 },
    PendingCritDamage { damage_roll: u8 },
    Resolved(AttackResult),
}

impl AttackStage {
    /// The stage after the primary roll. A miss and a critical failure
    /// resolve to a miss, a hit to a hit with the damage rolled; a critical
    /// success awaits its confirmation.
    pub open spec fn begun(primary: D20Roll, damage_roll: u8) -> AttackStage {
        match primary {
            D20Roll::Miss(roll) | D20Roll::CriticalFailure(roll) => AttackStage::Resolved(
                AttackResult::Miss { attack_roll: roll },
            ),
            D20Roll::Hit(roll) => AttackStage::Resolved(
                AttackResult::Hit { attack_roll: roll, damage_roll },
            ),
            D20Roll::CriticalSuccess(roll) => AttackStage::PendingConfirmation {
                attack_roll: roll,
                damage_roll,
            },
        }
    }

    /// The stage after the confirmation roll. A confirmation that fails
    /// turns the critical success into a plain hit with the first roll and
    /// the damage already rolled; one that succeeds awaits the second damage
    /// roll. A stage that awaits no confirmation stays as it is.
    pub open spec fn confirmed(self, confirmation: D20Roll) -> AttackStage {
        match self {
            AttackStage::PendingConfirmation { attack_roll, damage_roll } => {
                if confirmation.succeeds() {
                    AttackStage::PendingCritDamage { damage_roll }
                } else {
                    AttackStage::Resolved(AttackResult::Hit { attack_roll, damage_roll })
                }
            },
            _ => self,
        }
    }

    /// The stage after the second damage roll: a critical hit for the sum of
    /// both damage rolls. A stage that awaits no second damage roll stays as
    /// it is.
    pub open spec fn finished(self, crit_damage_roll: u8) -> AttackStage {
        match self {
            AttackStage::PendingCritDamage { damage_roll } => AttackStage::Resolved(
                AttackResult::Crit { damage_roll: (damage_roll + crit_damage_roll) as u8 },
            ),
            _ => self,
        }
    }

    /// The stage after the primary roll and the damage roll.
    pub fn begin(primary: D20Roll, damage_roll: u8) -> (stage: AttackStage)
        ensures
            stage == Self::begun(primary, damage_roll),
    {
        match primary {
            D20Roll::Miss(roll) | D20Roll::CriticalFailure(roll) => AttackStage::Resolved(
                AttackResult::Miss { attack_roll: roll },
            ),
            D20Roll::Hit(roll) => AttackStage::Resolved(
                AttackResult::Hit { attack_roll: roll, damage_roll },
            ),
            D20Roll::CriticalSuccess(roll) => AttackStage::PendingConfirmation {
                attack_roll: roll,
                damage_roll,
            },
        }
    }

    /// The stage after the confirmation roll.
    pub fn confirm(self, confirmation: D20Roll) -> (stage: AttackStage)
        ensures
            stage == self.confirmed(confirmation),
    {
        match self {
            AttackStage::PendingConfirmation { attack_roll, damage_roll } => {
                if confirmation.is_success() {
                    AttackStage::PendingCritDamage { damage_roll }
                } else {
                    AttackStage::Resolved(AttackResult::Hit { attack_roll, damage_roll })
                }
            },
            AttackStage::PendingCritDamage { damage_roll } => AttackStage::PendingCritDamage {
                damage_roll,
            },
            AttackStage::Resolved(result) => AttackStage::Resolved(result),
        }
    }

    /// The stage after the second damage roll.
    pub fn finish(self, crit_damage_roll: u8) -> (stage: AttackStage)
        requires
            self matches AttackStage::PendingCritDamage { damage_roll } ==> damage_roll
                + crit_damage_roll <= u8::MAX,
        ensures
            stage == self.finished(crit_damage_roll),
    {
        match self {
            AttackStage::PendingCritDamage { damage_roll } => {
                let total: u8 = damage_roll + crit_damage_roll;
                AttackStage::Resolved(AttackResult::Crit { damage_roll: total })
            },
            AttackStage::PendingConfirmation { attack_roll, damage_roll } => {
                AttackStage::PendingConfirmation { attack_roll, damage_roll }
            },
            AttackStage::Resolved(result) => AttackStage::Resolved(result),
        }
    }

    /// Whether the attack awaits its confirmation roll.
    pub fn awaits_confirmation(&self) -> (awaited: bool)
        ensures
            awaited == (*self is PendingConfirmation),
    {
        match self {
            AttackStage::PendingConfirmation { .. } => true,
            _ => false,
        }
    }

    /// Whether the attack awaits its second damage roll.
    pub fn awaits_crit_damage(&self) -> (awaited: bool)
        ensures
            awaited == (*self is PendingCritDamage),
    {
        match self {
            AttackStage::PendingCritDamage { .. } => true,
            _ => false,
        }
    }

    /// The result of the attack, once it is resolved.
    pub fn result(&self) -> (result: Option<AttackResult>)
        ensures
            result == (match *self {
                AttackStage::Resolved(done) => Some(done),
                _ => None,
            }),
    {
        match self {
            AttackStage::Resolved(done) => Some(*done),
            _ => None,
        }
    }
}

impl AttackResult {
    /// What an attack does whose rolls came out as given: the primary roll,
    /// the damage roll, the confirmation roll and the second damage roll.
    /// The last two count only after a critical success, the last only when
    /// the confirmation succeeds too.
    pub open spec fn outcome(
        primary: D20Roll,
        damage_roll: u8,
        confirmation: D20Roll,
        crit_damage_roll: u8,
    ) -> AttackResult {
        match primary {
            D20Roll::Miss(roll) | D20Roll::CriticalFailure(roll) => AttackResult::Miss {
                attack_roll: roll,
            },
            D20Roll::Hit(roll) => AttackResult::Hit { attack_roll: roll, damage_roll },
            D20Roll::CriticalSuccess(roll) => if confirmation.succeeds() {
                AttackResult::Crit { damage_roll: (damage_roll + crit_damage_roll) as u8 }
            } else {
                AttackResult::Hit { attack_roll: roll, damage_roll }
            },
        }
    }

    /// Resolves an attack from all four of its rolls, stage by stage.
    pub fn resolve(
        primary: D20Roll,
        damage_roll: u8,
        confirmation: D20Roll,
        crit_damage_roll: u8,
    ) -> (result: AttackResult)
        requires
            primary is CriticalSuccess && confirmation.succeeds() ==> damage_roll
                + crit_damage_roll <= u8::MAX,
        ensures
            result == Self::outcome(primary, damage_roll, confirmation, crit_damage_roll),
    {
        let stage = AttackStage::begin(primary, damage_roll).confirm(confirmation).finish(
            crit_damage_roll,
        );
        stage.result().unwrap()
    }
}

/// The three stages, taken one after the other, resolve an attack to the
/// outcome of its four rolls.
pub proof fn lemma_stages_reach_outcome(
    primary: D20Roll,
    damage_roll: u8,
    confirmation: D20Roll,
    crit_damage_roll: u8,
)
    ensures
        AttackStage::begun(primary, damage_roll).confirmed(confirmation).finished(crit_damage_roll)
            == AttackStage::Resolved(
            AttackResult::outcome(primary, damage_roll, confirmation, crit_damage_roll),
        ),
{
}

/// A natural 20 whose confirmation is a natural 1 is a plain hit: it keeps
/// the first roll and the one damage roll, and the second damage roll does
/// not count.
pub proof fn lemma_failed_confirmation_downgrades(
    ability_modifier: u8,
    difficulty_score: u8,
    damage_roll: u8,
    crit_damage_roll: u8,
)
    ensures
        AttackResult::outcome(
            D20Roll::classified(20, ability_modifier, difficulty_score),
            damage_roll,
            D20Roll::classified(1, ability_modifier, difficulty_score),
            crit_damage_roll,
        ) == (AttackResult::Hit { attack_roll: 20, damage_roll }),
{
}

} // verus!
