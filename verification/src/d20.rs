//! The twenty-sided roll against a difficulty, and how it is classified.

use crate::dice::Dice;
use vstd::prelude::*;

verus! {

/// How a twenty-sided roll fared against a difficulty score. A natural 1 and
/// a natural 20 carry the face that the die showed; the other two carry the
/// total, the face plus the ability modifier.
#[derive(Clone, Copy, Debug, PartialEq, Eq, Structural)]
pub enum D20Roll {
    Hit(u8),
    Miss(u8),
    CriticalSuccess(u8),
    CriticalFailure(u8),
}

impl D20Roll {
    /// The classification of the face `d20_roll`. A natural 1 is a critical
    /// failure and a natural 20 a critical success, whatever the total; any
    /// other face hits when its total reaches the difficulty score, and
    /// misses when it stays below.
    pub open spec fn classified(d20_roll: u8, ability_modifier: u8, difficulty_score: u8) -> D20Roll {
        let total = (d20_roll + ability_modifier) as u8;
        if d20_roll == 1 {
            D20Roll::CriticalFailure(d20_roll)
        } else if d20_roll == 20 {
            D20Roll::CriticalSuccess(d20_roll)
        } else if d20_roll + ability_modifier >= difficulty_score {
            D20Roll::Hit(total)
        } else {
            D20Roll::Miss(total)
        }
    }

    /// Some face of a twenty-sided die is classified as `self`.
    pub open spec fn possible(self, ability_modifier: u8, difficulty_score: u8) -> bool {
        exists|d20_roll: u8|
            1 <= d20_roll <= 20 && self == #[trigger] Self::classified(
                d20_roll,
                ability_modifier,
                difficulty_score,
            )
    }

    /// The roll is a hit or a critical success.
    pub open spec fn succeeds(self) -> bool {
        self is Hit || self is CriticalSuccess
    }

    /// Classifies the face `d20_roll` of a twenty-sided die.
    pub fn classify(d20_roll: u8, ability_modifier: u8, difficulty_score: u8) -> (outcome: D20Roll)
        requires
            d20_roll + ability_modifier <= u8::MAX,
        ensures
            outcome == Self::classified(d20_roll, ability_modifier, difficulty_score),
    {
        let total_roll: u8 = d20_roll + ability_modifier;
        if d20_roll == 1 {
            D20Roll::CriticalFailure(d20_roll)
        } else if d20_roll == 20 {
            D20Roll::CriticalSuccess(d20_roll)
        } else if total_roll >= difficulty_score {
            D20Roll::Hit(total_roll)
        } else {
            D20Roll::Miss(total_roll)
        }
    }

    /// Whether the roll is a hit or a critical success.
    pub fn is_success(&self) -> (success: bool)
        ensures
            success == self.succeeds(),
    {
        match self {
            D20Roll::Hit(_) | D20Roll::CriticalSuccess(_) => true,
            D20Roll::Miss(_) | D20Roll::CriticalFailure(_) => false,
        }
    }
}

/// A natural 1 is a critical failure and a natural 20 a critical success
/// whatever the modifier and the difficulty. Any other face is a hit exactly
/// when its total is at least the difficulty score, and a miss otherwise;
/// both carry the total.
pub proof fn lemma_classifier_boundary(d20_roll: u8, ability_modifier: u8, difficulty_score: u8)
    requires
        d20_roll + ability_modifier <= u8::MAX,
    ensures
        d20_roll == 1 ==> D20Roll::classified(d20_roll, ability_modifier, difficulty_score)
            == D20Roll::CriticalFailure(1),
        d20_roll == 20 ==> D20Roll::classified(d20_roll, ability_modifier, difficulty_score)
            == D20Roll::CriticalSuccess(20),
        d20_roll != 1 && d20_roll != 20 && d20_roll + ability_modifier >= difficulty_score
            ==> D20Roll::classified(d20_roll, ability_modifier, difficulty_score) == D20Roll::Hit(
            (d20_roll + ability_modifier) as u8,
        ),
        d20_roll != 1 && d20_roll != 20 && d20_roll + ability_modifier < difficulty_score
            ==> D20Roll::classified(d20_roll, ability_modifier, difficulty_score) == D20Roll::Miss(
            (d20_roll + ability_modifier) as u8,
        ),
{
}

impl Dice {
    /// Rolls a twenty-sided die and classifies the face it shows.
    pub fn roll_d20(ability_modifier: &u8, difficulty_score: &u8) -> (outcome: D20Roll)
        requires
            *ability_modifier + 20 <= u8::MAX,
        ensures
            outcome.possible(*ability_modifier, *difficulty_score),
    {
        let d20_roll: u8 = Dice::simple(20).roll().unwrap();
        D20Roll::classify(d20_roll, *ability_modifier, *difficulty_score)
    }
}

} // verus!
