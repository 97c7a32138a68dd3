//! Dice expressions: `amount` dice of `sides` sides each, plus a modifier.

use crate::rng::gen_range_inclusive;
use crate::text::{decimal, push_decimal};
use rand::thread_rng;
use vstd::prelude::*;

verus! {

/// A dice expression such as `4d4 +4`.
#[derive(Clone, Copy, Debug)]
pub struct Dice {
    amount: u8,
    sides: u8,
    modifier: u8,
}

/// What a dice expression stands for: how many dice, how many sides on
/// each, and what is added to their sum.
pub struct DiceView {
    pub amount: nat,
    pub sides: nat,
    pub modifier: nat,
}

impl View for Dice {
    type V = DiceView;

    closed spec fn view(&self) -> DiceView {
        DiceView {
            amount: self.amount as nat,
            sides: self.sides as nat,
            modifier: self.modifier as nat,
        }
    }
}

/// The sum of the faces shown by a sequence of dice.
pub open spec fn sum_of(rolls: Seq<u8>) -> nat
    decreases rolls.len(),
{
    if rolls.len() == 0 {
        0
    } else {
        sum_of(rolls.drop_last()) + rolls.last() as nat
    }
}

/// Every face of `rolls` is one that a die of `sides` sides can show.
pub open spec fn faces_within(rolls: Seq<u8>, sides: nat) -> bool {
    forall|k: int| 0 <= k < rolls.len() ==> 1 <= #[trigger] rolls[k] <= sides
}

impl DiceView {
    /// There is at least one die and it has at least one side.
    pub open spec fn rollable(self) -> bool {
        self.amount > 0 && self.sides > 0
    }

    /// The least total: every die shows 1.
    pub open spec fn min_total(self) -> nat {
        self.amount + self.modifier
    }

    /// The greatest total: every die shows its highest face.
    pub open spec fn max_total(self) -> nat {
        self.amount * self.sides + self.modifier
    }

    /// `total` is a total that a roll of this expression can come to.
    pub open spec fn yields(self, total: nat) -> bool {
        self.rollable() && self.min_total() <= total <= self.max_total()
    }

    /// The total of a roll in which the dice showed `rolls`.
    pub open spec fn total_of(self, rolls: Seq<u8>) -> nat {
        sum_of(rolls) + self.modifier
    }

    /// The notation of the expression: `<amount>d<sides>`, followed by a
    /// space and `+<modifier>` when the modifier is not zero.
    pub open spec fn notation(self) -> Seq<char> {
        let dice = decimal(self.amount) + seq!['d'] + decimal(self.sides);
        if self.modifier != 0 {
            dice + seq![' ', '+'] + decimal(self.modifier)
        } else {
            dice
        }
    }
}

/// Dice that each show a face between 1 and `sides` sum to at least their
/// number and to at most their number times `sides`.
pub proof fn lemma_sum_bounds(rolls: Seq<u8>, sides: nat)
    requires
        faces_within(rolls, sides),
    ensures
        rolls.len() <= sum_of(rolls) <= rolls.len() * sides,
    decreases rolls.len(),
{
    if rolls.len() > 0 {
        let front = rolls.drop_last();
        assert(faces_within(front, sides)) by {
            assert forall|k: int| 0 <= k < front.len() implies 1 <= #[trigger] front[k]
                <= sides by {
                assert(front[k] == rolls[k]);
            }
        }
        lemma_sum_bounds(front, sides);
        assert(front.len() * sides + sides == rolls.len() * sides) by (nonlinear_arith)
            requires
                front.len() + 1 == rolls.len(),
        ;
    } else {
        assert(rolls.len() * sides == 0) by (nonlinear_arith)
            requires
                rolls.len() == 0,
        ;
    }
}

/// The faces of a leading part of a roll sum to no more than all of them.
pub proof fn lemma_sum_prefix(rolls: Seq<u8>, n: int)
    requires
        0 <= n <= rolls.len(),
    ensures
        sum_of(rolls.take(n)) <= sum_of(rolls),
    decreases rolls.len(),
{
    if n == rolls.len() {
        assert(rolls.take(n) =~= rolls);
    } else {
        assert(rolls.drop_last().take(n) =~= rolls.take(n));
        lemma_sum_prefix(rolls.drop_last(), n);
    }
}

/// Whatever faces the dice show, the total of a roll lies between the
/// expression's least and greatest total.
pub proof fn lemma_total_within_range(dice: DiceView, rolls: Seq<u8>)
    requires
        rolls.len() == dice.amount,
        faces_within(rolls, dice.sides),
    ensures
        dice.min_total() <= dice.total_of(rolls) <= dice.max_total(),
{
    lemma_sum_bounds(rolls, dice.sides);
}

impl Dice {
    /// The expression of `amount` dice of `sides` sides each, plus `modifier`.
    pub fn new(amount: u8, sides: u8, modifier: u8) -> (dice: Dice)
        ensures
            dice@ == (DiceView {
                amount: amount as nat,
                sides: sides as nat,
                modifier: modifier as nat,
            }),
    {
        Dice { amount, sides, modifier }
    }

    /// A single die of `sides` sides with nothing added.
    pub fn simple(sides: u8) -> (dice: Dice)
        ensures
            dice@ == (DiceView { amount: 1, sides: sides as nat, modifier: 0 }),
    {
        Dice { amount: 1, sides, modifier: 0 }
    }

    /// Whether there is at least one die and it has at least one side.
    pub fn is_rollable(self) -> (rollable: bool)
        ensures
            rollable == self@.rollable(),
    {
        self.amount > 0 && self.sides > 0
    }

    /// The greatest total that the dice can come to.
    pub fn max_total(self) -> (max: u32)
        ensures
            max == self@.max_total(),
    {
        let amount: u32 = self.amount as u32;
        let sides: u32 = self.sides as u32;
        assert(amount * sides <= 255 * 255) by (nonlinear_arith)
            requires
                amount <= 255,
                sides <= 255,
        ;
        amount * sides + self.modifier as u32
    }

    /// The total of a roll in which the dice showed `rolls`: their sum plus
    /// the modifier.
    pub fn total(self, rolls: &Vec<u8>) -> (total: u8)
        requires
            self@.total_of(rolls@) <= u8::MAX,
        ensures
            total == self@.total_of(rolls@),
    {
        let mut sum: u8 = 0;
        let mut i: usize = 0;
        while i < rolls.len()
            invariant
                i <= rolls.len(),
                sum == sum_of(rolls@.take(i as int)),
                sum_of(rolls@) + self.modifier <= u8::MAX,
            decreases rolls.len() - i,
        {
            proof {
                assert(rolls@.take(i + 1).drop_last() =~= rolls@.take(i as int));
                lemma_sum_prefix(rolls@, i + 1);
            }
            sum = sum + rolls[i];
            i += 1;
        }
        assert(rolls@.take(i as int) =~= rolls@);
        sum + self.modifier
    }

    /// Rolls the dice. There is no roll when there is no die or the dice
    /// have no side; otherwise each die shows a face between 1 and `sides`,
    /// drawn from the thread's generator, and the result is their total.
    pub fn roll(self) -> (rolled: Option<u8>)
        requires
            self@.rollable() ==> self@.max_total() <= u8::MAX,
        ensures
            rolled is None <==> !self@.rollable(),
            rolled matches Some(total) ==> self@.yields(total as nat),
    {
        if self.amount == 0 || self.sides == 0 {
            return None;
        }
        let mut rng = thread_rng();
        let mut rolls: Vec<u8> = Vec::new();
        let mut i: u8 = 0;
        while i < self.amount
            invariant
                i <= self.amount,
                self.sides >= 1,
                rolls@.len() == i,
                faces_within(rolls@, self.sides as nat),
            decreases self.amount - i,
        {
            let face = gen_range_inclusive(&mut rng, 1, self.sides);
            rolls.push(face);
            i += 1;
        }
        proof {
            lemma_total_within_range(self@, rolls@);
        }
        Some(self.total(&rolls))
    }

    /// The notation of the expression, as in `4d4 +4` and `1d4`.
    pub fn description(self) -> (text: String)
        ensures
            text@ == self@.notation(),
    {
        let mut text = String::new();
        push_decimal(&mut text, self.amount);
        text.append("d");
        push_decimal(&mut text, self.sides);
        if self.modifier != 0 {
            text.append(" +");
            push_decimal(&mut text, self.modifier);
        }
        proof {
            reveal_strlit("d");
            reveal_strlit(" +");
            assert("d"@ =~= seq!['d']);
            assert(" +"@ =~= seq![' ', '+']);
            assert(text@ =~= self@.notation());
        }
        text
    }
}

} // verus!
