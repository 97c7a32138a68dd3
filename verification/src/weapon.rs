//! Weapons: a name, a bonus, and the dice that deal the damage.

use crate::d20::D20Roll;
use crate::dice::{Dice, DiceView};
use crate::text::{decimal, push_decimal};
use vstd::prelude::*;

verus! {

/// A weapon. Its bonus is shown behind its name and is part of its damage
/// dice as their modifier.
#[derive(Clone, Debug)]
pub struct Weapon {
    name: String,
    modifier: u8,
    pub attack_dice: Dice,
}

/// What a weapon stands for.
pub struct WeaponView {
    pub name: Seq<char>,
    pub modifier: nat,
    pub attack_dice: DiceView,
}

impl View for Weapon {
    type V = WeaponView;

    closed spec fn view(&self) -> WeaponView {
        WeaponView {
            name: self.name@,
            modifier: self.modifier as nat,
            attack_dice: self.attack_dice@,
        }
    }
}

impl WeaponView {
    /// The name as it is shown: the plain name, followed by a space and
    /// `+<modifier>` when the modifier is not zero.
    pub open spec fn display_name(self) -> Seq<char> {
        if self.modifier != 0 {
            self.name + seq![' ', '+'] + decimal(self.modifier)
        } else {
            self.name
        }
    }

    /// `damage` is a damage that one roll for this weapon can deal: a total
    /// of its dice, or 1 where they cannot be rolled.
    pub open spec fn deals(self, damage: nat) -> bool {
        if self.attack_dice.rollable() {
            self.attack_dice.yields(damage)
        } else {
            damage == 1
        }
    }

    /// The most that one roll for this weapon can deal.
    pub open spec fn max_damage(self) -> nat {
        if self.attack_dice.rollable() {
            self.attack_dice.max_total()
        } else {
            1
        }
    }

    /// The weapon is one of the catalog, with a bonus of at most 5.
    pub open spec fn is_common(self) -> bool {
        exists|kind_roll: u8, modifier: u8|
            1 <= kind_roll <= 6 && modifier <= 5 && self == #[trigger] CommonWeapon::picked(
                kind_roll,
            ).weapon(modifier as nat)
    }
}

impl Weapon {
    /// A weapon of the given name, bonus and damage dice.
    pub fn new(name: String, modifier: u8, attack_dice: Dice) -> (weapon: Weapon)
        ensures
            weapon@ == (WeaponView {
                name: name@,
                modifier: modifier as nat,
                attack_dice: attack_dice@,
            }),
    {
        Weapon { name, modifier, attack_dice }
    }

    /// The dice that deal the weapon's damage.
    pub fn damage_dice(&self) -> (dice: Dice)
        ensures
            dice@ == self@.attack_dice,
    {
        self.attack_dice
    }

    /// The most that one roll for this weapon can deal.
    pub fn max_damage(&self) -> (max: u32)
        ensures
            max == self@.max_damage(),
    {
        if self.attack_dice.is_rollable() {
            self.attack_dice.max_total()
        } else {
            1
        }
    }

    /// The name as it is shown, as in `Dagger` and `Dagger +4`.
    pub fn name(&self) -> (text: String)
        ensures
            text@ == self@.display_name(),
    {
        let mut text = self.name.clone();
        if self.modifier != 0 {
            text.append(" +");
            push_decimal(&mut text, self.modifier);
            proof {
                reveal_strlit(" +");
                assert(" +"@ =~= seq![' ', '+']);
            }
        }
        text
    }
}

/// The weapons that a goblin may be born with.
#[derive(Clone, Copy, Debug, PartialEq, Eq, Structural)]
pub enum CommonWeapon {
    Dagger,
    Shortsword,
    Warhammer,
    Greatsword,
    Halberd,
    Greataxe,
}

impl CommonWeapon {
    /// The name of the weapon.
    pub open spec fn title(self) -> Seq<char> {
        match self {
            CommonWeapon::Dagger => "Dagger"@,
            CommonWeapon::Shortsword => "Shortsword"@,
            CommonWeapon::Warhammer => "Warhammer"@,
            CommonWeapon::Greatsword => "Greatsword"@,
            CommonWeapon::Halberd => "Halberd"@,
            CommonWeapon::Greataxe => "Greataxe"@,
        }
    }

    /// How many damage dice the weapon rolls.
    pub open spec fn dice_amount(self) -> nat {
        match self {
            CommonWeapon::Greatsword => 2,
            _ => 1,
        }
    }

    /// How many sides each damage die of the weapon has.
    pub open spec fn dice_sides(self) -> nat {
        match self {
            CommonWeapon::Dagger => 4,
            CommonWeapon::Shortsword => 6,
            CommonWeapon::Warhammer => 8,
            CommonWeapon::Greatsword => 6,
            CommonWeapon::Halberd => 10,
            CommonWeapon::Greataxe => 12,
        }
    }

    /// The weapon of this kind with the bonus `modifier`: the bonus stands
    /// behind the name and is the modifier of the damage dice.
    pub open spec fn weapon(self, modifier: nat) -> WeaponView {
        WeaponView {
            name: self.title(),
            modifier,
            attack_dice: DiceView { amount: self.dice_amount(), sides: self.dice_sides(), modifier },
        }
    }

    /// The kind that a six-sided roll picks: 1 to 6 in the order of the
    /// catalog, and a dagger for any other number.
    pub open spec fn picked(roll: u8) -> CommonWeapon {
        if roll == 2 {
            CommonWeapon::Shortsword
        } else if roll == 3 {
            CommonWeapon::Warhammer
        } else if roll == 4 {
            CommonWeapon::Greatsword
        } else if roll == 5 {
            CommonWeapon::Halberd
        } else if roll == 6 {
            CommonWeapon::Greataxe
        } else {
            CommonWeapon::Dagger
        }
    }

    /// The weapon of this kind with the bonus `modifier`.
    pub fn new(self, modifier: u8) -> (weapon: Weapon)
        ensures
            weapon@ == self.weapon(modifier as nat),
    {
        match self {
            CommonWeapon::Dagger => Weapon::new(
                "Dagger".to_owned(),
                modifier,
                Dice::new(1, 4, modifier),
            ),
            CommonWeapon::Shortsword => Weapon::new(
                "Shortsword".to_owned(),
                modifier,
                Dice::new(1, 6, modifier),
            ),
            CommonWeapon::Warhammer => Weapon::new(
                "Warhammer".to_owned(),
                modifier,
                Dice::new(1, 8, modifier),
            ),
            CommonWeapon::Greatsword => Weapon::new(
                "Greatsword".to_owned(),
                modifier,
                Dice::new(2, 6, modifier),
            ),
            CommonWeapon::Halberd => Weapon::new(
                "Halberd".to_owned(),
                modifier,
                Dice::new(1, 10, modifier),
            ),
            CommonWeapon::Greataxe => Weapon::new(
                "Greataxe".to_owned(),
                modifier,
                Dice::new(1, 12, modifier),
            ),
        }
    }

    /// The kind that a six-sided roll picks.
    pub fn pick(roll: u8) -> (kind: CommonWeapon)
        ensures
            kind == Self::picked(roll),
    {
        match roll {
            1 => CommonWeapon::Dagger,
            2 => CommonWeapon::Shortsword,
            3 => CommonWeapon::Warhammer,
            4 => CommonWeapon::Greatsword,
            5 => CommonWeapon::Halberd,
            6 => CommonWeapon::Greataxe,
            _ => CommonWeapon::Dagger,
        }
    }
}

/// Where a new weapon's bonus comes from: it is fixed, or it is rolled.
#[derive(Clone, Copy, Debug)]
pub enum WeaponBonus {
    Fixed(u8),
    Rolled(Dice),
}

impl WeaponBonus {
    /// The bonus that the roll for a new weapon earns: a hit earns a roll of
    /// one four-sided die, a critical success a bonus of 5, and a miss or a
    /// critical failure none.
    pub fn earned(outcome: D20Roll) -> (bonus: WeaponBonus)
        ensures
            outcome is Hit ==> (bonus matches WeaponBonus::Rolled(dice) && dice@ == (DiceView {
                amount: 1,
                sides: 4,
                modifier: 0,
            })),
            outcome is CriticalSuccess ==> (bonus matches WeaponBonus::Fixed(fixed) && fixed == 5),
            outcome is Miss || outcome is CriticalFailure ==> (bonus matches WeaponBonus::Fixed(
                fixed,
            ) && fixed == 0),
    {
        match outcome {
            D20Roll::Hit(_) => WeaponBonus::Rolled(Dice::simple(4)),
            D20Roll::CriticalSuccess(_) => WeaponBonus::Fixed(5),
            _ => WeaponBonus::Fixed(0),
        }
    }
}

/// A weapon picked by chance: its kind by a roll of one six-sided die, its
/// bonus by a twenty-sided roll without modifier against a difficulty of 18.
pub fn random_weapon() -> (weapon: Weapon)
    ensures
        weapon@.is_common(),
{
    let max: u8 = 6;
    let dice = Dice::simple(max);
    let result: u8 = dice.roll().unwrap();

    let d20 = Dice::roll_d20(&0, &18);
    let modifier: u8 = match WeaponBonus::earned(d20) {
        WeaponBonus::Fixed(fixed) => fixed,
        WeaponBonus::Rolled(bonus_dice) => bonus_dice.roll().unwrap(),
    };

    CommonWeapon::pick(result).new(modifier)
}

} // verus!
