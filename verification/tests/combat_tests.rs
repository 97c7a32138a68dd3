use goblin_fightclub::{AttackResult, AttackStage, D20Roll, Dice, Goblin, Weapon};

fn goblin(name: &str, level: u8, defense: u8, health: u8, attack_dice: Dice) -> Goblin {
    Goblin {
        name: String::from(name),
        level,
        max_health: health,
        current_health: health as i8,
        weapon: Weapon::new(String::from("Shortsword"), 0, attack_dice),
        defense,
        wins: 0,
        heals_available: 0,
    }
}

#[test]
fn failed_confirmation_downgrades_to_a_plain_hit() {
    let primary = D20Roll::classify(20, 3, 12);
    let confirmation = D20Roll::classify(1, 3, 12);
    let result = AttackResult::resolve(primary, 4, confirmation, 6);
    assert_eq!(result, AttackResult::Hit { attack_roll: 20, damage_roll: 4 });
}

#[test]
fn missed_confirmation_downgrades_to_a_plain_hit() {
    let primary = D20Roll::classify(20, 0, 15);
    let confirmation = D20Roll::classify(14, 0, 15);
    assert_eq!(confirmation, D20Roll::Miss(14));
    let result = AttackResult::resolve(primary, 9, confirmation, 200);
    assert_eq!(result, AttackResult::Hit { attack_roll: 20, damage_roll: 9 });
}

#[test]
fn confirmed_critical_adds_both_damage_rolls() {
    let primary = D20Roll::classify(20, 2, 12);
    let by_hit = AttackResult::resolve(primary, 4, D20Roll::classify(10, 2, 12), 6);
    assert_eq!(by_hit, AttackResult::Crit { damage_roll: 10 });
    let by_twenty = AttackResult::resolve(primary, 100, D20Roll::classify(20, 2, 12), 155);
    assert_eq!(by_twenty, AttackResult::Crit { damage_roll: 255 });
}

#[test]
fn miss_and_critical_failure_resolve_to_a_miss() {
    let miss = AttackResult::resolve(D20Roll::Miss(7), 5, D20Roll::Hit(30), 6);
    assert_eq!(miss, AttackResult::Miss { attack_roll: 7 });
    let failure = AttackResult::resolve(D20Roll::CriticalFailure(1), 5, D20Roll::Hit(30), 6);
    assert_eq!(failure, AttackResult::Miss { attack_roll: 1 });
}

#[test]
fn hit_resolves_without_the_later_rolls() {
    let result = AttackResult::resolve(D20Roll::Hit(16), 5, D20Roll::CriticalSuccess(20), 250);
    assert_eq!(result, AttackResult::Hit { attack_roll: 16, damage_roll: 5 });
}

#[test]
fn stages_follow_one_another() {
    let stage = AttackStage::begin(D20Roll::CriticalSuccess(20), 3);
    assert_eq!(stage, AttackStage::PendingConfirmation { attack_roll: 20, damage_roll: 3 });
    assert!(stage.awaits_confirmation());
    assert!(!stage.awaits_crit_damage());
    assert_eq!(stage.result(), None);

    let stage = stage.confirm(D20Roll::Hit(14));
    assert_eq!(stage, AttackStage::PendingCritDamage { damage_roll: 3 });
    assert!(stage.awaits_crit_damage());
    assert!(!stage.awaits_confirmation());
    assert_eq!(stage.result(), None);

    let stage = stage.finish(5);
    assert_eq!(stage, AttackStage::Resolved(AttackResult::Crit { damage_roll: 8 }));
    assert_eq!(stage.result(), Some(AttackResult::Crit { damage_roll: 8 }));
}

#[test]
fn stages_ignore_rolls_they_do_not_await() {
    let resolved = AttackStage::begin(D20Roll::Hit(13), 2);
    assert_eq!(resolved, AttackStage::Resolved(AttackResult::Hit { attack_roll: 13, damage_roll: 2 }));
    assert_eq!(resolved.confirm(D20Roll::CriticalSuccess(20)), resolved);
    assert_eq!(resolved.finish(200), resolved);

    let pending = AttackStage::begin(D20Roll::CriticalSuccess(20), 2);
    assert_eq!(pending.finish(9), pending);
    let awaiting_damage = pending.confirm(D20Roll::CriticalSuccess(20));
    assert_eq!(awaiting_damage.confirm(D20Roll::Miss(3)), awaiting_damage);
}

#[test]
fn forced_roll_of_fifteen_hits_and_takes_the_damage_off() {
    let attacker = goblin("A", 1, 10, 20, Dice::new(1, 6, 0));
    let mut defender = goblin("B", 1, 10, 20, Dice::new(1, 6, 0));

    let primary = D20Roll::classify(15, attacker.level, defender.defense);
    let damage = attacker.damage_roll();
    assert!((1..=6).contains(&damage));
    let result = AttackResult::resolve(primary, damage, primary, damage);
    assert_eq!(result, AttackResult::Hit { attack_roll: 16, damage_roll: damage });

    let before = defender.current_health;
    if let AttackResult::Hit { damage_roll, .. } = result {
        defender.take_damage(damage_roll);
    }
    assert_eq!(defender.current_health, before - damage as i8);
}

#[test]
fn dice_that_cannot_be_rolled_deal_one() {
    let attacker = goblin("A", 1, 10, 20, Dice::new(0, 6, 0));
    for _ in 0..50 {
        assert_eq!(attacker.damage_roll(), 1);
    }
    let damage = attacker.damage_roll();
    let result = AttackResult::resolve(D20Roll::classify(15, 1, 10), damage, D20Roll::Miss(2), damage);
    assert_eq!(result, AttackResult::Hit { attack_roll: 16, damage_roll: 1 });
}

#[test]
fn attack_with_unrollable_dice_never_fails() {
    let attacker = goblin("A", 2, 10, 20, Dice::new(0, 6, 0));
    let defender = goblin("B", 1, 12, 20, Dice::new(1, 6, 0));
    for _ in 0..2000 {
        match attacker.attacks(&defender) {
            AttackResult::Miss { attack_roll } => assert!(attack_roll == 1 || attack_roll < 12),
            AttackResult::Hit { attack_roll, damage_roll } => {
                assert!(attack_roll >= 12);
                assert_eq!(damage_roll, 1);
            }
            AttackResult::Crit { damage_roll } => assert_eq!(damage_roll, 2),
        }
    }
}

#[test]
fn attack_gives_what_its_rolls_can_come_to() {
    let attacker = goblin("A", 3, 10, 20, Dice::new(2, 6, 1));
    let defender = goblin("B", 1, 14, 20, Dice::new(1, 6, 0));
    let mut kinds = [false; 3];
    for _ in 0..5000 {
        match attacker.attacks(&defender) {
            AttackResult::Miss { attack_roll } => {
                kinds[0] = true;
                assert!(attack_roll == 1 || (5..14).contains(&attack_roll));
            }
            AttackResult::Hit { attack_roll, damage_roll } => {
                kinds[1] = true;
                assert!((14..=22).contains(&attack_roll));
                assert!((3..=13).contains(&damage_roll));
            }
            AttackResult::Crit { damage_roll } => {
                kinds[2] = true;
                assert!((6..=26).contains(&damage_roll));
            }
        }
    }
    assert!(kinds[0] && kinds[1]);
}
