use goblin_fightclub::{
    action_log, can_take_turn, settle, Action, AttackResult, Dice, Goblin, Weapon,
};

fn goblin(name: &str, health: i8, heals_available: u8, attack_dice: Dice) -> Goblin {
    Goblin {
        name: String::from(name),
        level: 2,
        max_health: 30,
        current_health: health,
        weapon: Weapon::new(String::from("Shortsword"), 0, attack_dice),
        defense: 12,
        wins: 0,
        heals_available,
    }
}

#[test]
fn log_line_tells_of_each_action() {
    let name = String::from("Gob 3");
    assert_eq!(Action::Healed(4).log_line(&name), "Gob 3 heals for 4");
    let hit = Action::Attacked(AttackResult::Hit { attack_roll: 16, damage_roll: 5 });
    assert_eq!(hit.log_line(&name), "Gob 3 rolls 16 - Hit for 5");
    let crit = Action::Attacked(AttackResult::Crit { damage_roll: 11 });
    assert_eq!(crit.log_line(&name), "Gob 3 Critical Hit! for 11");
    let miss = Action::Attacked(AttackResult::Miss { attack_roll: 7 });
    assert_eq!(miss.log_line(&name), "Gob 3 rolls 7 - Miss");
}

#[test]
fn damage_dealt_is_that_of_a_hit_or_a_critical_hit() {
    assert_eq!(Action::Healed(4).damage_dealt(), 0);
    assert_eq!(Action::Attacked(AttackResult::Miss { attack_roll: 7 }).damage_dealt(), 0);
    let hit = Action::Attacked(AttackResult::Hit { attack_roll: 16, damage_roll: 5 });
    assert_eq!(hit.damage_dealt(), 5);
    assert_eq!(Action::Attacked(AttackResult::Crit { damage_roll: 11 }).damage_dealt(), 11);
}

#[test]
fn settle_takes_the_damage_off_and_writes_the_line() {
    let mut attacker = goblin("A", 20, 0, Dice::new(1, 6, 0));
    let mut defender = goblin("B", 20, 0, Dice::new(1, 6, 0));
    let mut log = vec![String::from("earlier")];
    let hit = Action::Attacked(AttackResult::Hit { attack_roll: 16, damage_roll: 5 });
    let won = settle(hit, &mut attacker, &mut defender, &mut log);
    assert!(!won);
    assert_eq!(defender.current_health, 15);
    assert_eq!(attacker.wins, 0);
    assert_eq!(attacker.current_health, 20);
    assert_eq!(log, vec!["earlier", "A rolls 16 - Hit for 5"]);
}

#[test]
fn settle_counts_the_win_when_the_defender_dies() {
    let mut attacker = goblin("A", 20, 0, Dice::new(1, 6, 0));
    let mut defender = goblin("B", 8, 0, Dice::new(1, 6, 0));
    let mut log = Vec::new();
    let crit = Action::Attacked(AttackResult::Crit { damage_roll: 11 });
    let won = settle(crit, &mut attacker, &mut defender, &mut log);
    assert!(won);
    assert_eq!(defender.current_health, -3);
    assert_eq!(attacker.wins, 1);
    assert_eq!(log, vec!["A Critical Hit! for 11", "B Died"]);
}

#[test]
fn settle_counts_a_health_of_zero_as_dead() {
    let mut attacker = goblin("A", 20, 0, Dice::new(1, 6, 0));
    let mut defender = goblin("B", 5, 0, Dice::new(1, 6, 0));
    let mut log = Vec::new();
    let hit = Action::Attacked(AttackResult::Hit { attack_roll: 13, damage_roll: 5 });
    assert!(settle(hit, &mut attacker, &mut defender, &mut log));
    assert_eq!(defender.current_health, 0);
    assert!(defender.is_dead());
    assert_eq!(log, vec!["A rolls 13 - Hit for 5", "B Died"]);
}

#[test]
fn settle_leaves_the_defender_alone_after_a_miss_or_a_heal() {
    let mut attacker = goblin("A", 20, 0, Dice::new(1, 6, 0));
    let mut defender = goblin("B", 1, 0, Dice::new(1, 6, 0));
    let mut log = Vec::new();
    let miss = Action::Attacked(AttackResult::Miss { attack_roll: 3 });
    assert!(!settle(miss, &mut attacker, &mut defender, &mut log));
    assert!(!settle(Action::Healed(2), &mut attacker, &mut defender, &mut log));
    assert_eq!(defender.current_health, 1);
    assert_eq!(attacker.wins, 0);
    assert_eq!(log, vec!["A rolls 3 - Miss", "A heals for 2"]);
}

#[test]
fn goblin_low_on_health_heals_if_it_can() {
    assert!(goblin("A", 10, 1, Dice::new(1, 6, 0)).should_heal());
    assert!(goblin("A", -3, 2, Dice::new(1, 6, 0)).should_heal());
    assert!(!goblin("A", 11, 1, Dice::new(1, 6, 0)).should_heal());
    assert!(!goblin("A", 10, 0, Dice::new(1, 6, 0)).should_heal());
}

#[test]
fn turn_of_a_wounded_goblin_is_a_heal() {
    for _ in 0..200 {
        let mut attacker = goblin("A", 4, 2, Dice::new(1, 6, 0));
        let mut defender = goblin("B", 20, 0, Dice::new(1, 6, 0));
        let mut log = Vec::new();
        let won = action_log(&mut attacker, &mut defender, &mut log);
        assert!(!won);
        let healed = attacker.current_health - 4;
        assert!((1..=6).contains(&healed));
        assert_eq!(attacker.heals_available, 1);
        assert_eq!(defender.current_health, 20);
        assert_eq!(log, vec![format!("A heals for {healed}")]);
    }
}

#[test]
fn turn_of_a_healthy_goblin_is_an_attack() {
    let mut lines = Vec::new();
    for _ in 0..2000 {
        let mut attacker = goblin("A", 20, 2, Dice::new(0, 6, 0));
        let mut defender = goblin("B", 2, 0, Dice::new(1, 6, 0));
        let mut log = Vec::new();
        let won = action_log(&mut attacker, &mut defender, &mut log);
        assert_eq!(attacker.heals_available, 2);
        assert_eq!(attacker.current_health, 20);
        let lost = 2 - defender.current_health;
        if log[0].ends_with("- Miss") {
            assert_eq!(lost, 0);
        } else if log[0].ends_with("Hit for 1") {
            assert_eq!(lost, 1);
        } else {
            assert_eq!(log[0], "A Critical Hit! for 2");
            assert_eq!(lost, 2);
        }
        assert_eq!(won, lost == 2);
        assert_eq!(attacker.wins, if won { 1 } else { 0 });
        if won {
            assert_eq!(log.len(), 2);
            assert_eq!(log[1], "B Died");
        } else {
            assert_eq!(log.len(), 1);
        }
        if !lines.contains(&log[0]) {
            lines.push(log[0].clone());
        }
    }
    assert!(lines.len() > 1);
}

#[test]
fn turn_against_a_dead_defender_is_won_at_once() {
    let mut attacker = goblin("A", 3, 1, Dice::new(1, 6, 0));
    let mut defender = goblin("B", 0, 0, Dice::new(1, 6, 0));
    let mut log = Vec::new();
    assert!(action_log(&mut attacker, &mut defender, &mut log));
    assert_eq!(attacker.wins, 1);
    assert_eq!(attacker.heals_available, 0);
    assert_eq!(log.len(), 2);
    assert_eq!(log[1], "B Died");
}

#[test]
fn can_take_turn_tells_when_the_numbers_fit() {
    let attacker = goblin("A", 20, 0, Dice::new(1, 6, 0));
    let defender = goblin("B", 20, 0, Dice::new(1, 6, 0));
    assert!(can_take_turn(&attacker, &defender));

    let mut champion = goblin("A", 20, 0, Dice::new(1, 6, 0));
    champion.wins = 255;
    assert!(can_take_turn(&champion, &defender));
    assert!(can_take_turn(&champion, &goblin("B", 13, 0, Dice::new(1, 6, 0))));
    assert!(!can_take_turn(&champion, &goblin("B", 12, 0, Dice::new(1, 6, 0))));
    champion.wins = 254;
    assert!(can_take_turn(&champion, &goblin("B", 12, 0, Dice::new(1, 6, 0))));

    let mut healer = goblin("A", 3, 1, Dice::new(1, 6, 0));
    healer.wins = 255;
    assert!(can_take_turn(&healer, &defender));
    assert!(!can_take_turn(&healer, &goblin("B", 0, 0, Dice::new(1, 6, 0))));

    let heavy = goblin("A", 20, 0, Dice::new(10, 12, 7));
    assert!(can_take_turn(&heavy, &goblin("B", 126, 0, Dice::new(1, 6, 0))));
    assert!(!can_take_turn(&heavy, &goblin("B", -128, 0, Dice::new(1, 6, 0))));
    assert!(!can_take_turn(&heavy, &goblin("B", 125, 0, Dice::new(1, 6, 0))));
    assert!(!can_take_turn(&goblin("A", 20, 0, Dice::new(10, 12, 8)), &defender));

    let wounded = goblin("A", 3, 1, Dice::new(10, 12, 80));
    assert!(can_take_turn(&wounded, &defender));
}

#[test]
fn champion_of_many_wins_fights_on_while_the_defender_stands() {
    let mut attacker = goblin("A", 20, 0, Dice::new(1, 6, 0));
    attacker.wins = 255;
    let mut defender = goblin("B", 20, 0, Dice::new(1, 6, 0));
    let mut log = Vec::new();
    let miss = Action::Attacked(AttackResult::Miss { attack_roll: 3 });
    assert!(!settle(miss, &mut attacker, &mut defender, &mut log));
    let hit = Action::Attacked(AttackResult::Hit { attack_roll: 14, damage_roll: 6 });
    assert!(!settle(hit, &mut attacker, &mut defender, &mut log));
    assert_eq!(attacker.wins, 255);
    assert_eq!(defender.current_health, 14);

    for _ in 0..200 {
        let mut defender = goblin("B", 20, 0, Dice::new(1, 6, 0));
        let mut log = Vec::new();
        assert!(can_take_turn(&attacker, &defender));
        assert!(!action_log(&mut attacker, &mut defender, &mut log));
        assert_eq!(attacker.wins, 255);
        assert_eq!(log.len(), 1);
    }
}
