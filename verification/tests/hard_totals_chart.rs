use blackjack_strategy::hard_totals_chart::hard_totals_chart;
use blackjack_strategy::types::{Decision, Deviations, GameType, Rules};

#[test]
fn test_hard_totals_chart_invalid() {
    let rules = Rules::default();

    assert_eq!(hard_totals_chart(&vec![10, 5, 9], 8, 0, 0, &rules), None);
}

#[test]
fn test_hard_17() {
    let rules = Rules::default();

    for duc in 2..=11 {
        assert_eq!(
            hard_totals_chart(&vec![10, 7], duc, 0, 0, &rules),
            Some(Decision::Stand)
        );
    }
}

#[test]
fn test_hard_16() {
    let rules = Rules::default();

    for duc in 2..=11 {
        match duc {
            2..=6 => {
                assert_eq!(
                    hard_totals_chart(&vec![10, 6], duc, 0, 0, &rules),
                    Some(Decision::Stand)
                );
            }
            _ => {
                assert_eq!(
                    hard_totals_chart(&vec![10, 6], duc, 0, 0, &rules),
                    Some(Decision::Hit)
                );
            }
        }
    }
}

#[test]
fn test_hard_15() {
    let rules = Rules::default();

    for duc in 2..=11 {
        match duc {
            2..=6 => {
                assert_eq!(
                    hard_totals_chart(&vec![10, 5], duc, 0, 0, &rules),
                    Some(Decision::Stand)
                );
            }
            _ => {
                assert_eq!(
                    hard_totals_chart(&vec![10, 5], duc, 0, 0, &rules),
                    Some(Decision::Hit)
                );
            }
        }
    }
}

#[test]
fn test_hard_14() {
    let rules = Rules::default();

    for duc in 2..=11 {
        match duc {
            2..=6 => {
                assert_eq!(
                    hard_totals_chart(&vec![10, 4], duc, 0, 0, &rules),
                    Some(Decision::Stand)
                );
            }
            _ => {
                assert_eq!(
                    hard_totals_chart(&vec![10, 4], duc, 0, 0, &rules),
                    Some(Decision::Hit)
                );
            }
        }
    }
}

#[test]
fn test_hard_13() {
    let rules = Rules::default();

    for duc in 2..=11 {
        match duc {
            2..=6 => {
                assert_eq!(
                    hard_totals_chart(&vec![10, 3], duc, 0, 0, &rules),
                    Some(Decision::Stand)
                );
            }
            _ => {
                assert_eq!(
                    hard_totals_chart(&vec![10, 3], duc, 0, 0, &rules),
                    Some(Decision::Hit)
                );
            }
        }
    }
}

#[test]
fn test_hard_12() {
    let rules = Rules::default();

    for duc in 2..=11 {
        match duc {
            4..=6 => {
                assert_eq!(
                    hard_totals_chart(&vec![10, 2], duc, 0, 0, &rules),
                    Some(Decision::Stand)
                );
            }
            _ => {
                assert_eq!(
                    hard_totals_chart(&vec![10, 2], duc, 0, 0, &rules),
                    Some(Decision::Hit)
                );
            }
        }
    }
}

#[test]
fn test_hard_11() {
    let rules = Rules::default();

    for duc in 2..=11 {
        match duc {
            2..=11 => {
                assert_eq!(
                    hard_totals_chart(&vec![5, 6], duc, 0, 0, &rules),
                    Some(Decision::Double)
                );
            }
            _ => {}
        }
    }
}

#[test]
fn test_hard_10() {
    let rules = Rules::default();

    for duc in 2..=11 {
        match duc {
            2..=9 => {
                assert_eq!(
                    hard_totals_chart(&vec![5, 5], duc, 0, 0, &rules),
                    Some(Decision::Double)
                );
            }
            _ => {
                assert_eq!(
                    hard_totals_chart(&vec![5, 5], duc, 0, 0, &rules),
                    Some(Decision::Hit)
                );
            }
        }
    }
}

#[test]
fn test_hard_9() {
    let rules = Rules::default();

    for duc in 2..=11 {
        match duc {
            3..=6 => {
                assert_eq!(
                    hard_totals_chart(&vec![5, 4], duc, 0, 0, &rules),
                    Some(Decision::Double)
                );
            }
            _ => {
                assert_eq!(
                    hard_totals_chart(&vec![5, 4], duc, 0, 0, &rules),
                    Some(Decision::Hit)
                );
            }
        }
    }
}

#[test]
fn test_hard_8() {
    let rules = Rules::default();

    for duc in 2..=11 {
        assert_eq!(
            hard_totals_chart(&vec![5, 3], duc, 0, 0, &rules),
            Some(Decision::Hit)
        );
    }
}

#[test]
fn test_hard_deviations_12() {
    let mut rules = Rules::default();
    rules.set_enable_deviations(Deviations::Standard);

    assert_eq!(
        hard_totals_chart(&vec![10, 2], 4, -1, 0, &rules),
        Some(Decision::Hit)
    );

    assert_eq!(
        hard_totals_chart(&vec![10, 2], 2, 30, 3, &rules),
        Some(Decision::Stand)
    );

    assert_eq!(
        hard_totals_chart(&vec![10, 2], 3, 30, 2, &rules),
        Some(Decision::Stand)
    );
}

#[test]
fn test_hard_deviations_13() {
    let mut rules = Rules::default();
    rules.set_enable_deviations(Deviations::Standard);

    assert_eq!(
        hard_totals_chart(&vec![10, 3], 2, 30, -1, &rules),
        Some(Decision::Hit)
    );
}

#[test]
fn test_hard_deviations_10() {
    let mut rules = Rules::default();
    rules.set_enable_deviations(Deviations::Standard);

    assert_eq!(
        hard_totals_chart(&vec![7, 3], 10, 30, 4, &rules),
        Some(Decision::Double)
    );

    assert_eq!(
        hard_totals_chart(&vec![7, 3], 11, 30, 3, &rules),
        Some(Decision::Double)
    );

    rules.set_game_type(GameType::Stand17);

    assert_eq!(
        hard_totals_chart(&vec![7, 3], 11, 30, 4, &rules),
        Some(Decision::Double)
    );
}

#[test]
fn test_hard_deviations_9() {
    let mut rules = Rules::default();
    rules.set_enable_deviations(Deviations::Standard);

    // before
    assert_eq!(
        hard_totals_chart(&vec![4, 5], 2, 30, 0, &rules),
        Some(Decision::Hit)
    );

    assert_eq!(
        hard_totals_chart(&vec![4, 5], 2, 30, 1, &rules),
        Some(Decision::Double)
    );

    // before
    assert_eq!(
        hard_totals_chart(&vec![4, 5], 7, 30, 2, &rules),
        Some(Decision::Hit)
    );

    assert_eq!(
        hard_totals_chart(&vec![4, 5], 7, 30, 3, &rules),
        Some(Decision::Double)
    );
}

#[test]
fn test_hard_deviations_8() {
    let mut rules = Rules::default();
    rules.set_enable_deviations(Deviations::Standard);

    // before
    assert_eq!(
        hard_totals_chart(&vec![4, 4], 6, 30, 0, &rules),
        Some(Decision::Hit)
    );

    assert_eq!(
        hard_totals_chart(&vec![4, 4], 6, 30, 2, &rules),
        Some(Decision::Double)
    );

    // before
    assert_eq!(
        hard_totals_chart(&vec![3, 5], 5, 30, 3, &rules),
        Some(Decision::Hit)
    );

    assert_eq!(
        hard_totals_chart(&vec![3, 5], 5, 30, 4, &rules),
        Some(Decision::Hit)
    );

    rules.set_enable_deviations(Deviations::Extended1);

    // before
    assert_eq!(
        hard_totals_chart(&vec![3, 5], 5, 30, 3, &rules),
        Some(Decision::Hit)
    );

    assert_eq!(
        hard_totals_chart(&vec![3, 5], 5, 30, 4, &rules),
        Some(Decision::Double)
    );
}

#[test]
fn test_hard_deviations_16() {
    let mut rules = Rules::default();
    rules.set_enable_deviations(Deviations::Standard);

    // before
    assert_eq!(
        hard_totals_chart(&vec![10, 6], 9, 30, 3, &rules),
        Some(Decision::Hit)
    );

    assert_eq!(
        hard_totals_chart(&vec![10, 6], 9, 30, 4, &rules),
        Some(Decision::Stand)
    );

    // before
    assert_eq!(
        hard_totals_chart(&vec![10, 6], 10, -1, 0, &rules),
        Some(Decision::Hit)
    );

    assert_eq!(
        hard_totals_chart(&vec![10, 6], 10, 1, 0, &rules),
        Some(Decision::Stand)
    );

    // before
    assert_eq!(
        hard_totals_chart(&vec![10, 6], 11, 20, 2, &rules),
        Some(Decision::Hit)
    );

    rules.set_game_type(GameType::Stand17);

    assert_eq!(
        hard_totals_chart(&vec![10, 6], 11, 20, 3, &rules),
        Some(Decision::Hit)
    );

    assert_eq!(
        hard_totals_chart(&vec![10, 6], 11, 20, 7, &rules),
        Some(Decision::Hit)
    );

    rules.set_game_type(GameType::Hit17);

    assert_eq!(
        hard_totals_chart(&vec![10, 6], 11, 20, 3, &rules),
        Some(Decision::Stand)
    );
}

#[test]
fn test_hard_deviations_15() {
    let mut rules = Rules::default();
    rules.set_enable_deviations(Deviations::Standard);

    // before
    assert_eq!(
        hard_totals_chart(&vec![10, 2, 3], 10, 30, 3, &rules),
        Some(Decision::Hit)
    );

    assert_eq!(
        hard_totals_chart(&vec![10, 3, 2], 10, 30, 4, &rules),
        Some(Decision::Stand)
    );

    // before
    assert_eq!(
        hard_totals_chart(&vec![10, 2, 3], 11, 30, 4, &rules),
        Some(Decision::Hit)
    );

    assert_eq!(
        hard_totals_chart(&vec![10, 3, 2], 11, 30, 5, &rules),
        Some(Decision::Stand)
    );

    rules.set_game_type(GameType::Stand17);

    assert_eq!(
        hard_totals_chart(&vec![10, 3, 2], 11, 30, 9, &rules),
        Some(Decision::Hit)
    );
}

fn deviating_rules(tier: Deviations, game_type: GameType) -> Rules {
    let mut rules = Rules::default();
    rules.set_enable_deviations(tier);
    rules.set_game_type(game_type);
    rules
}

#[test]
fn hard_16_against_ten_turns_on_the_running_count() {
    let rules = deviating_rules(Deviations::Standard, GameType::Hit17);
    for rc in [-5isize, -1, 0] {
        assert_eq!(
            hard_totals_chart(&vec![10, 6], 10, rc, 0, &rules),
            Some(Decision::Hit)
        );
    }
    for rc in [1isize, 2, 40] {
        assert_eq!(
            hard_totals_chart(&vec![10, 6], 10, rc, 0, &rules),
            Some(Decision::Stand)
        );
    }
    // without deviations the count is not looked at
    let plain = Rules::default();
    assert_eq!(
        hard_totals_chart(&vec![10, 6], 10, 40, 9, &plain),
        Some(Decision::Hit)
    );
}

#[test]
fn hard_17_and_more_always_stands() {
    for game_type in [GameType::Hit17, GameType::Stand17] {
        for tier in [Deviations::Off, Deviations::Standard, Deviations::Extended4] {
            let rules = deviating_rules(tier, game_type);
            for duc in 2..=11 {
                for hand in [vec![10u8, 7], vec![10, 8], vec![10, 5, 6], vec![7, 7, 7]] {
                    for count in [-9isize, 0, 9] {
                        assert_eq!(
                            hard_totals_chart(&hand, duc, count, count, &rules),
                            Some(Decision::Stand)
                        );
                    }
                }
            }
        }
    }
}

#[test]
fn hard_12_against_two_or_three_needs_deviations() {
    let plain = Rules::default();
    assert_eq!(
        hard_totals_chart(&vec![10, 2], 2, 30, 3, &plain),
        Some(Decision::Hit)
    );
    assert_eq!(
        hard_totals_chart(&vec![10, 2], 3, 30, 2, &plain),
        Some(Decision::Hit)
    );
    let rules = deviating_rules(Deviations::Standard, GameType::Hit17);
    assert_eq!(
        hard_totals_chart(&vec![10, 2], 2, 30, 2, &rules),
        Some(Decision::Hit)
    );
    assert_eq!(
        hard_totals_chart(&vec![10, 2], 3, 30, 1, &rules),
        Some(Decision::Hit)
    );
    // the hit against a four gives way only at a negative running count
    assert_eq!(
        hard_totals_chart(&vec![10, 2], 4, 0, 0, &rules),
        Some(Decision::Stand)
    );
    assert_eq!(
        hard_totals_chart(&vec![10, 2], 4, -1, 0, &plain),
        Some(Decision::Stand)
    );
}

#[test]
fn hard_11_against_ace_where_dealer_stands() {
    let rules = deviating_rules(Deviations::Standard, GameType::Stand17);
    assert_eq!(
        hard_totals_chart(&vec![5, 6], 11, 0, 0, &rules),
        Some(Decision::Hit)
    );
    assert_eq!(
        hard_totals_chart(&vec![5, 6], 11, 0, 1, &rules),
        Some(Decision::Double)
    );
    assert_eq!(
        hard_totals_chart(&vec![5, 6], 10, 0, 0, &rules),
        Some(Decision::Double)
    );
    let hit17 = deviating_rules(Deviations::Standard, GameType::Hit17);
    assert_eq!(
        hard_totals_chart(&vec![5, 6], 11, 0, 0, &hit17),
        Some(Decision::Double)
    );
}

#[test]
fn doubling_is_for_two_cards_only() {
    let rules = deviating_rules(Deviations::Extended1, GameType::Hit17);
    assert_eq!(
        hard_totals_chart(&vec![2, 3, 6], 6, 0, 0, &rules),
        Some(Decision::Hit)
    );
    assert_eq!(
        hard_totals_chart(&vec![2, 3, 5], 6, 0, 0, &rules),
        Some(Decision::Hit)
    );
    assert_eq!(
        hard_totals_chart(&vec![2, 3, 4], 6, 0, 0, &rules),
        Some(Decision::Hit)
    );
    assert_eq!(
        hard_totals_chart(&vec![2, 3, 3], 6, 0, 9, &rules),
        Some(Decision::Hit)
    );
}

#[test]
fn hard_10_against_ace_by_game_type() {
    let stand17 = deviating_rules(Deviations::Standard, GameType::Stand17);
    assert_eq!(
        hard_totals_chart(&vec![7, 3], 11, 0, 3, &stand17),
        Some(Decision::Hit)
    );
    let hit17 = deviating_rules(Deviations::Standard, GameType::Hit17);
    assert_eq!(
        hard_totals_chart(&vec![7, 3], 11, 0, 2, &hit17),
        Some(Decision::Hit)
    );
    assert_eq!(
        hard_totals_chart(&vec![7, 3], 10, 0, 3, &hit17),
        Some(Decision::Hit)
    );
}

#[test]
fn hard_chart_has_nothing_for_a_bust_hand() {
    let rules = Rules::default();
    assert_eq!(hard_totals_chart(&vec![10, 10, 2], 6, 0, 0, &rules), None);
    assert_eq!(
        hard_totals_chart(&vec![10, 10, 1], 6, 0, 0, &rules),
        Some(Decision::Stand)
    );
    // a hand too long for its total to fit a byte is bust as well
    assert_eq!(hard_totals_chart(&vec![10; 30], 6, 0, 0, &rules), None);
    assert_eq!(hard_totals_chart(&vec![11; 300], 6, 0, 0, &rules), None);
}

#[test]
fn hard_chart_goes_by_the_best_total() {
    let rules = Rules::default();
    // soft 17 stands here: this chart reads the total only
    assert_eq!(
        hard_totals_chart(&vec![11, 6], 10, 0, 0, &rules),
        Some(Decision::Stand)
    );
    // the caller's hand is left as it was dealt
    let hand = vec![11, 11, 9];
    assert_eq!(
        hard_totals_chart(&hand, 10, 0, 0, &rules),
        Some(Decision::Stand)
    );
    assert_eq!(hand, vec![11, 11, 9]);
}
