use blackjack_strategy::surrender::should_i_surrender;
use blackjack_strategy::types::{Deviations, GameType, Rules};

fn rules_with(deviations: bool) -> Rules {
    let mut rules = Rules::default();
    rules.set_enable_deviations(if deviations {
        Deviations::Standard
    } else {
        Deviations::Off
    });
    rules
}

#[test]
fn test_surrender_15_v_10() {
    let rules = rules_with(false);

    assert!(should_i_surrender(&vec![10, 5], 10, 0, 0, &rules));

    // deviation
    assert!(!should_i_surrender(&vec![10, 5], 10, -1, 0, &rules));
}

#[test]
fn test_surrender_15_v_9() {
    let rules = rules_with(true);

    assert!(!should_i_surrender(&vec![10, 5], 9, 10, 1, &rules));

    // deviation
    assert!(should_i_surrender(&vec![10, 5], 9, 10, 2, &rules));
}

#[test]
fn test_surrender_15_v_11() {
    let mut rules = rules_with(true);

    assert!(!should_i_surrender(&vec![10, 5], 11, 10, -2, &rules));

    // deviation
    assert!(should_i_surrender(&vec![10, 5], 11, 10, -1, &rules));

    rules.set_game_type(GameType::Stand17);

    assert!(!should_i_surrender(&vec![10, 5], 11, 10, 1, &rules));

    assert!(should_i_surrender(&vec![10, 5], 11, 10, 2, &rules));
}

#[test]
fn test_surrender_17_v_11() {
    let mut rules = rules_with(true);

    assert!(should_i_surrender(&vec![10, 7], 11, 10, 0, &rules));

    rules.set_game_type(GameType::Stand17);

    // deviation
    assert!(!should_i_surrender(&vec![10, 7], 11, 10, 5, &rules));
}

#[test]
fn test_surrender_16_v_8() {
    let mut rules = rules_with(true);

    assert!(!should_i_surrender(&vec![10, 6], 8, 10, 3, &rules));

    assert!(should_i_surrender(&vec![10, 6], 8, 10, 4, &rules));

    rules.set_game_type(GameType::Stand17);

    assert!(!should_i_surrender(&vec![10, 6], 8, 10, 3, &rules));

    assert!(should_i_surrender(&vec![10, 6], 8, 10, 4, &rules));
}

#[test]
fn test_surrender_16_v_9() {
    let mut rules = rules_with(true);

    assert!(!should_i_surrender(&vec![10, 6], 9, 10, -1, &rules));

    rules.set_enable_deviations(Deviations::Off);

    assert!(should_i_surrender(&vec![10, 6], 9, 10, 0, &rules));

    rules.set_game_type(GameType::Stand17);

    rules.set_enable_deviations(Deviations::Standard);

    assert!(!should_i_surrender(&vec![10, 6], 9, 10, -1, &rules));

    assert!(should_i_surrender(&vec![10, 6], 9, 10, 0, &rules));
}

#[test]
fn test_surrender_16_v_10() {
    let mut rules = Rules::default();

    assert!(should_i_surrender(&vec![10, 6], 10, 10, -10, &rules));

    assert!(should_i_surrender(&vec![10, 6], 10, 10, 10, &rules));

    rules.set_game_type(GameType::Stand17);

    assert!(should_i_surrender(&vec![10, 6], 10, 10, -10, &rules));

    assert!(should_i_surrender(&vec![10, 6], 10, 10, 10, &rules));
}

#[test]
fn test_surrender_16_v_11() {
    let mut rules = Rules::default();

    assert!(should_i_surrender(&vec![10, 6], 11, 10, -10, &rules));

    assert!(should_i_surrender(&vec![10, 6], 11, 10, 10, &rules));

    rules.set_game_type(GameType::Stand17);

    assert!(should_i_surrender(&vec![10, 6], 11, 10, -10, &rules));

    assert!(should_i_surrender(&vec![10, 6], 11, 10, 10, &rules));
}

#[test]
fn test_surrender_14_v_9() {
    let mut rules = rules_with(true);

    assert!(!should_i_surrender(&vec![10, 4], 9, 10, 0, &rules));

    assert!(should_i_surrender(&vec![10, 4], 9, 10, 6, &rules));

    rules.set_game_type(GameType::Stand17);

    assert!(!should_i_surrender(&vec![10, 4], 9, 10, 0, &rules));

    assert!(should_i_surrender(&vec![10, 4], 9, 10, 7, &rules));
}

#[test]
fn test_surrender_14_v_10() {
    let mut rules = rules_with(true);

    assert!(!should_i_surrender(&vec![10, 4], 10, 10, 0, &rules));

    assert!(should_i_surrender(&vec![10, 4], 10, 10, 4, &rules));

    rules.set_game_type(GameType::Stand17);

    assert!(!should_i_surrender(&vec![10, 4], 10, 10, 0, &rules));

    assert!(should_i_surrender(&vec![10, 4], 10, 10, 4, &rules));
}

#[test]
fn test_surrender_14_v_11() {
    let mut rules = rules_with(true);

    assert!(!should_i_surrender(&vec![10, 4], 11, 10, 0, &rules));

    assert!(should_i_surrender(&vec![10, 4], 11, 10, 4, &rules));

    rules.set_game_type(GameType::Stand17);

    assert!(!should_i_surrender(&vec![10, 4], 11, 10, 0, &rules));

    assert!(should_i_surrender(&vec![10, 4], 11, 10, 6, &rules));
}

#[test]
fn test_pair_of_8s_deviation() {
    let mut rules = rules_with(true);

    assert!(should_i_surrender(&vec![8, 8], 11, 10, 2, &rules));

    assert!(!should_i_surrender(&vec![8, 8], 9, 10, 2, &rules));

    assert!(!should_i_surrender(&vec![8, 8], 10, 10, 0, &rules));

    assert!(should_i_surrender(&vec![8, 8], 10, 10, 1, &rules));

    rules.set_game_type(GameType::Stand17);

    assert!(!should_i_surrender(&vec![8, 8], 11, 10, 5, &rules));

    assert!(should_i_surrender(&vec![8, 8], 10, 10, 6, &rules));
}

#[test]
fn test_pair_of_8s() {
    let mut rules = Rules::default();

    assert!(!should_i_surrender(&vec![8, 8], 11, 10, 2, &rules));

    assert!(!should_i_surrender(&vec![8, 8], 9, 10, 2, &rules));

    assert!(!should_i_surrender(&vec![8, 8], 10, 10, 0, &rules));

    assert!(!should_i_surrender(&vec![8, 8], 10, 10, 1, &rules));

    rules.set_game_type(GameType::Stand17);

    assert!(!should_i_surrender(&vec![8, 8], 11, 10, 5, &rules));

    assert!(!should_i_surrender(&vec![8, 8], 10, 10, 6, &rules));
}

#[test]
fn fifteen_against_ten_turns_on_the_sign_of_the_running_count() {
    for deviations in [false, true] {
        let rules = rules_with(deviations);
        for tc in [-9isize, 0, 9] {
            assert!(!should_i_surrender(&vec![10, 5], 10, -1, tc, &rules));
            assert!(!should_i_surrender(&vec![9, 6], 10, -40, tc, &rules));
            assert!(should_i_surrender(&vec![10, 5], 10, 0, tc, &rules));
            assert!(should_i_surrender(&vec![8, 7], 10, 40, tc, &rules));
        }
    }
}

#[test]
fn seventeen_against_ace_is_base_table() {
    let mut rules = rules_with(false);
    assert!(should_i_surrender(&vec![10, 7], 11, 0, 0, &rules));
    assert!(should_i_surrender(&vec![9, 8], 11, -5, -5, &rules));
    assert!(!should_i_surrender(&vec![10, 7], 10, 0, 0, &rules));
    rules.set_game_type(GameType::Stand17);
    assert!(!should_i_surrender(&vec![10, 7], 11, 0, 0, &rules));
}

#[test]
fn only_two_cards_without_an_ace_are_surrendered() {
    let rules = rules_with(true);
    assert!(!should_i_surrender(&vec![], 10, 0, 9, &rules));
    assert!(!should_i_surrender(&vec![10], 10, 0, 9, &rules));
    assert!(!should_i_surrender(&vec![16], 10, 0, 9, &rules));
    assert!(!should_i_surrender(&vec![10, 3, 2], 10, 0, 9, &rules));
    assert!(!should_i_surrender(&vec![5, 5, 6], 10, 0, 9, &rules));
    assert!(!should_i_surrender(&vec![11, 5], 10, 0, 9, &rules));
    assert!(!should_i_surrender(&vec![5, 11], 10, 0, 9, &rules));
    assert!(!should_i_surrender(&vec![11, 4], 10, 0, 9, &rules));
    assert!(should_i_surrender(&vec![10, 5], 10, 0, 9, &rules));
}

#[test]
fn totals_outside_fourteen_to_seventeen_are_played() {
    let rules = rules_with(true);
    for duc in 2..=11 {
        assert!(!should_i_surrender(&vec![10, 3], duc, 9, 9, &rules));
        assert!(!should_i_surrender(&vec![10, 8], duc, 9, 9, &rules));
        assert!(!should_i_surrender(&vec![10, 10], duc, 9, 9, &rules));
        assert!(!should_i_surrender(&vec![2, 2], duc, 9, 9, &rules));
    }
}

#[test]
fn nothing_is_surrendered_to_a_weak_card() {
    for deviations in [false, true] {
        let rules = rules_with(deviations);
        for duc in 2..=7 {
            for hand in [vec![10u8, 4], vec![10, 5], vec![10, 6], vec![8, 8], vec![10, 7]] {
                assert!(!should_i_surrender(&hand, duc, 20, 20, &rules));
            }
        }
    }
}

#[test]
fn fourteen_needs_deviations() {
    let rules = rules_with(false);
    for duc in 2..=11 {
        assert!(!should_i_surrender(&vec![10, 4], duc, 20, 20, &rules));
    }
    let rules = rules_with(true);
    assert!(!should_i_surrender(&vec![10, 4], 9, 20, 5, &rules));
    assert!(!should_i_surrender(&vec![10, 4], 10, 20, 3, &rules));
    assert!(!should_i_surrender(&vec![10, 4], 11, 20, 3, &rules));
    assert!(should_i_surrender(&vec![7, 7], 10, 20, 4, &rules));
}
