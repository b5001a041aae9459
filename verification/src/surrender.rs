//! The surrender chart: when to give up half the wager rather than play.
//!
//! Only a hand of two cards without an ace is ever surrendered, and only on a
//! total of fourteen to seventeen against a strong dealer card.

use crate::hand::{has_ace, is_up_card, ACE};
use crate::types::{GameType, Rules, RulesView};
use vstd::prelude::*;

verus! {

/// The cells of the chart in which a two-card hand without an ace is
/// surrendered, by its total and by whether the two cards are a pair.
///
/// Seventeen is surrendered against an ace where the dealer hits soft 17;
/// that cell belongs to the base table and holds whether or not deviations
/// are in play.
///
/// Sixteen is surrendered against a nine, a ten or an ace unless it is a
/// pair. With deviations in play the pair is surrendered too against a ten
/// from a true count of one, and against an ace where the dealer hits soft
/// 17; sixteen against a nine is then kept at a negative true count, and
/// sixteen against an eight is surrendered from a true count of four.
///
/// Fifteen is surrendered against a ten unless the running count is
/// negative, and with deviations in play against a nine or an ace from a
/// true count that depends on the dealer's rule. Fourteen is surrendered
/// with deviations in play only.
pub open spec fn surrenders_total(
    total: int,
    pair: bool,
    dealer: int,
    running_count: int,
    true_count: int,
    rules: RulesView,
) -> bool {
    let deviating = rules.deviates(1);
    let hit17 = rules.game_type == GameType::Hit17;
    if total == 17 {
        hit17 && dealer == 11
    } else if total == 16 {
        if dealer == 9 {
            !pair && !(deviating && true_count <= -1)
        } else if dealer == 10 {
            !pair || (deviating && true_count >= 1)
        } else if dealer == 11 {
            !pair || (deviating && hit17)
        } else {
            deviating && dealer == 8 && true_count >= 4
        }
    } else if total == 15 {
        ||| dealer == 10 && running_count >= 0
        ||| deviating && dealer == 9 && true_count >= 2
        ||| deviating && dealer == 11 && true_count >= (if hit17 {
            -1int
        } else {
            2int
        })
    } else if total == 14 {
        deviating && {
            ||| dealer == 9 && true_count >= (if hit17 {
                6int
            } else {
                7int
            })
            ||| dealer == 10 && true_count >= 4
            ||| dealer == 11 && true_count >= (if hit17 {
                4int
            } else {
                6int
            })
        }
    } else {
        false
    }
}

/// Whether the chart surrenders the hand: it is two cards, neither of them
/// an ace, and the chart surrenders their total.
pub open spec fn surrenders(
    hand: Seq<u8>,
    dealer: int,
    running_count: int,
    true_count: int,
    rules: RulesView,
) -> bool {
    &&& hand.len() == 2
    &&& !has_ace(hand)
    &&& surrenders_total(
        hand[0] + hand[1],
        hand[0] == hand[1],
        dealer,
        running_count,
        true_count,
        rules,
    )
}

/// Tells whether to surrender the hand. Any hand that the chart does not
/// govern gets `false`.
pub fn should_i_surrender(
    cards_in_hand: &Vec<u8>,
    dealer_up_card: u8,
    running_count: isize,
    true_count: isize,
    rules: &Rules,
) -> (surrender: bool)
    requires
        is_up_card(dealer_up_card),
    ensures
        surrender == surrenders(
            cards_in_hand@,
            dealer_up_card as int,
            running_count as int,
            true_count as int,
            rules@,
        ),
{
    if cards_in_hand.len() != 2 {
        return false;
    }
    let first = cards_in_hand[0];
    let second = cards_in_hand[1];
    if first == ACE || second == ACE {
        assert(cards_in_hand@[0] == ACE || cards_in_hand@[1] == ACE);
        return false;
    }
    let total: u16 = first as u16 + second as u16;
    if total < 14 || total > 17 {
        return false;
    }
    let pair = first == second;
    let deviations = rules.enable_deviations() > 0;
    let hit17 = *rules.game_type() == GameType::Hit17;

    if total == 17 && hit17 && dealer_up_card == 11 {
        return true;
    }
    if total == 16 {
        if dealer_up_card == 9 || dealer_up_card == 10 || dealer_up_card == 11 {
            if ((dealer_up_card == 10 && pair && true_count < 1) || (dealer_up_card == 9
                && true_count <= -1) || (dealer_up_card == 9 && pair)) && deviations {
                return false;
            }
            if dealer_up_card == 11 && pair {
                return deviations && hit17;
            }
            if (dealer_up_card == 9 || dealer_up_card == 10) && !deviations && pair {
                return false;
            }
            return true;
        }
        if dealer_up_card == 8 && true_count >= 4 && deviations {
            return true;
        }
    }
    if total == 15 {
        if dealer_up_card == 10 {
            return running_count >= 0;
        }
        if dealer_up_card == 9 && true_count >= 2 && deviations {
            return true;
        }
        if dealer_up_card == 11 && deviations {
            if hit17 && true_count >= -1 {
                return true;
            }
            if !hit17 && true_count >= 2 {
                return true;
            }
        }
    }
    if total == 14 && deviations {
        if hit17 {
            if (true_count >= 6 && dealer_up_card == 9) || (true_count >= 4 && dealer_up_card
                == 10) || (true_count >= 4 && dealer_up_card == 11) {
                return true;
            }
        } else {
            if (true_count >= 7 && dealer_up_card == 9) || (true_count >= 4 && dealer_up_card
                == 10) || (true_count >= 6 && dealer_up_card == 11) {
                return true;
            }
        }
    }
    false
}

/// Two cards without an ace that total fifteen are surrendered to a ten
/// exactly when the running count is not negative: with deviations in play
/// or without, and whatever the true count is.
pub proof fn lemma_fifteen_against_ten(
    hand: Seq<u8>,
    running_count: int,
    true_count: int,
    rules: RulesView,
)
    requires
        hand.len() == 2,
        !has_ace(hand),
        hand[0] + hand[1] == 15,
    ensures
        surrenders(hand, 10, running_count, true_count, rules) <==> running_count >= 0,
{
}

/// Nothing is surrendered to a card below eight, and with deviations off
/// nothing to a card below nine.
pub proof fn lemma_surrender_is_to_a_strong_card(
    hand: Seq<u8>,
    dealer: int,
    running_count: int,
    true_count: int,
    rules: RulesView,
)
    requires
        surrenders(hand, dealer, running_count, true_count, rules),
    ensures
        8 <= dealer <= 11,
        !rules.deviates(1) ==> 9 <= dealer,
{
}

} // verus!
