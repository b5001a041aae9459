//! The chart for soft totals: what to do with a hand in which an ace counts
//! eleven.
//!
//! A soft hand cannot bust on one more card, so the chart doubles it against
//! a weak dealer card where the total is low, hits it up to seventeen, and
//! stands from nineteen on. The chart also takes the small hard hands, of
//! seven and less, and hits them.

use crate::hand::{
    compute_hand, hand_total, holds_ace, is_bust, is_soft, is_up_card, lemma_normalized_has_ace,
    total_fits,
};
use crate::types::{Decision, GameType, IsDoubleAllowed, Rules, RulesView};
use vstd::prelude::*;

verus! {

/// The highest hard total that this chart still takes.
pub const SMALL_HARD_TOTAL: u8 = 7;

/// The cells of the chart in which a soft hand is doubled, given that it is
/// still the two cards that were dealt and that the table lets any total
/// double.
///
/// Soft thirteen and fourteen double against a five or a six, fifteen and
/// sixteen also against a four, seventeen also against a three, and against
/// a two from a true count of one, eighteen against two to six. Soft
/// nineteen doubles against a six, but where the dealer hits soft 17 not at
/// a negative running count, and where the dealer stands on it only from a
/// true count of one; it also doubles against a five from a true count of
/// one and against a four from a true count of three.
pub open spec fn doubles_on_soft(
    total: int,
    dealer: int,
    running_count: int,
    true_count: int,
    rules: RulesView,
) -> bool {
    let hit17 = rules.game_type == GameType::Hit17;
    if total == 19 {
        ||| dealer == 6 && (if hit17 {
            running_count >= 0
        } else {
            true_count >= 1
        })
        ||| dealer == 5 && true_count >= 1
        ||| dealer == 4 && true_count >= 3
    } else if total == 18 {
        2 <= dealer <= 6
    } else if total == 17 {
        3 <= dealer <= 6 || (dealer == 2 && true_count >= 1)
    } else if total == 16 || total == 15 {
        4 <= dealer <= 6
    } else if total == 14 || total == 13 {
        5 <= dealer <= 6
    } else {
        false
    }
}

/// The cells of the chart in which a soft hand that is not doubled is hit:
/// thirteen to seventeen against every card, and eighteen against a nine, a
/// ten or an ace.
pub open spec fn hits_on_soft(total: int, dealer: int) -> bool {
    13 <= total <= 17 || (total == 18 && 9 <= dealer <= 11)
}

/// What the chart gives for a soft total: double where the chart doubles
/// and the player may, else hit where it hits, else stand.
pub open spec fn soft_total_decision(
    total: int,
    two_cards: bool,
    dealer: int,
    running_count: int,
    true_count: int,
    rules: RulesView,
) -> Decision {
    let may_double = two_cards && rules.is_double_allowed == IsDoubleAllowed::Any;
    if may_double && doubles_on_soft(total, dealer, running_count, true_count, rules) {
        Decision::Double
    } else if hits_on_soft(total, dealer) {
        Decision::Hit
    } else {
        Decision::Stand
    }
}

/// What the chart gives for a hand: nothing for a bust hand and for a hard
/// hand of more than seven, which it does not govern; a hit for a hard hand
/// of seven or less; and for a soft hand the decision of its total.
pub open spec fn soft_totals_decision(
    hand: Seq<u8>,
    dealer: int,
    running_count: int,
    true_count: int,
    rules: RulesView,
) -> Option<Decision> {
    if is_bust(hand) {
        None
    } else if is_soft(hand) {
        Some(
            soft_total_decision(
                hand_total(hand),
                hand.len() == 2,
                dealer,
                running_count,
                true_count,
                rules,
            ),
        )
    } else if hand_total(hand) <= SMALL_HARD_TOTAL {
        Some(Decision::Hit)
    } else {
        None
    }
}

/// Looks the hand up in the chart for soft totals. The hand is valued first;
/// `None` says that the chart has nothing for it.
pub fn soft_totals_chart(
    cards_in_hand: &Vec<u8>,
    dealer_up_card: u8,
    running_count: isize,
    true_count: isize,
    rules: &Rules,
) -> (decision: Option<Decision>)
    requires
        cards_in_hand.len() >= 2,
        is_up_card(dealer_up_card),
    ensures
        decision == soft_totals_decision(
            cards_in_hand@,
            dealer_up_card as int,
            running_count as int,
            true_count as int,
            rules@,
        ),
{
    if !total_fits(cards_in_hand) {
        return None;
    }
    let mut tmp = cards_in_hand.clone();
    assert(tmp@ == cards_in_hand@);
    let (total, res) = compute_hand(&mut tmp);
    let soft = holds_ace(&tmp);
    proof {
        lemma_normalized_has_ace(cards_in_hand@);
    }

    if !res || (!soft && total > SMALL_HARD_TOTAL) {
        return None;
    }
    if !soft {
        return Some(Decision::Hit);
    }
    let two_cards = cards_in_hand.len() == 2;
    let any_double = rules.is_double_allowed().any();
    let hit17 = *rules.game_type() == GameType::Hit17;

    // A9
    if total == 20 {
        return Some(Decision::Stand);
    }
    // A8
    if total == 19 {
        if two_cards {
            if hit17 {
                if running_count < 0 && dealer_up_card == 6 {
                    return Some(Decision::Stand);
                }
            } else if dealer_up_card == 6 && any_double {
                if true_count >= 1 {
                    return Some(Decision::Double);
                }
                return Some(Decision::Stand);
            }
            if (dealer_up_card == 6 || (true_count >= 3 && dealer_up_card == 4) || (true_count
                >= 1 && dealer_up_card == 5)) && any_double {
                return Some(Decision::Double);
            }
        }
        return Some(Decision::Stand);
    }
    // A7
    if total == 18 {
        if dealer_up_card >= 2 && dealer_up_card <= 6 && any_double && two_cards {
            return Some(Decision::Double);
        }
        if dealer_up_card >= 9 && dealer_up_card <= 11 {
            return Some(Decision::Hit);
        }
    }
    // A6
    if total == 17 {
        if any_double && ((dealer_up_card >= 3 && dealer_up_card <= 6) || (dealer_up_card == 2
            && true_count >= 1)) && two_cards {
            return Some(Decision::Double);
        }
        return Some(Decision::Hit);
    }
    // A5 and A4
    if total == 16 || total == 15 {
        if any_double && dealer_up_card >= 4 && dealer_up_card <= 6 && two_cards {
            return Some(Decision::Double);
        }
        return Some(Decision::Hit);
    }
    // A3 and A2
    if total == 14 || total == 13 {
        if any_double && dealer_up_card >= 5 && dealer_up_card <= 6 && two_cards {
            return Some(Decision::Double);
        }
        return Some(Decision::Hit);
    }
    Some(Decision::Stand)
}

/// The chart answers for soft hands and for hard hands of seven or less,
/// and for no other hand; and doubling is for two cards at a table that
/// lets any total double.
pub proof fn lemma_soft_chart_is_total(
    hand: Seq<u8>,
    dealer: int,
    running_count: int,
    true_count: int,
    rules: RulesView,
)
    ensures
        soft_totals_decision(hand, dealer, running_count, true_count, rules) is Some <==> is_soft(
            hand,
        ) || hand_total(hand) <= SMALL_HARD_TOTAL,
        soft_totals_decision(hand, dealer, running_count, true_count, rules) == Some(
            Decision::Double,
        ) ==> hand.len() == 2 && rules.is_double_allowed == IsDoubleAllowed::Any,
{
}

/// A soft twenty stands, and so does a soft twenty-one.
pub proof fn lemma_soft_twenty_stands(
    hand: Seq<u8>,
    dealer: int,
    running_count: int,
    true_count: int,
    rules: RulesView,
)
    requires
        is_soft(hand),
        hand_total(hand) >= 20,
    ensures
        soft_totals_decision(hand, dealer, running_count, true_count, rules) == Some(
            Decision::Stand,
        ),
{
}

} // verus!
