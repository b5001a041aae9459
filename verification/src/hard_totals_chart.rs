//! The chart for hard totals: what to do with a hand by its total alone.
//!
//! The base table stands on 17 and more, stands on 13 to 16 against a weak
//! dealer card and on 12 against four to six, doubles two-card nines, tens
//! and elevens against the cards they are ahead of, and hits everything
//! else. Deviations move single cells of that table once a count crosses a
//! threshold.

use crate::hand::{compute_hand, hand_total, is_bust, is_up_card, total_fits};
use crate::types::{Decision, GameType, Rules, RulesView};
use vstd::prelude::*;

verus! {

/// The dealer shows a card that is likely to break: two to six.
pub open spec fn dealer_is_weak(dealer: int) -> bool {
    2 <= dealer <= 6
}

/// The cells of the chart in which the player stands.
///
/// Seventeen and more always stands, and fourteen to sixteen stands against a
/// weak card. With deviations in play sixteen and fifteen also stand against
/// a nine, a ten or an ace once the count is high enough, thirteen stops
/// standing against a two at a negative true count, and twelve, which by the
/// base table stands against four to six only, stops standing against a four
/// at a negative running count and starts standing against a two or a three
/// at a high true count.
pub open spec fn stands_on_hard(
    total: int,
    dealer: int,
    running_count: int,
    true_count: int,
    rules: RulesView,
) -> bool {
    let deviating = rules.deviates(1);
    let hit17 = rules.game_type == GameType::Hit17;
    if total >= 17 {
        true
    } else if total == 16 {
        ||| dealer_is_weak(dealer)
        ||| deviating && dealer == 9 && true_count >= 4
        ||| deviating && dealer == 10 && running_count > 0
        ||| deviating && dealer == 11 && true_count >= 3 && hit17
    } else if total == 15 {
        ||| dealer_is_weak(dealer)
        ||| deviating && dealer == 10 && true_count >= 4
        ||| deviating && dealer == 11 && true_count >= 5 && hit17
    } else if total == 14 {
        dealer_is_weak(dealer)
    } else if total == 13 {
        dealer_is_weak(dealer) && !(deviating && dealer == 2 && true_count <= -1)
    } else if total == 12 {
        if deviating && dealer == 4 && running_count < 0 {
            false
        } else {
            ||| 4 <= dealer <= 6
            ||| deviating && dealer == 2 && true_count >= 3
            ||| deviating && dealer == 3 && true_count >= 2
        }
    } else {
        false
    }
}

/// The cells of the chart in which a player who does not stand doubles,
/// given that the hand is still the two cards that were dealt.
///
/// Eleven doubles against every card, but with deviations in play not
/// against an ace where the dealer stands on soft 17 and the true count is
/// under one. Ten doubles against two to nine, nine against three to six.
/// With deviations in play ten also doubles against a ten or an ace, nine
/// against a two or a seven and eight against a six, each from its own true
/// count on; eight against a five asks for the second tier of deviations.
pub open spec fn doubles_on_hard(
    total: int,
    dealer: int,
    true_count: int,
    rules: RulesView,
) -> bool {
    let deviating = rules.deviates(1);
    let hit17 = rules.game_type == GameType::Hit17;
    if total == 11 {
        !(deviating && !hit17 && dealer == 11 && true_count < 1)
    } else if total == 10 {
        ||| 2 <= dealer <= 9
        ||| deviating && dealer == 10 && true_count >= 4
        ||| deviating && dealer == 11 && true_count >= (if hit17 {
            3int
        } else {
            4int
        })
    } else if total == 9 {
        ||| 3 <= dealer <= 6
        ||| deviating && dealer == 2 && true_count >= 1
        ||| deviating && dealer == 7 && true_count >= 3
    } else if total == 8 {
        ||| deviating && dealer == 6 && true_count >= 2
        ||| rules.deviates(2) && dealer == 5 && true_count >= 4
    } else {
        false
    }
}

/// What the chart gives for a playable total: stand where the chart stands,
/// else double where it doubles and the hand is two cards, else hit.
pub open spec fn hard_total_decision(
    total: int,
    two_cards: bool,
    dealer: int,
    running_count: int,
    true_count: int,
    rules: RulesView,
) -> Decision {
    if stands_on_hard(total, dealer, running_count, true_count, rules) {
        Decision::Stand
    } else if two_cards && doubles_on_hard(total, dealer, true_count, rules) {
        Decision::Double
    } else {
        Decision::Hit
    }
}

/// What the chart gives for a hand: nothing for a bust hand, which it does
/// not govern, and a decision for every other.
pub open spec fn hard_totals_decision(
    hand: Seq<u8>,
    dealer: int,
    running_count: int,
    true_count: int,
    rules: RulesView,
) -> Option<Decision> {
    if is_bust(hand) {
        None
    } else {
        Some(
            hard_total_decision(
                hand_total(hand),
                hand.len() == 2,
                dealer,
                running_count,
                true_count,
                rules,
            ),
        )
    }
}

/// Looks the hand up in the chart for hard totals. The hand is valued first;
/// `None` says that it is bust and the chart has nothing for it.
pub fn hard_totals_chart(
    cards_in_hand: &Vec<u8>,
    dealer_up_card: u8,
    running_count: isize,
    true_count: isize,
    rules: &Rules,
) -> (decision: Option<Decision>)
    requires
        cards_in_hand.len() >= 2,
        is_up_card(dealer_up_card),
    ensures
        decision == hard_totals_decision(
            cards_in_hand@,
            dealer_up_card as int,
            running_count as int,
            true_count as int,
            rules@,
        ),
{
    if !total_fits(cards_in_hand) {
        return None;
    }
    let mut tmp = cards_in_hand.clone();
    assert(tmp@ == cards_in_hand@);
    let (total, res) = compute_hand(&mut tmp);

    if !res {
        return None;
    }
    let deviations = rules.enable_deviations();
    let hit17 = *rules.game_type() == GameType::Hit17;

    if total >= 17 || (total >= 14 && total <= 16 && dealer_up_card >= 2 && dealer_up_card <= 6) {
        return Some(Decision::Stand);
    }
    if total == 16 && deviations > 0 {
        if (dealer_up_card == 9 && true_count >= 4) || (dealer_up_card == 10 && running_count > 0)
            || (dealer_up_card == 11 && true_count >= 3 && hit17) {
            return Some(Decision::Stand);
        }
    }
    if total == 15 && deviations > 0 {
        if (dealer_up_card == 10 && true_count >= 4) || (dealer_up_card == 11 && true_count >= 5
            && hit17) {
            return Some(Decision::Stand);
        }
    }
    if total == 13 {
        if dealer_up_card == 2 && true_count <= -1 && deviations > 0 {
            return Some(Decision::Hit);
        }
        if dealer_up_card >= 2 && dealer_up_card <= 6 {
            return Some(Decision::Stand);
        }
    }
    if total == 12 {
        if dealer_up_card == 4 && running_count < 0 && deviations > 0 {
            return Some(Decision::Hit);
        }
        if ((dealer_up_card == 2 && true_count >= 3) || (dealer_up_card == 3 && true_count >= 2))
            && deviations > 0 {
            return Some(Decision::Stand);
        }
        if dealer_up_card >= 4 && dealer_up_card <= 6 {
            return Some(Decision::Stand);
        }
    }
    if total == 11 {
        if deviations > 0 && !hit17 && true_count < 1 && dealer_up_card == 11 {
            return Some(Decision::Hit);
        }
        if cards_in_hand.len() == 2 {
            return Some(Decision::Double);
        }
    }
    if total == 10 {
        if ((dealer_up_card >= 2 && dealer_up_card <= 9) || (((dealer_up_card == 10 && true_count
            >= 4) || (dealer_up_card == 11 && true_count >= 3 && hit17) || (dealer_up_card == 11
            && true_count >= 4 && !hit17)) && deviations > 0)) && cards_in_hand.len() == 2 {
            return Some(Decision::Double);
        }
    }
    if total == 9 {
        if ((dealer_up_card >= 3 && dealer_up_card <= 6) || (((dealer_up_card == 2 && true_count
            >= 1) || (dealer_up_card == 7 && true_count >= 3)) && deviations > 0))
            && cards_in_hand.len() == 2 {
            return Some(Decision::Double);
        }
    }
    if total == 8 && deviations > 0 && cards_in_hand.len() == 2 {
        if dealer_up_card == 6 && true_count >= 2 {
            return Some(Decision::Double);
        }
        if dealer_up_card == 5 && true_count >= 4 && deviations > 1 {
            return Some(Decision::Double);
        }
    }
    Some(Decision::Hit)
}

/// A playable hand of seventeen or more stands: against every card the
/// dealer can show, at every count and under every set of rules.
pub proof fn lemma_hard_seventeen_stands(
    hand: Seq<u8>,
    dealer: int,
    running_count: int,
    true_count: int,
    rules: RulesView,
)
    requires
        17 <= hand_total(hand) <= 21,
    ensures
        hard_totals_decision(hand, dealer, running_count, true_count, rules) == Some(
            Decision::Stand,
        ),
{
}

/// With deviations off a hand of sixteen goes by the dealer's card alone:
/// it stands against two to six and hits against everything else, whatever
/// the counts are.
pub proof fn lemma_hard_sixteen_base_table(
    hand: Seq<u8>,
    dealer: int,
    running_count: int,
    true_count: int,
    rules: RulesView,
)
    requires
        hand_total(hand) == 16,
        !rules.deviates(1),
    ensures
        hard_totals_decision(hand, dealer, running_count, true_count, rules) == Some(
            if 2 <= dealer <= 6 {
                Decision::Stand
            } else {
                Decision::Hit
            },
        ),
{
}

/// With deviations in play a hand of sixteen against a ten turns on the
/// sign of the running count: it stands when the count is positive and hits
/// when it is not, whatever the true count is.
pub proof fn lemma_hard_sixteen_against_ten(
    hand: Seq<u8>,
    running_count: int,
    true_count: int,
    rules: RulesView,
)
    requires
        hand_total(hand) == 16,
        rules.deviates(1),
    ensures
        hard_totals_decision(hand, 10, running_count, true_count, rules) == Some(
            if running_count > 0 {
                Decision::Stand
            } else {
                Decision::Hit
            },
        ),
{
}

/// The chart answers for every hand that is not bust, and for no other; and
/// it never answers with anything but stand, hit or double.
pub proof fn lemma_hard_chart_is_total(
    hand: Seq<u8>,
    dealer: int,
    running_count: int,
    true_count: int,
    rules: RulesView,
)
    ensures
        hard_totals_decision(hand, dealer, running_count, true_count, rules) is None <==> is_bust(
            hand,
        ),
        hard_totals_decision(hand, dealer, running_count, true_count, rules) matches Some(d)
            ==> d == Decision::Stand || d == Decision::Hit || d == Decision::Double,
        hard_totals_decision(hand, dealer, running_count, true_count, rules) == Some(
            Decision::Double,
        ) ==> hand.len() == 2,
{
}

} // verus!
