//! The chart for pairs: when to split two cards of one rank into two hands.
//!
//! The answer is a plain yes or no. Where it is no, the pair is played by
//! its total.

use crate::hand::is_up_card;
use crate::types::{Rules, RulesView};
use vstd::prelude::*;

verus! {

/// The cells of the chart in which a pair of the given rank is split.
///
/// Aces and eights are always split, fives never. Nines are split against
/// two to six and against an eight or a nine; sevens, threes and twos
/// against two to seven; sixes against two to six; fours against a five or a
/// six. Where the table does not let a split hand double, the low end goes:
/// threes and twos are kept against a two or a three, sixes against a two,
/// and fours altogether. Tens are split with deviations in play only:
/// against a six from a true count of four, against a five from a true count
/// of five and against a four from a true count of six.
pub open spec fn splits_pair(rank: int, dealer: int, true_count: int, rules: RulesView) -> bool {
    let das = rules.double_after_split;
    if rank == 11 || rank == 8 {
        true
    } else if rank == 10 {
        rules.deviates(1) && {
            ||| dealer == 6 && true_count >= 4
            ||| dealer == 5 && true_count >= 5
            ||| dealer == 4 && true_count >= 6
        }
    } else if rank == 9 {
        2 <= dealer <= 6 || 8 <= dealer <= 9
    } else if rank == 7 {
        2 <= dealer <= 7
    } else if rank == 6 {
        2 <= dealer <= 6 && (das || dealer != 2)
    } else if rank == 4 {
        5 <= dealer <= 6 && das
    } else if rank == 3 || rank == 2 {
        2 <= dealer <= 7 && (das || dealer >= 4)
    } else {
        false
    }
}

/// Whether the chart splits the hand: it is a pair, and the chart splits
/// pairs of its rank.
pub open spec fn splits(hand: Seq<u8>, dealer: int, true_count: int, rules: RulesView) -> bool {
    &&& hand.len() == 2
    &&& hand[0] == hand[1]
    &&& splits_pair(hand[0] as int, dealer, true_count, rules)
}

/// Tells whether to split the hand. A hand that is not a pair gets `false`.
pub fn should_i_split(
    cards_in_hand: &Vec<u8>,
    dealer_up_card: u8,
    true_count: isize,
    rules: &Rules,
) -> (split: bool)
    requires
        is_up_card(dealer_up_card),
    ensures
        split == splits(cards_in_hand@, dealer_up_card as int, true_count as int, rules@),
{
    if cards_in_hand.len() < 2 || cards_in_hand.len() > 2 || cards_in_hand[0] != cards_in_hand[1] {
        return false;
    }
    let pc = cards_in_hand[0];

    // 11 & 8
    if pc == 11 || pc == 8 {
        return true;
    }
    // 10
    if pc == 10 && rules.enable_deviations() > 0 {
        if (true_count == 4 && dealer_up_card == 6) || (true_count == 5 && (dealer_up_card >= 5
            && dealer_up_card <= 6)) || (true_count >= 6 && (dealer_up_card >= 4 && dealer_up_card
            <= 6)) {
            return true;
        }
    }
    // 9
    if pc == 9 && ((dealer_up_card >= 2 && dealer_up_card <= 6) || (dealer_up_card >= 8
        && dealer_up_card <= 9)) {
        return true;
    }
    // 7, 2 and 3
    if (pc == 7 || pc == 2 || pc == 3) && dealer_up_card >= 2 && dealer_up_card <= 7 {
        if !rules.double_after_split() && (pc == 2 || pc == 3) && (dealer_up_card == 2
            || dealer_up_card == 3) {
            return false;
        }
        return true;
    }
    // 6
    if pc == 6 && dealer_up_card >= 2 && dealer_up_card <= 6 {
        if !rules.double_after_split() && dealer_up_card == 2 {
            return false;
        }
        return true;
    }
    // 4
    if pc == 4 && dealer_up_card >= 5 && dealer_up_card <= 6 {
        if !rules.double_after_split() {
            return false;
        }
        return true;
    }
    false
}

/// A pair of aces and a pair of eights are split against every card, at
/// every count and under every set of rules.
pub proof fn lemma_aces_and_eights_always_split(
    hand: Seq<u8>,
    dealer: int,
    true_count: int,
    rules: RulesView,
)
    requires
        hand.len() == 2,
        hand[0] == hand[1],
        hand[0] == 11 || hand[0] == 8,
    ensures
        splits(hand, dealer, true_count, rules),
{
}

/// A pair of fives is never split.
pub proof fn lemma_fives_never_split(hand: Seq<u8>, dealer: int, true_count: int, rules: RulesView)
    requires
        hand.len() == 2,
        hand[0] == 5,
        hand[1] == 5,
    ensures
        !splits(hand, dealer, true_count, rules),
{
}

/// Nothing but a pair is split.
pub proof fn lemma_only_pairs_split(hand: Seq<u8>, dealer: int, true_count: int, rules: RulesView)
    requires
        splits(hand, dealer, true_count, rules),
    ensures
        hand.len() == 2,
        hand[0] == hand[1],
{
}

} // verus!
