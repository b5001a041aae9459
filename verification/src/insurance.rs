//! The insurance advisor.

use crate::hand::ACE;
use crate::types::{Rules, RulesView};
use vstd::prelude::*;

verus! {

/// The true count from which insurance is worth its price.
pub const INSURANCE_TRUE_COUNT: isize = 3;

/// Whether insurance is taken: never by basic strategy, and with deviations
/// in play against an ace from a true count of three.
pub open spec fn takes_insurance(dealer: int, true_count: int, rules: RulesView) -> bool {
    rules.deviates(1) && dealer == ACE && true_count >= INSURANCE_TRUE_COUNT
}

/// Tells whether to take insurance against the dealer's up-card. The same
/// answer holds for even money on a natural.
///
/// The player's hand is not asked for: the advice turns on the count alone,
/// and it is for the caller to ask only while insurance is on offer. Every
/// up-card is taken, since only an ace is ever insured against.
pub fn should_i_take_insurance(dealer_up_card: u8, true_count: isize, rules: &Rules) -> (insure:
    bool)
    ensures
        insure == takes_insurance(dealer_up_card as int, true_count as int, rules@),
{
    if !(rules.enable_deviations() > 0) {
        return false;
    }
    dealer_up_card == ACE && true_count >= INSURANCE_TRUE_COUNT
}

/// Insurance is never taken against a card that is not an ace.
pub proof fn lemma_insurance_needs_an_ace(dealer: int, true_count: int, rules: RulesView)
    requires
        dealer != ACE,
    ensures
        !takes_insurance(dealer, true_count, rules),
{
}

/// With deviations in play, insurance against an ace is taken exactly from
/// a true count of three.
pub proof fn lemma_insurance_threshold(true_count: int, rules: RulesView)
    requires
        rules.deviates(1),
    ensures
        takes_insurance(ACE as int, true_count, rules) <==> true_count >= 3,
{
}

/// With deviations off, insurance is never taken.
pub proof fn lemma_no_insurance_without_deviations(dealer: int, true_count: int, rules: RulesView)
    requires
        !rules.deviates(1),
    ensures
        !takes_insurance(dealer, true_count, rules),
{
}

} // verus!
