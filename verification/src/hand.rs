//! The value of a hand.
//!
//! A hand is a sequence of ranks in deal order. Rank 11 is an ace, rank 10
//! any ten-valued card, and rank 1 an ace that has already been counted low.
//! An ace counts 11 when that does not take the hand over 21, and at most one
//! ace of a hand can do so; every other ace counts 1.

use vstd::prelude::*;

verus! {

/// The rank under which an ace is dealt.
pub const ACE: u8 = 11;

/// The highest total that is not a bust.
pub const BEST_TOTAL: u8 = 21;

/// The ranks a dealer's up-card can have: two to ten, and 11 for an ace.
pub open spec fn is_up_card(card: u8) -> bool {
    2 <= card <= ACE
}

/// The sum of the ranks as they stand.
pub open spec fn rank_sum(hand: Seq<u8>) -> int
    decreases hand.len(),
{
    if hand.len() == 0 {
        0
    } else {
        rank_sum(hand.drop_last()) + hand.last()
    }
}

/// The rank of a card once an ace is counted low.
pub open spec fn low_rank(card: u8) -> u8 {
    if card == ACE {
        1
    } else {
        card
    }
}

/// The hand with every ace counted low.
pub open spec fn aces_low(hand: Seq<u8>) -> Seq<u8> {
    Seq::new(hand.len(), |i: int| low_rank(hand[i]))
}

/// The total of the hand when every ace counts 1.
pub open spec fn low_total(hand: Seq<u8>) -> int {
    rank_sum(aces_low(hand))
}

/// The hand holds an ace of rank 11.
pub open spec fn has_ace(hand: Seq<u8>) -> bool {
    exists|i: int| 0 <= i < hand.len() && hand[i] == ACE
}

/// One ace of the hand can count 11 without taking it over 21.
pub open spec fn is_soft(hand: Seq<u8>) -> bool {
    has_ace(hand) && low_total(hand) + 10 <= BEST_TOTAL
}

/// The best total of the hand: the low total, and ten more when the hand is
/// soft.
pub open spec fn hand_total(hand: Seq<u8>) -> int {
    if is_soft(hand) {
        low_total(hand) + 10
    } else {
        low_total(hand)
    }
}

/// The hand is bust: even its best total is over 21.
pub open spec fn is_bust(hand: Seq<u8>) -> bool {
    hand_total(hand) > BEST_TOTAL
}

/// Two cards that sum to 21.
pub open spec fn is_natural(hand: Seq<u8>) -> bool {
    hand.len() == 2 && hand[0] + hand[1] == BEST_TOTAL
}

/// Card `i` is the first ace of the hand.
pub open spec fn is_first_ace(hand: Seq<u8>, i: int) -> bool {
    &&& 0 <= i < hand.len()
    &&& hand[i] == ACE
    &&& forall|j: int| 0 <= j < i ==> hand[j] != ACE
}

/// The rank that card `i` has once the hand is valued: the first ace of a
/// soft hand keeps rank 11, every other ace gets rank 1, and no other card
/// changes.
pub open spec fn normalized_rank(hand: Seq<u8>, i: int) -> u8 {
    if hand[i] == ACE && !(is_soft(hand) && is_first_ace(hand, i)) {
        1
    } else {
        hand[i]
    }
}

/// The hand with its ranks rewritten to show which ace, if any, counts 11.
pub open spec fn normalized_hand(hand: Seq<u8>) -> Seq<u8> {
    Seq::new(hand.len(), |i: int| normalized_rank(hand, i))
}

/// The sum of the first `n + 1` ranks is the sum of the first `n` and the
/// rank that follows them.
pub proof fn lemma_rank_sum_step(hand: Seq<u8>, n: int)
    requires
        0 <= n < hand.len(),
    ensures
        rank_sum(hand.take(n + 1)) == rank_sum(hand.take(n)) + hand[n],
{
    assert(hand.take(n + 1).drop_last() =~= hand.take(n));
}

/// No prefix of a hand sums to more than the hand.
pub proof fn lemma_rank_sum_prefix(hand: Seq<u8>, n: int)
    requires
        0 <= n <= hand.len(),
    ensures
        0 <= rank_sum(hand.take(n)) <= rank_sum(hand),
    decreases hand.len() - n,
{
    if n == hand.len() {
        assert(hand.take(n) =~= hand);
        lemma_rank_sum_nonnegative(hand);
    } else {
        lemma_rank_sum_step(hand, n);
        lemma_rank_sum_prefix(hand, n + 1);
        lemma_rank_sum_nonnegative(hand.take(n));
    }
}

/// A sum of ranks is never negative.
pub proof fn lemma_rank_sum_nonnegative(hand: Seq<u8>)
    ensures
        0 <= rank_sum(hand),
    decreases hand.len(),
{
    if hand.len() > 0 {
        lemma_rank_sum_nonnegative(hand.drop_last());
    }
}

/// Two cards sum to what they show.
pub proof fn lemma_rank_sum_of_two(hand: Seq<u8>)
    requires
        hand.len() == 2,
    ensures
        rank_sum(hand) == hand[0] + hand[1],
{
    assert(hand.take(0) =~= Seq::<u8>::empty());
    assert(hand.take(2) =~= hand);
    lemma_rank_sum_step(hand, 0);
    lemma_rank_sum_step(hand, 1);
}

/// The ten that a soft hand has over its low total, as far as the first `n`
/// cards show it: it is there once the first ace is among them.
pub open spec fn high_ace_bonus(hand: Seq<u8>, n: int) -> int {
    if is_soft(hand) && has_ace(hand.take(n)) {
        10
    } else {
        0
    }
}

/// The ranks of the valued hand, summed over the first `n` cards, are the
/// low ranks of those cards and the bonus that they show.
proof fn lemma_normalized_prefix(hand: Seq<u8>, n: int)
    requires
        0 <= n <= hand.len(),
    ensures
        rank_sum(normalized_hand(hand).take(n)) == rank_sum(aces_low(hand).take(n))
            + high_ace_bonus(hand, n),
    decreases n,
{
    let valued = normalized_hand(hand);
    let low = aces_low(hand);
    if n == 0 {
        assert(valued.take(0) =~= Seq::<u8>::empty());
        assert(low.take(0) =~= Seq::<u8>::empty());
        assert(hand.take(0) =~= Seq::<u8>::empty());
    } else {
        let m = n - 1;
        lemma_normalized_prefix(hand, m);
        lemma_rank_sum_step(valued, m);
        lemma_rank_sum_step(low, m);
        lemma_has_ace_step(hand, m);
        lemma_first_ace_follows_no_ace(hand, m);
    }
}

/// Card `n` is the first ace of the hand exactly when it is an ace and no
/// ace is among the cards before it.
pub proof fn lemma_first_ace_follows_no_ace(hand: Seq<u8>, n: int)
    requires
        0 <= n < hand.len(),
    ensures
        is_first_ace(hand, n) <==> hand[n] == ACE && !has_ace(hand.take(n)),
{
    let front = hand.take(n);
    if has_ace(front) {
        let j = choose|j: int| 0 <= j < front.len() && front[j] == ACE;
        assert(hand[j] == ACE);
    } else {
        assert forall|j: int| 0 <= j < n implies hand[j] != ACE by {
            assert(front[j] == hand[j]);
        }
    }
}

/// A prefix holds an ace when the prefix one card shorter does, or when the
/// card that was added is one.
proof fn lemma_has_ace_step(hand: Seq<u8>, n: int)
    requires
        0 <= n < hand.len(),
    ensures
        has_ace(hand.take(n + 1)) <==> has_ace(hand.take(n)) || hand[n] == ACE,
{
    let short = hand.take(n);
    let long = hand.take(n + 1);
    if has_ace(short) {
        let j = choose|j: int| 0 <= j < short.len() && short[j] == ACE;
        assert(long[j] == ACE);
    }
    if hand[n] == ACE {
        assert(long[n] == ACE);
    }
    if has_ace(long) {
        let j = choose|j: int| 0 <= j < long.len() && long[j] == ACE;
        if j < n {
            assert(short[j] == ACE);
        }
    }
}

/// Counting aces low does not change what the hand is once an ace is low:
/// the valued hand and the dealt hand have the same low total.
proof fn lemma_normalized_low_total(hand: Seq<u8>)
    ensures
        low_total(normalized_hand(hand)) == low_total(hand),
{
    assert(aces_low(normalized_hand(hand)) =~= aces_low(hand));
}

/// The valued hand holds an ace of rank 11 exactly when the dealt hand is
/// soft.
pub proof fn lemma_normalized_has_ace(hand: Seq<u8>)
    ensures
        has_ace(normalized_hand(hand)) <==> is_soft(hand),
{
    let valued = normalized_hand(hand);
    if is_soft(hand) {
        let first = lemma_first_ace(hand);
        assert(valued[first] == ACE);
    }
    if has_ace(valued) {
        let j = choose|j: int| 0 <= j < valued.len() && valued[j] == ACE;
        assert(valued[j] == normalized_rank(hand, j));
    }
}

/// A hand with an ace has a first one.
pub proof fn lemma_first_ace(hand: Seq<u8>) -> (first: int)
    requires
        has_ace(hand),
    ensures
        is_first_ace(hand, first),
    decreases hand.len(),
{
    let j = choose|j: int| 0 <= j < hand.len() && hand[j] == ACE;
    let front = hand.take(j);
    if has_ace(front) {
        let first = lemma_first_ace(front);
        assert(hand[first] == front[first]);
        assert forall|i: int| 0 <= i < first implies hand[i] != ACE by {
            assert(front[i] == hand[i]);
        }
        first
    } else {
        assert forall|i: int| 0 <= i < j implies hand[i] != ACE by {
            assert(front[i] == hand[i]);
        }
        j
    }
}

/// Any two cards that sum to 21 have a total of 21, which is no bust, and
/// valuing them changes neither card: with an ace among them or without.
pub proof fn lemma_natural_is_twenty_one(hand: Seq<u8>)
    requires
        is_natural(hand),
    ensures
        hand_total(hand) == 21,
        !is_bust(hand),
        normalized_hand(hand) == hand,
{
    let low = aces_low(hand);
    lemma_rank_sum_of_two(low);
    if hand[0] == ACE {
        assert(is_first_ace(hand, 0));
    } else if hand[1] == ACE {
        assert(is_first_ace(hand, 1));
    }
    assert(normalized_hand(hand) =~= hand);
}

/// A hand that has been valued is a fixed point: valuing it again gives the
/// same total and leaves every rank as it is.
pub proof fn lemma_valuing_is_idempotent(hand: Seq<u8>)
    ensures
        hand_total(normalized_hand(hand)) == hand_total(hand),
        normalized_hand(normalized_hand(hand)) == normalized_hand(hand),
{
    let valued = normalized_hand(hand);
    lemma_normalized_low_total(hand);
    lemma_normalized_has_ace(hand);
    assert(is_soft(valued) == is_soft(hand));
    assert forall|i: int| 0 <= i < valued.len() implies normalized_rank(valued, i)
        == valued[i] by {
        if valued[i] == ACE {
            assert(is_first_ace(hand, i));
            assert forall|j: int| 0 <= j < i implies valued[j] != ACE by {
                assert(hand[j] != ACE);
            }
            assert(is_first_ace(valued, i));
        }
    }
    assert(normalized_hand(valued) =~= valued);
}

/// A hand without an ace totals the plain sum of its ranks, and valuing it
/// changes no card.
pub proof fn lemma_aceless_total_is_rank_sum(hand: Seq<u8>)
    requires
        !has_ace(hand),
    ensures
        hand_total(hand) == rank_sum(hand),
        is_bust(hand) <==> rank_sum(hand) > 21,
        normalized_hand(hand) == hand,
{
    assert(aces_low(hand) =~= hand);
    assert(normalized_hand(hand) =~= hand);
}

/// The total can be read back from the valued hand: its ranks, with 11 taken
/// as 11 and every other rank as it stands, sum to the total of the hand
/// that was dealt.
pub proof fn lemma_normalized_ranks_sum_to_total(hand: Seq<u8>)
    ensures
        rank_sum(normalized_hand(hand)) == hand_total(hand),
{
    let n = hand.len() as int;
    lemma_normalized_prefix(hand, n);
    assert(normalized_hand(hand).take(n) =~= normalized_hand(hand));
    assert(aces_low(hand).take(n) =~= aces_low(hand));
    assert(hand.take(n) =~= hand);
}

/// A hand of true ranks, none above an ace, has a low total of at most ten a
/// card, so that the total of a hand of 25 cards or fewer can be held in a
/// `u8`.
pub proof fn lemma_total_of_true_ranks(hand: Seq<u8>)
    requires
        forall|i: int| 0 <= i < hand.len() ==> hand[i] <= ACE,
    ensures
        low_total(hand) <= 10 * hand.len(),
        hand.len() <= 25 ==> hand_total(hand) <= u8::MAX,
    decreases hand.len(),
{
    if hand.len() > 0 {
        let front = hand.drop_last();
        lemma_total_of_true_ranks(front);
        assert(aces_low(hand).drop_last() =~= aces_low(front));
    }
}

/// One more card on a hand that was not bust leaves the total at 31 or less.
pub proof fn lemma_total_after_one_more_card(hand: Seq<u8>)
    requires
        hand.len() > 0,
        !is_bust(hand.drop_last()),
        hand.last() <= ACE,
    ensures
        0 <= hand_total(hand) <= BEST_TOTAL + 10,
{
    assert(aces_low(hand).drop_last() =~= aces_low(hand.drop_last()));
    lemma_rank_sum_nonnegative(aces_low(hand));
}

/// Whether the total of the hand can be held in a `u8`. A hand for which it
/// cannot is bust many times over.
pub fn total_fits(cards: &Vec<u8>) -> (fits: bool)
    ensures
        fits == (hand_total(cards@) <= u8::MAX),
{
    let ghost low = aces_low(cards@);
    let mut total: u16 = 0;
    let mut i: usize = 0;
    while i < cards.len()
        invariant
            i <= cards.len(),
            low == aces_low(cards@),
            total == rank_sum(low.take(i as int)),
            total <= u8::MAX,
        decreases cards.len() - i,
    {
        let card = cards[i];
        proof {
            lemma_rank_sum_step(low, i as int);
        }
        total = total + if card == ACE {
            1
        } else {
            card as u16
        };
        i = i + 1;
        if total > u8::MAX as u16 {
            proof {
                lemma_rank_sum_prefix(low, i as int);
            }
            return false;
        }
    }
    proof {
        assert(low.take(i as int) =~= low);
    }
    true
}

/// Whether the hand holds an ace of rank 11.
pub fn holds_ace(cards: &Vec<u8>) -> (found: bool)
    ensures
        found == has_ace(cards@),
{
    let mut i: usize = 0;
    while i < cards.len()
        invariant
            i <= cards.len(),
            forall|j: int| 0 <= j < i ==> cards@[j] != ACE,
        decreases cards.len() - i,
    {
        if cards[i] == ACE {
            return true;
        }
        i = i + 1;
    }
    false
}

/// Values the hand. Returns its best total and whether that total is
/// playable, which is to say no bust, and rewrites the ranks in place so that
/// they show how each ace was counted: 11 for the one ace that counts high,
/// if there is one, and 1 for every other.
pub fn compute_hand(cards: &mut Vec<u8>) -> (value: (u8, bool))
    requires
        hand_total(old(cards)@) <= u8::MAX,
    ensures
        value.0 == hand_total(old(cards)@),
        value.1 == !is_bust(old(cards)@),
        final(cards)@ == normalized_hand(old(cards)@),
{
    let ghost dealt = cards@;
    let ghost low = aces_low(dealt);
    if cards.len() == 2 {
        let sum: u16 = cards[0] as u16 + cards[1] as u16;
        if sum == 21 {
            proof {
                lemma_natural_is_twenty_one(dealt);
            }
            return (21, true);
        }
    }
    let mut ace_count: usize = 0;
    let mut total: u8 = 0;
    let mut i: usize = 0;
    while i < cards.len()
        invariant
            i <= cards.len(),
            cards@ == dealt,
            low == aces_low(dealt),
            total == rank_sum(low.take(i as int)),
            rank_sum(low) <= u8::MAX,
            ace_count <= i,
            ace_count > 0 <==> has_ace(dealt.take(i as int)),
        decreases cards.len() - i,
    {
        let card = cards[i];
        proof {
            lemma_rank_sum_step(low, i as int);
            lemma_rank_sum_prefix(low, i + 1);
            lemma_has_ace_step(dealt, i as int);
        }
        if card == ACE {
            ace_count = ace_count + 1;
            total = total + 1;
        } else {
            total = total + card;
        }
        i = i + 1;
    }
    proof {
        assert(low.take(i as int) =~= low);
        assert(dealt.take(i as int) =~= dealt);
    }
    if ace_count > 0 && total <= BEST_TOTAL - 10 {
        total = total + 10;
        let mut kept_one = false;
        let mut k: usize = 0;
        while k < cards.len()
            invariant
                k <= cards.len(),
                cards@.len() == dealt.len(),
                is_soft(dealt),
                kept_one <==> has_ace(dealt.take(k as int)),
                forall|j: int| 0 <= j < k ==> cards@[j] == normalized_rank(dealt, j),
                forall|j: int| k <= j < dealt.len() ==> cards@[j] == dealt[j],
            decreases cards.len() - k,
        {
            proof {
                lemma_has_ace_step(dealt, k as int);
                lemma_first_ace_follows_no_ace(dealt, k as int);
            }
            if cards[k] == ACE {
                if kept_one {
                    cards.set(k, 1);
                } else {
                    kept_one = true;
                }
            }
            k = k + 1;
        }
    } else {
        let mut k: usize = 0;
        while k < cards.len()
            invariant
                k <= cards.len(),
                cards@.len() == dealt.len(),
                !is_soft(dealt),
                forall|j: int| 0 <= j < k ==> cards@[j] == normalized_rank(dealt, j),
                forall|j: int| k <= j < dealt.len() ==> cards@[j] == dealt[j],
            decreases cards.len() - k,
        {
            if cards[k] == ACE {
                cards.set(k, 1);
            }
            k = k + 1;
        }
    }
    assert(cards@ =~= normalized_hand(dealt));
    (total, total <= BEST_TOTAL)
}

} // verus!
