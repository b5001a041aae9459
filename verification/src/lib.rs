//! Basic-strategy and count-deviation charts for blackjack.
//!
//! Every chart is a pure function of the hand, the dealer's up-card, the
//! count signals and a rule configuration, and each comes with the table it
//! was proved against:
//!
//! - [`hand`] values a hand and says which ace, if any, counts eleven;
//! - [`hard_totals_chart`] and [`soft_totals_chart`] say how to play a total;
//! - [`splits_chart`] says whether to split a pair;
//! - [`surrender`] says whether to give the hand up;
//! - [`insurance`] says whether to insure against an ace;
//! - [`types`] holds the rules of the table and the decisions.
//!
//! The caller keeps the counts, picks the chart by the shape of the hand and
//! plays the decision; nothing here deals a card or remembers a call.

pub mod hand;
pub mod hard_totals_chart;
pub mod insurance;
pub mod soft_totals_chart;
pub mod splits_chart;
pub mod surrender;
pub mod types;

pub use hand::compute_hand;
