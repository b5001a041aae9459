//! The value types shared by the charts: the table rules in force and the
//! decisions a chart can give.

use vstd::prelude::*;

verus! {

/// Fewest decks a shoe may hold.
pub const MIN_DECKS: u8 = 2;

/// Most decks a shoe may hold.
pub const MAX_DECKS: u8 = 8;

/// Most splits a table may allow on one hand.
pub const MAX_SPLITS: u8 = 3;

/// Most players that may sit at the table besides the one being advised.
pub const MAX_OTHER_PLAYERS: u8 = 4;

/// What the dealer does on a soft 17.
#[derive(Clone, Copy, Debug, PartialEq, Eq, Structural)]
pub enum GameType {
    Hit17,
    Stand17,
}

impl Default for GameType {
    fn default() -> (r: Self)
        ensures
            r == GameType::Hit17,
    {
        GameType::Hit17
    }
}

/// Whether a pair of aces may be split, and how often.
#[derive(Clone, Copy, Debug)]
pub enum SplitAces {
    No,
    SplitAcesOnce,
    ReSplitAces,
}

impl Default for SplitAces {
    fn default() -> (r: Self)
        ensures
            r == SplitAces::SplitAcesOnce,
    {
        SplitAces::SplitAcesOnce
    }
}

/// What a natural pays.
#[derive(Clone, Copy, Debug)]
pub enum BlackjackPayout {
    ThreeToTwo,
    SixToFive,
    Even,
}

impl Default for BlackjackPayout {
    fn default() -> (r: Self)
        ensures
            r == BlackjackPayout::ThreeToTwo,
    {
        BlackjackPayout::ThreeToTwo
    }
}

/// On which two-card totals the table lets a player double down.
#[derive(Clone, Copy, Debug, PartialEq, Eq, Structural)]
pub enum IsDoubleAllowed {
    No,
    NineAndTenOnly,
    NineTenAndAceOnly,
    Any,
}

impl Default for IsDoubleAllowed {
    fn default() -> (r: Self)
        ensures
            r == IsDoubleAllowed::Any,
    {
        IsDoubleAllowed::Any
    }
}

impl IsDoubleAllowed {
    /// Doubling is open on every total.
    pub fn any(&self) -> (r: bool)
        ensures
            r == (*self is Any),
    {
        match self {
            IsDoubleAllowed::Any => true,
            _ => false,
        }
    }

    /// Doubling is not offered at all.
    pub fn no(&self) -> (r: bool)
        ensures
            r == (*self is No),
    {
        match self {
            IsDoubleAllowed::No => true,
            _ => false,
        }
    }

    /// Doubling is offered on a nine: under every policy but `No`.
    pub fn double_on_nine(&self) -> (r: bool)
        ensures
            r == !(*self is No),
    {
        match self {
            IsDoubleAllowed::NineAndTenOnly
            | IsDoubleAllowed::NineTenAndAceOnly
            | IsDoubleAllowed::Any => true,
            _ => false,
        }
    }

    /// Doubling is offered on a ten: under every policy but `No`.
    pub fn double_on_ten(&self) -> (r: bool)
        ensures
            r == !(*self is No),
    {
        match self {
            IsDoubleAllowed::NineAndTenOnly
            | IsDoubleAllowed::NineTenAndAceOnly
            | IsDoubleAllowed::Any => true,
            _ => false,
        }
    }

    /// Doubling is offered on a hand with an ace: under the two widest
    /// policies only.
    pub fn double_on_ace(&self) -> (r: bool)
        ensures
            r == (*self is NineTenAndAceOnly || *self is Any),
    {
        match self {
            IsDoubleAllowed::NineTenAndAceOnly | IsDoubleAllowed::Any => true,
            _ => false,
        }
    }
}

/// At which counts the player sits the round in.
#[derive(Clone, Copy, Debug)]
pub enum PlayVariation {
    PlayEverything,
    AvoidPlayingNegativeTrueCounts,
    PlayAboveNegativeTrueTwo,
    PlayOnlyPositiveTrueCounts,
    PlayAnyPositiveRunningCount,
}

impl Default for PlayVariation {
    fn default() -> (r: Self)
        ensures
            r == PlayVariation::PlayEverything,
    {
        PlayVariation::PlayEverything
    }
}

impl PlayVariation {
    /// The counts at which a round is played under this variation.
    pub open spec fn plays(self, true_count: int, running_count: int) -> bool {
        match self {
            PlayVariation::PlayEverything => true,
            PlayVariation::AvoidPlayingNegativeTrueCounts => true_count >= 0,
            PlayVariation::PlayAboveNegativeTrueTwo => true_count > -2,
            PlayVariation::PlayOnlyPositiveTrueCounts => true_count > 0,
            PlayVariation::PlayAnyPositiveRunningCount => running_count > 0,
        }
    }

    /// Whether to play the coming round at the given counts.
    pub fn play(&self, true_count: i32, running_count: i32) -> (r: bool)
        ensures
            r == self.plays(true_count as int, running_count as int),
    {
        match self {
            PlayVariation::PlayEverything => true,
            PlayVariation::AvoidPlayingNegativeTrueCounts => true_count >= 0,
            PlayVariation::PlayAboveNegativeTrueTwo => true_count >= -1,
            PlayVariation::PlayOnlyPositiveTrueCounts => true_count > 0,
            PlayVariation::PlayAnyPositiveRunningCount => running_count > 0,
        }
    }
}

/// Where the cut card sits, in quarter decks.
#[derive(Clone, Copy, Debug)]
pub enum DeckPen {
    Quater,
    Half,
    ThreeFourth,
    One,
    OneQuater,
    OneAndHalf,
    OneThreeFourth,
    Two,
}

impl Default for DeckPen {
    fn default() -> (r: Self)
        ensures
            r == DeckPen::One,
    {
        DeckPen::One
    }
}

impl DeckPen {
    /// The number of quarter decks this penetration stands for.
    pub open spec fn quarter_decks(self) -> nat {
        match self {
            DeckPen::Quater => 1,
            DeckPen::Half => 2,
            DeckPen::ThreeFourth => 3,
            DeckPen::One => 4,
            DeckPen::OneQuater => 5,
            DeckPen::OneAndHalf => 6,
            DeckPen::OneThreeFourth => 7,
            DeckPen::Two => 8,
        }
    }

    /// The penetration in cards: thirteen to the quarter deck.
    pub fn value(&self) -> (r: usize)
        ensures
            r == 13 * self.quarter_decks(),
    {
        match self {
            DeckPen::Quater => 13,
            DeckPen::Half => 26,
            DeckPen::ThreeFourth => 39,
            DeckPen::One => 52,
            DeckPen::OneQuater => 65,
            DeckPen::OneAndHalf => 78,
            DeckPen::OneThreeFourth => 91,
            DeckPen::Two => 104,
        }
    }
}

/// How many count-based deviations from basic strategy are in play. The
/// tiers are ordered: each one adds to those before it.
#[derive(Clone, Copy, Debug)]
pub enum Deviations {
    Off,
    Standard,
    Extended1,
    Extended2,
    Extended3,
    Extended4,
}

impl Default for Deviations {
    fn default() -> (r: Self)
        ensures
            r == Deviations::Off,
    {
        Deviations::Off
    }
}

impl Deviations {
    /// The rank of this tier in the order `Off < Standard < Extended1 < ..`.
    /// A deviation that asks for tier `t` is in play when `self.tier() >= t`.
    pub open spec fn tier(self) -> nat {
        match self {
            Deviations::Off => 0,
            Deviations::Standard => 1,
            Deviations::Extended1 => 2,
            Deviations::Extended2 => 3,
            Deviations::Extended3 => 4,
            Deviations::Extended4 => 5,
        }
    }

    /// The rank of the tier as a number.
    fn get_val(&self) -> (r: u8)
        ensures
            r == self.tier(),
    {
        match &self {
            Deviations::Off => 0,
            Deviations::Standard => 1,
            Deviations::Extended1 => 2,
            Deviations::Extended2 => 3,
            Deviations::Extended3 => 4,
            Deviations::Extended4 => 5,
        }
    }
}

/// How the other players at the table are simulated.
#[derive(Clone, Copy, Debug)]
pub enum OtherPlayersPlayType {
    PerfectBasicStrategy,
    Random,
    NoBustStrategy,
}

impl Default for OtherPlayersPlayType {
    fn default() -> (r: Self)
        ensures
            r == OtherPlayersPlayType::PerfectBasicStrategy,
    {
        OtherPlayersPlayType::PerfectBasicStrategy
    }
}

/// What a chart tells the player to do.
#[derive(Clone, Copy, Debug, PartialEq, Eq, Structural)]
pub enum Decision {
    Stand,
    Hit,
    Split,
    Double,
    Surrender,
    GotBJ,
}

impl Default for Decision {
    fn default() -> (r: Self)
        ensures
            r == Decision::Stand,
    {
        Decision::Stand
    }
}

/// A rule configuration as the charts see it.
pub struct RulesView {
    pub game_type: GameType,
    pub double_after_split: bool,
    pub split_aces: SplitAces,
    pub surrender: bool,
    pub decks: nat,
    pub blackjack_payout: BlackjackPayout,
    pub is_double_allowed: IsDoubleAllowed,
    pub max_splits_allowed: nat,
    pub deck_pen: DeckPen,
    pub number_of_other_players: nat,
    pub enable_deviations: Deviations,
    pub play_variation: PlayVariation,
    pub do_other_players_play_perfect_strategy: OtherPlayersPlayType,
}

impl RulesView {
    /// The numeric fields lie in the ranges a table can have: two to eight
    /// decks, at most three splits, one to five players in all.
    pub open spec fn in_range(self) -> bool {
        &&& MIN_DECKS <= self.decks <= MAX_DECKS
        &&& self.max_splits_allowed <= MAX_SPLITS
        &&& self.number_of_other_players <= MAX_OTHER_PLAYERS
    }

    /// Whether deviations of the given tier are in play.
    pub open spec fn deviates(self, tier: nat) -> bool {
        self.enable_deviations.tier() >= tier
    }
}

/// The eight-deck table on which the dealer hits soft 17, with every common
/// player option open and no deviations.
pub open spec fn default_rules() -> RulesView {
    RulesView {
        game_type: GameType::Hit17,
        double_after_split: true,
        split_aces: SplitAces::SplitAcesOnce,
        surrender: true,
        decks: 8,
        blackjack_payout: BlackjackPayout::ThreeToTwo,
        is_double_allowed: IsDoubleAllowed::Any,
        max_splits_allowed: 3,
        deck_pen: DeckPen::One,
        number_of_other_players: 1,
        enable_deviations: Deviations::Off,
        play_variation: PlayVariation::PlayEverything,
        do_other_players_play_perfect_strategy: OtherPlayersPlayType::PerfectBasicStrategy,
    }
}

/// The rules of one table. A value is made by [`RulesBuilder::build`] or
/// [`Rules::default`]; its numeric fields always lie in range.
#[derive(Debug)]
pub struct Rules {
    game_type: GameType,
    double_after_split: bool,
    split_aces: SplitAces,
    surrender: bool,
    decks: u8,
    blackjack_payout: BlackjackPayout,
    is_double_allowed: IsDoubleAllowed,
    max_splits_allowed: u8,
    deck_pen: DeckPen,
    number_of_other_players: u8,
    enable_deviations: Deviations,
    play_variation: PlayVariation,
    do_other_players_play_perfect_strategy: OtherPlayersPlayType,
}

impl View for Rules {
    type V = RulesView;

    closed spec fn view(&self) -> RulesView {
        RulesView {
            game_type: self.game_type,
            double_after_split: self.double_after_split,
            split_aces: self.split_aces,
            surrender: self.surrender,
            decks: self.decks as nat,
            blackjack_payout: self.blackjack_payout,
            is_double_allowed: self.is_double_allowed,
            max_splits_allowed: self.max_splits_allowed as nat,
            deck_pen: self.deck_pen,
            number_of_other_players: self.number_of_other_players as nat,
            enable_deviations: self.enable_deviations,
            play_variation: self.play_variation,
            do_other_players_play_perfect_strategy: self.do_other_players_play_perfect_strategy,
        }
    }
}

impl Clone for Rules {
    fn clone(&self) -> (r: Self)
        ensures
            r@ == self@,
    {
        proof {
            use_type_invariant(self);
        }
        Rules {
            game_type: self.game_type,
            double_after_split: self.double_after_split,
            split_aces: self.split_aces,
            surrender: self.surrender,
            decks: self.decks,
            blackjack_payout: self.blackjack_payout,
            is_double_allowed: self.is_double_allowed,
            max_splits_allowed: self.max_splits_allowed,
            deck_pen: self.deck_pen,
            number_of_other_players: self.number_of_other_players,
            enable_deviations: self.enable_deviations,
            play_variation: self.play_variation,
            do_other_players_play_perfect_strategy: self.do_other_players_play_perfect_strategy,
        }
    }
}

impl Default for Rules {
    fn default() -> (r: Self)
        ensures
            r@ == default_rules(),
    {
        Rules {
            game_type: GameType::Hit17,
            double_after_split: true,
            split_aces: SplitAces::SplitAcesOnce,
            surrender: true,
            decks: 8,
            blackjack_payout: BlackjackPayout::ThreeToTwo,
            is_double_allowed: IsDoubleAllowed::Any,
            max_splits_allowed: 3,
            deck_pen: DeckPen::One,
            number_of_other_players: 1,
            enable_deviations: Deviations::Off,
            play_variation: PlayVariation::PlayEverything,
            do_other_players_play_perfect_strategy: OtherPlayersPlayType::PerfectBasicStrategy,
        }
    }
}

impl Rules {
    #[verifier::type_invariant]
    spec fn in_range(self) -> bool {
        self@.in_range()
    }

    /// What the dealer does on a soft 17.
    pub fn game_type(&self) -> (r: &GameType)
        ensures
            *r == self@.game_type,
    {
        &self.game_type
    }

    /// Whether a hand made by a split may double.
    pub fn double_after_split(&self) -> (r: bool)
        ensures
            r == self@.double_after_split,
    {
        self.double_after_split
    }

    /// Whether a pair of aces may be split, and how often.
    pub fn split_aces(&self) -> (r: &SplitAces)
        ensures
            *r == self@.split_aces,
    {
        &self.split_aces
    }

    /// Whether the table takes a surrender.
    pub fn surrender(&self) -> (r: bool)
        ensures
            r == self@.surrender,
    {
        self.surrender
    }

    /// The number of decks in the shoe: two to eight.
    pub fn decks(&self) -> (r: u8)
        ensures
            r == self@.decks,
            MIN_DECKS <= r <= MAX_DECKS,
    {
        proof {
            use_type_invariant(self);
        }
        self.decks
    }

    /// What a natural pays.
    pub fn blackjack_payout(&self) -> (r: &BlackjackPayout)
        ensures
            *r == self@.blackjack_payout,
    {
        &self.blackjack_payout
    }

    /// On which totals a hand may double.
    pub fn is_double_allowed(&self) -> (r: &IsDoubleAllowed)
        ensures
            *r == self@.is_double_allowed,
    {
        &self.is_double_allowed
    }

    /// The number of splits allowed on one hand: at most three.
    pub fn max_splits_allowed(&self) -> (r: u8)
        ensures
            r == self@.max_splits_allowed,
            r <= MAX_SPLITS,
    {
        proof {
            use_type_invariant(self);
        }
        self.max_splits_allowed
    }

    /// Where the cut card sits.
    pub fn deck_pen(&self) -> (r: &DeckPen)
        ensures
            *r == self@.deck_pen,
    {
        &self.deck_pen
    }

    /// The number of other players at the table: at most four.
    pub fn number_of_other_players(&self) -> (r: u8)
        ensures
            r == self@.number_of_other_players,
            r <= MAX_OTHER_PLAYERS,
    {
        proof {
            use_type_invariant(self);
        }
        self.number_of_other_players
    }

    /// The rank of the deviation tier in play; 0 when deviations are off.
    pub fn enable_deviations(&self) -> (r: u8)
        ensures
            r == self@.enable_deviations.tier(),
    {
        self.enable_deviations.get_val()
    }

    /// At which counts the player sits the round in.
    pub fn play_variation(&self) -> (r: &PlayVariation)
        ensures
            *r == self@.play_variation,
    {
        &self.play_variation
    }

    /// How the other players at the table play.
    pub fn do_other_players_play_perfect_strategy(&self) -> (r: OtherPlayersPlayType)
        ensures
            r == self@.do_other_players_play_perfect_strategy,
    {
        self.do_other_players_play_perfect_strategy
    }

    /// Puts another tier of deviations in play; nothing else changes.
    pub fn set_enable_deviations(&mut self, value: Deviations)
        ensures
            final(self)@ == (RulesView { enable_deviations: value, ..old(self)@ }),
    {
        proof {
            use_type_invariant(&*self);
        }
        self.enable_deviations = value;
    }

    /// Changes what the dealer does on a soft 17; nothing else changes.
    pub fn set_game_type(&mut self, game_type: GameType)
        ensures
            final(self)@ == (RulesView { game_type: game_type, ..old(self)@ }),
    {
        proof {
            use_type_invariant(&*self);
        }
        self.game_type = game_type;
    }
}

/// What a [`RulesBuilder`] holds: the fields of a rule configuration as they
/// were given, checked by nothing yet, and the game type perhaps not given.
pub struct RulesBuilderView {
    pub game_type: Option<GameType>,
    pub double_after_split: bool,
    pub split_aces: SplitAces,
    pub surrender: bool,
    pub decks: nat,
    pub blackjack_payout: BlackjackPayout,
    pub is_double_allowed: IsDoubleAllowed,
    pub max_splits_allowed: nat,
    pub deck_pen: DeckPen,
    pub number_of_other_players: nat,
    pub enable_deviations: Deviations,
    pub play_variation: PlayVariation,
    pub do_other_players_play_perfect_strategy: OtherPlayersPlayType,
}

/// The message for a builder that was never told what the dealer does on a
/// soft 17.
pub const GAME_TYPE_REQUIRED: &'static str = "game_type is required";

/// The message for a number of decks that no shoe holds.
pub const DECKS_OUT_OF_RANGE: &'static str = "decks must be between 2 and 8";

/// The message for more splits than a table allows.
pub const MAX_SPLITS_OUT_OF_RANGE: &'static str = "max_splits_allowed must be at most 3";

/// The message for more players than a table seats.
pub const OTHER_PLAYERS_OUT_OF_RANGE: &'static str = "number_of_other_players must be at most 4";

impl RulesBuilderView {
    /// What a new builder holds: six decks, three splits, one other player,
    /// any total may double, no doubling after a split, no surrender, no
    /// deviations, and no game type.
    pub open spec fn initial() -> RulesBuilderView {
        RulesBuilderView {
            game_type: None,
            double_after_split: false,
            split_aces: SplitAces::SplitAcesOnce,
            surrender: false,
            decks: 6,
            blackjack_payout: BlackjackPayout::ThreeToTwo,
            is_double_allowed: IsDoubleAllowed::Any,
            max_splits_allowed: 3,
            deck_pen: DeckPen::One,
            number_of_other_players: 1,
            enable_deviations: Deviations::Off,
            play_variation: PlayVariation::PlayEverything,
            do_other_players_play_perfect_strategy: OtherPlayersPlayType::PerfectBasicStrategy,
        }
    }

    /// The configuration that the fields describe, for a builder that has
    /// its game type.
    pub open spec fn rules(self) -> RulesView {
        RulesView {
            game_type: self.game_type->Some_0,
            double_after_split: self.double_after_split,
            split_aces: self.split_aces,
            surrender: self.surrender,
            decks: self.decks,
            blackjack_payout: self.blackjack_payout,
            is_double_allowed: self.is_double_allowed,
            max_splits_allowed: self.max_splits_allowed,
            deck_pen: self.deck_pen,
            number_of_other_players: self.number_of_other_players,
            enable_deviations: self.enable_deviations,
            play_variation: self.play_variation,
            do_other_players_play_perfect_strategy: self.do_other_players_play_perfect_strategy,
        }
    }

    /// The first thing that is wrong with the fields, if anything is: the
    /// game type is missing, or the decks, the splits or the other players
    /// are out of range, looked at in that order.
    pub open spec fn fault(self) -> Option<Seq<char>> {
        if self.game_type is None {
            Some(GAME_TYPE_REQUIRED@)
        } else if !(MIN_DECKS <= self.decks <= MAX_DECKS) {
            Some(DECKS_OUT_OF_RANGE@)
        } else if self.max_splits_allowed > MAX_SPLITS {
            Some(MAX_SPLITS_OUT_OF_RANGE@)
        } else if self.number_of_other_players > MAX_OTHER_PLAYERS {
            Some(OTHER_PLAYERS_OUT_OF_RANGE@)
        } else {
            None
        }
    }
}

/// A builder has no fault exactly when it has its game type and describes a
/// configuration whose numeric fields are in range.
pub proof fn lemma_faultless_is_in_range(builder: RulesBuilderView)
    ensures
        builder.fault() is None <==> builder.game_type is Some && builder.rules().in_range(),
{
}

/// Collects the fields of a rule configuration one by one. Nothing is
/// checked until [`RulesBuilder::build`].
pub struct RulesBuilder {
    game_type: Option<GameType>,
    double_after_split: bool,
    split_aces: SplitAces,
    surrender: bool,
    decks: u8,
    blackjack_payout: BlackjackPayout,
    is_double_allowed: IsDoubleAllowed,
    max_splits_allowed: u8,
    deck_pen: DeckPen,
    number_of_other_players: u8,
    enable_deviations: Deviations,
    play_variation: PlayVariation,
    do_other_players_play_perfect_strategy: OtherPlayersPlayType,
}

impl View for RulesBuilder {
    type V = RulesBuilderView;

    closed spec fn view(&self) -> RulesBuilderView {
        RulesBuilderView {
            game_type: self.game_type,
            double_after_split: self.double_after_split,
            split_aces: self.split_aces,
            surrender: self.surrender,
            decks: self.decks as nat,
            blackjack_payout: self.blackjack_payout,
            is_double_allowed: self.is_double_allowed,
            max_splits_allowed: self.max_splits_allowed as nat,
            deck_pen: self.deck_pen,
            number_of_other_players: self.number_of_other_players as nat,
            enable_deviations: self.enable_deviations,
            play_variation: self.play_variation,
            do_other_players_play_perfect_strategy: self.do_other_players_play_perfect_strategy,
        }
    }
}

impl RulesBuilder {
    /// A builder with the usual table in it and the game type still to give.
    pub fn new() -> (r: Self)
        ensures
            r@ == RulesBuilderView::initial(),
    {
        Self {
            game_type: None,
            double_after_split: false,
            split_aces: SplitAces::SplitAcesOnce,
            surrender: false,
            decks: 6,
            blackjack_payout: BlackjackPayout::ThreeToTwo,
            is_double_allowed: IsDoubleAllowed::Any,
            max_splits_allowed: 3,
            deck_pen: DeckPen::One,
            number_of_other_players: 1,
            enable_deviations: Deviations::Off,
            play_variation: PlayVariation::PlayEverything,
            do_other_players_play_perfect_strategy: OtherPlayersPlayType::PerfectBasicStrategy,
        }
    }

    /// Gives the game type, without which nothing is built.
    pub fn game_type(self, game_type: GameType) -> (r: Self)
        ensures
            r@ == (RulesBuilderView { game_type: Some(game_type), ..self@ }),
    {
        let mut builder = self;
        builder.game_type = Some(game_type);
        builder
    }

    /// Says whether a hand made by a split may double.
    pub fn double_after_split(self, val: bool) -> (r: Self)
        ensures
            r@ == (RulesBuilderView { double_after_split: val, ..self@ }),
    {
        let mut builder = self;
        builder.double_after_split = val;
        builder
    }

    /// Says whether a pair of aces may be split, and how often.
    pub fn split_aces(self, val: SplitAces) -> (r: Self)
        ensures
            r@ == (RulesBuilderView { split_aces: val, ..self@ }),
    {
        let mut builder = self;
        builder.split_aces = val;
        builder
    }

    /// Says whether the table takes a surrender.
    pub fn surrender(self, val: bool) -> (r: Self)
        ensures
            r@ == (RulesBuilderView { surrender: val, ..self@ }),
    {
        let mut builder = self;
        builder.surrender = val;
        builder
    }

    /// Gives the number of decks. It is kept as given and checked when the
    /// configuration is built.
    pub fn decks(self, val: u8) -> (r: Self)
        ensures
            r@ == (RulesBuilderView { decks: val as nat, ..self@ }),
    {
        let mut builder = self;
        builder.decks = val;
        builder
    }

    /// Says what a natural pays.
    pub fn blackjack_payout(self, val: BlackjackPayout) -> (r: Self)
        ensures
            r@ == (RulesBuilderView { blackjack_payout: val, ..self@ }),
    {
        let mut builder = self;
        builder.blackjack_payout = val;
        builder
    }

    /// Says on which totals a hand may double.
    pub fn is_double_allowed(self, val: IsDoubleAllowed) -> (r: Self)
        ensures
            r@ == (RulesBuilderView { is_double_allowed: val, ..self@ }),
    {
        let mut builder = self;
        builder.is_double_allowed = val;
        builder
    }

    /// Gives the number of splits allowed on one hand. It is kept as given and
    /// checked when the configuration is built.
    pub fn max_splits_allowed(self, val: u8) -> (r: Self)
        ensures
            r@ == (RulesBuilderView { max_splits_allowed: val as nat, ..self@ }),
    {
        let mut builder = self;
        builder.max_splits_allowed = val;
        builder
    }

    /// Says where the cut card sits.
    pub fn deck_pen(self, val: DeckPen) -> (r: Self)
        ensures
            r@ == (RulesBuilderView { deck_pen: val, ..self@ }),
    {
        let mut builder = self;
        builder.deck_pen = val;
        builder
    }

    /// Gives the number of other players. It is kept as given and checked when
    /// the configuration is built.
    pub fn number_of_other_players(self, val: u8) -> (r: Self)
        ensures
            r@ == (RulesBuilderView { number_of_other_players: val as nat, ..self@ }),
    {
        let mut builder = self;
        builder.number_of_other_players = val;
        builder
    }

    /// Says which tier of deviations is in play.
    pub fn enable_deviations(self, val: Deviations) -> (r: Self)
        ensures
            r@ == (RulesBuilderView { enable_deviations: val, ..self@ }),
    {
        let mut builder = self;
        builder.enable_deviations = val;
        builder
    }

    /// Says at which counts the player sits the round in.
    pub fn play_variation(self, val: PlayVariation) -> (r: Self)
        ensures
            r@ == (RulesBuilderView { play_variation: val, ..self@ }),
    {
        let mut builder = self;
        builder.play_variation = val;
        builder
    }

    /// Says how the other players at the table play.
    pub fn do_other_players_play_perfect_strategy(self, value: OtherPlayersPlayType) -> (r: Self)
        ensures
            r@ == (RulesBuilderView { do_other_players_play_perfect_strategy: value, ..self@ }),
    {
        let mut builder = self;
        builder.do_other_players_play_perfect_strategy = value;
        builder
    }

    /// Checks the fields and makes the configuration. It fails, with a
    /// message that names the field, when the game type was never given or a
    /// numeric field is out of range; otherwise it gives the configuration
    /// with every field as it was given.
    pub fn build(self) -> (r: Result<Rules, &'static str>)
        ensures
            match r {
                Ok(rules) => self@.fault() is None && rules@ == self@.rules(),
                Err(message) => self@.fault() == Some(message@),
            },
    {
        let game_type = match self.game_type {
            Some(game_type) => game_type,
            None => {
                return Err(GAME_TYPE_REQUIRED);
            },
        };
        if self.decks < MIN_DECKS || self.decks > MAX_DECKS {
            return Err(DECKS_OUT_OF_RANGE);
        }
        if self.max_splits_allowed > MAX_SPLITS {
            return Err(MAX_SPLITS_OUT_OF_RANGE);
        }
        if self.number_of_other_players > MAX_OTHER_PLAYERS {
            return Err(OTHER_PLAYERS_OUT_OF_RANGE);
        }
        Ok(
            Rules {
                game_type,
                double_after_split: self.double_after_split,
                split_aces: self.split_aces,
                surrender: self.surrender,
                decks: self.decks,
                blackjack_payout: self.blackjack_payout,
                is_double_allowed: self.is_double_allowed,
                max_splits_allowed: self.max_splits_allowed,
                deck_pen: self.deck_pen,
                number_of_other_players: self.number_of_other_players,
                enable_deviations: self.enable_deviations,
                play_variation: self.play_variation,
                do_other_players_play_perfect_strategy: self.do_other_players_play_perfect_strategy,
            },
        )
    }
}

} // verus!
