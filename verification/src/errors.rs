//! Error taxonomy of the marketplace operations.
//!
//! Every operation aborts with the first violated condition; an abort never
//! leaves a partial mutation behind (each operation's contract says so).

use vstd::prelude::*;

verus! {

/// The reasons an operation can abort.
#[derive(Clone, Copy, PartialEq, Eq, Structural, Debug)]
pub enum ApiError {
    /// A referenced inventory item does not exist.
    ItemNotFound,
    /// The caller-asserted owner does not match the stored owner.
    NotOwner,
    /// The item is still inside its hold period.
    InHold,
    /// A referenced listing does not exist.
    ListingNotFound,
    /// The listing is no longer active.
    ListingClosed,
    /// A referenced auction does not exist.
    AuctionNotFound,
    /// The auction is no longer active.
    AuctionClosed,
    /// The auction's end time has passed.
    AuctionEnded,
    /// A first bid was below the auction's reserve price.
    BelowReserve,
    /// A later bid was below the minimum increment over the top bid.
    BelowIncrement,
    /// The offered price does not exactly match the buy-now price.
    InvalidBuyNow,
    /// The caller is not the recorded top bidder.
    NotWinner,
    /// The starter pack was already granted to this identity.
    AlreadyClaimed,
    /// The external transaction hash was already consumed.
    AlreadyUsed,
    /// A player challenged themself.
    SelfChallenge,
    /// A pending challenge between the same pair already exists.
    DuplicatePending,
    /// A referenced match does not exist.
    MatchNotFound,
    /// The match is not in the state the operation needs.
    InvalidState,
    /// The accepter is not the challenged party.
    NotChallenged,
    /// The reporter is neither participant of the match.
    NotParticipant,
    /// The result payload is not well-formed JSON.
    InvalidJson,
    /// The result payload lacks an integer `home` or `away` field.
    MissingField,
    /// A score in the result payload is negative.
    NegativeScore,
    /// A score in the result payload exceeds the maximum.
    ScoreOutOfRange,
}

impl ApiError {
    /// Stable machine-readable code for each abort reason.
    pub fn code(&self) -> (r: &'static str)
        ensures
            r@ == self.spec_code(),
    {
        match self {
            ApiError::ItemNotFound => "item_not_found",
            ApiError::NotOwner => "not_owner",
            ApiError::InHold => "in_hold",
            ApiError::ListingNotFound => "listing_not_found",
            ApiError::ListingClosed => "listing_closed",
            ApiError::AuctionNotFound => "auction_not_found",
            ApiError::AuctionClosed => "auction_closed",
            ApiError::AuctionEnded => "auction_ended",
            ApiError::BelowReserve => "below_reserve",
            ApiError::BelowIncrement => "below_increment",
            ApiError::InvalidBuyNow => "invalid_buy_now",
            ApiError::NotWinner => "not_winner",
            ApiError::AlreadyClaimed => "starter_already_claimed",
            ApiError::AlreadyUsed => "tx_already_used",
            ApiError::SelfChallenge => "same_fid",
            ApiError::DuplicatePending => "duplicate_pending",
            ApiError::MatchNotFound => "match_not_found",
            ApiError::InvalidState => "invalid_state",
            ApiError::NotChallenged => "not_challenged",
            ApiError::NotParticipant => "not_participant",
            ApiError::InvalidJson => "invalid_json",
            ApiError::MissingField => "missing_field",
            ApiError::NegativeScore => "negative_score",
            ApiError::ScoreOutOfRange => "score_out_of_range",
        }
    }

    /// The code each variant maps to.
    pub open spec fn spec_code(&self) -> Seq<char> {
        match self {
            ApiError::ItemNotFound => "item_not_found"@,
            ApiError::NotOwner => "not_owner"@,
            ApiError::InHold => "in_hold"@,
            ApiError::ListingNotFound => "listing_not_found"@,
            ApiError::ListingClosed => "listing_closed"@,
            ApiError::AuctionNotFound => "auction_not_found"@,
            ApiError::AuctionClosed => "auction_closed"@,
            ApiError::AuctionEnded => "auction_ended"@,
            ApiError::BelowReserve => "below_reserve"@,
            ApiError::BelowIncrement => "below_increment"@,
            ApiError::InvalidBuyNow => "invalid_buy_now"@,
            ApiError::NotWinner => "not_winner"@,
            ApiError::AlreadyClaimed => "starter_already_claimed"@,
            ApiError::AlreadyUsed => "tx_already_used"@,
            ApiError::SelfChallenge => "same_fid"@,
            ApiError::DuplicatePending => "duplicate_pending"@,
            ApiError::MatchNotFound => "match_not_found"@,
            ApiError::InvalidState => "invalid_state"@,
            ApiError::NotChallenged => "not_challenged"@,
            ApiError::NotParticipant => "not_participant"@,
            ApiError::InvalidJson => "invalid_json"@,
            ApiError::MissingField => "missing_field"@,
            ApiError::NegativeScore => "negative_score"@,
            ApiError::ScoreOutOfRange => "score_out_of_range"@,
        }
    }
}

} // verus!
