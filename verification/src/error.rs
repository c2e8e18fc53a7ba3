//! The ways an operation of the marketplace can fail.

use crate::text::{decimal_digits, push_decimal};
use vstd::prelude::*;
use vstd::string::StringExecFns;

verus! {

/// Why an operation failed. None of these ends the process; each is handed
/// back to the caller, who decides what to show.
#[derive(Debug, PartialEq, Eq)]
pub enum MarketError {
    /// No listing has the id that was asked for.
    NotFound,
    /// The asset already has an active listing.
    Conflict,
    /// The address does not match the one that may cancel the listing.
    Unauthorized,
    /// The listing is already sold or cancelled.
    InvalidState,
    /// A tip tier, an id or an amount that cannot be accepted.
    InvalidArgument,
    /// The buyer's outputs do not reach the amount that is needed.
    InsufficientFunds { required: u64, available: u64 },
    /// The inputs handed to the assembler do not cover the outputs.
    Underfunded,
    /// An address that does not parse, or is not of this network.
    InvalidAddress,
    /// Bytes that do not decode as a transaction.
    MalformedTransaction,
    /// The broadcaster refused the transaction, with its reason.
    BroadcastRejected(String),
    /// An external collaborator did not answer.
    ExternalUnavailable,
    /// The persistence layer failed.
    StorageError,
}

impl MarketError {
    /// Whether trying again may help: only where storage or an external
    /// collaborator failed.
    pub open spec fn spec_is_retryable(self) -> bool {
        self is StorageError || self is ExternalUnavailable
    }

    /// Whether trying again may help: only where storage or an external
    /// collaborator failed.
    pub fn is_retryable(&self) -> (r: bool)
        ensures
            r == self.spec_is_retryable(),
    {
        match self {
            MarketError::StorageError => true,
            MarketError::ExternalUnavailable => true,
            _ => false,
        }
    }
}

impl MarketError {
    /// The kind of a failure, as a short name.
    pub open spec fn spec_kind(self) -> Seq<char> {
        match self {
            MarketError::NotFound => "not_found"@,
            MarketError::Conflict => "conflict"@,
            MarketError::Unauthorized => "unauthorized"@,
            MarketError::InvalidState => "invalid_state"@,
            MarketError::InvalidArgument => "invalid_argument"@,
            MarketError::InsufficientFunds { .. } => "insufficient_funds"@,
            MarketError::Underfunded => "underfunded"@,
            MarketError::InvalidAddress => "invalid_address"@,
            MarketError::MalformedTransaction => "malformed_transaction"@,
            MarketError::BroadcastRejected(_) => "broadcast_rejected"@,
            MarketError::ExternalUnavailable => "external_unavailable"@,
            MarketError::StorageError => "storage_error"@,
        }
    }

    /// The reason of a failure, in words for the person who asked. It names
    /// amounts and the broadcaster's own reason, and nothing of the inside of
    /// the marketplace.
    pub open spec fn spec_reason(self) -> Seq<char> {
        match self {
            MarketError::NotFound => "Listing not found"@,
            MarketError::Conflict => "This ordinal is already listed"@,
            MarketError::Unauthorized => "Not authorized to cancel this listing"@,
            MarketError::InvalidState => "Listing is not active"@,
            MarketError::InvalidArgument => "Invalid request"@,
            MarketError::InsufficientFunds { required, available } => "Insufficient funds: need "@
                + decimal_digits(required as nat) + " sats (incl. fee buffer), only have "@
                + decimal_digits(available as nat),
            MarketError::Underfunded => "Inputs do not cover the outputs"@,
            MarketError::InvalidAddress => "Address format is invalid"@,
            MarketError::MalformedTransaction => "Invalid transaction format"@,
            MarketError::BroadcastRejected(why) => "Broadcast rejected: "@ + why@,
            MarketError::ExternalUnavailable => "External service unavailable"@,
            MarketError::StorageError => "Database error"@,
        }
    }

    /// The kind of a failure, as a short name.
    pub fn kind(&self) -> (r: &'static str)
        ensures
            r@ == self.spec_kind(),
    {
        match self {
            MarketError::NotFound => "not_found",
            MarketError::Conflict => "conflict",
            MarketError::Unauthorized => "unauthorized",
            MarketError::InvalidState => "invalid_state",
            MarketError::InvalidArgument => "invalid_argument",
            MarketError::InsufficientFunds { .. } => "insufficient_funds",
            MarketError::Underfunded => "underfunded",
            MarketError::InvalidAddress => "invalid_address",
            MarketError::MalformedTransaction => "malformed_transaction",
            MarketError::BroadcastRejected(_) => "broadcast_rejected",
            MarketError::ExternalUnavailable => "external_unavailable",
            MarketError::StorageError => "storage_error",
        }
    }

    /// The reason of a failure, in words for the person who asked.
    pub fn reason(&self) -> (r: String)
        ensures
            r@ == self.spec_reason(),
    {
        match self {
            MarketError::NotFound => "Listing not found".to_owned(),
            MarketError::Conflict => "This ordinal is already listed".to_owned(),
            MarketError::Unauthorized => "Not authorized to cancel this listing".to_owned(),
            MarketError::InvalidState => "Listing is not active".to_owned(),
            MarketError::InvalidArgument => "Invalid request".to_owned(),
            MarketError::InsufficientFunds { required, available } => {
                let mut text = "Insufficient funds: need ".to_owned();
                push_decimal(&mut text, *required);
                text.append(" sats (incl. fee buffer), only have ");
                push_decimal(&mut text, *available);
                text
            },
            MarketError::Underfunded => "Inputs do not cover the outputs".to_owned(),
            MarketError::InvalidAddress => "Address format is invalid".to_owned(),
            MarketError::MalformedTransaction => "Invalid transaction format".to_owned(),
            MarketError::BroadcastRejected(why) => {
                let mut text = "Broadcast rejected: ".to_owned();
                text.append(why.as_str());
                text
            },
            MarketError::ExternalUnavailable => "External service unavailable".to_owned(),
            MarketError::StorageError => "Database error".to_owned(),
        }
    }
}

} // verus!
