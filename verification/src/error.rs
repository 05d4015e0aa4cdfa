//! The verifier's error taxonomy, and the classification of failures
//! surfaced by the external oracles.

use vstd::prelude::*;

use crate::block::Height;
use crate::orchard;
use crate::parameters::NetworkUpgrade;
use crate::sapling;
use crate::sprout;
use crate::transparent::OutPoint;

verus! {

/// Every way a transaction can fail verification.
///
/// The variants carry the offending value where one exists, so that callers
/// can react to the precise failure.
#[derive(Clone, Debug, PartialEq, Eq)]
pub enum TransactionError {
    /// The transaction has no transparent inputs and no shielded source of
    /// value.
    NoInputs,
    /// The transaction has no transparent outputs and no shielded
    /// destination of value.
    NoOutputs,
    /// An Orchard payload is present but neither of its capability flags is
    /// set.
    NotEnoughFlags,
    /// A coinbase transaction carries a join-split that draws transparent
    /// value into the Sprout pool.
    CoinbaseHasJoinSplit,
    /// A coinbase transaction carries a Sapling spend description.
    CoinbaseHasSpend,
    /// A coinbase transaction carries an Orchard payload with spends
    /// enabled.
    CoinbaseHasEnableSpendsOrchard,
    /// A non-coinbase transaction's expiry height lies before the block it
    /// would enter.
    ExpiredTransaction { expiry_height: Height, block_height: Height, transaction_hash: crate::hash::Hash },
    /// The expiry height passes the protocol maximum.
    MaximumExpiryHeight { expiry_height: Height, is_coinbase: bool, block_height: Height, transaction_hash: crate::hash::Hash },
    /// Once required, a coinbase transaction's expiry height must equal the
    /// height of its block.
    CoinbaseExpiryBlockHeight { expiry_height: Option<Height>, block_height: Height, transaction_hash: crate::hash::Hash },
    /// The transaction's version is not yet legal under the network upgrade
    /// active at the target height.
    UnsupportedByNetworkUpgrade(u32, NetworkUpgrade),
    /// Two inputs of the transaction spend the same transparent outpoint.
    DuplicateTransparentSpend(OutPoint),
    /// The same Sprout nullifier appears twice within the transaction.
    DuplicateSproutNullifier(sprout::Nullifier),
    /// The same Sapling nullifier appears twice within the transaction.
    DuplicateSaplingNullifier(sapling::Nullifier),
    /// The same Orchard nullifier appears twice within the transaction.
    DuplicateOrchardNullifier(orchard::Nullifier),
    /// After deposits into the Sprout pool are disabled, a transaction still
    /// draws transparent value into it.
    DisabledAddToSproutPool,
    /// A shielded output of a coinbase transaction cannot be recovered with
    /// the all-zero outgoing viewing key.
    CoinbaseOutputsNotDecryptable,
    /// A Groth16 proof failed verification.
    Groth16(String),
    /// A Groth16 proof was rejected as malformed before verification.
    MalformedGroth16(String),
    /// A Sapling spend-authorization or binding signature failed
    /// verification.
    RedJubjub(String),
    /// An Orchard spend-authorization or binding signature failed
    /// verification.
    RedPallas(String),
    /// An Orchard proof failed verification.
    Halo2(String),
    /// An oracle failure with no known consensus meaning, carrying the
    /// oracle's own message.
    InternalDowncastError(String),
}

/// A failure reported by one of the external verification oracles, tagged by
/// the collaborator it came from and carrying that collaborator's own
/// message.
#[derive(Debug, PartialEq, Eq)]
pub enum ExternalError {
    /// The transparent-script interpreter rejected an input.
    Script { message: String },
    /// The aggregate join-split signature failed verification.
    Ed25519 { message: String },
    /// A Groth16 proof failed; `malformed` marks a proof whose encoding was
    /// rejected before verification proper.
    Groth16 { malformed: bool, message: String },
    /// A Sapling signature failed verification.
    RedJubjub { message: String },
    /// An Orchard signature failed verification.
    RedPallas { message: String },
    /// An Orchard proof failed verification.
    Halo2 { message: String },
}

impl Clone for ExternalError {
    /// An exact copy, message included.
    fn clone(&self) -> (r: Self)
        ensures
            r == *self,
    {
        match self {
            ExternalError::Script { message } => ExternalError::Script { message: message.clone() },
            ExternalError::Ed25519 { message } => ExternalError::Ed25519 {
                message: message.clone(),
            },
            ExternalError::Groth16 { malformed, message } => ExternalError::Groth16 {
                malformed: *malformed,
                message: message.clone(),
            },
            ExternalError::RedJubjub { message } => ExternalError::RedJubjub {
                message: message.clone(),
            },
            ExternalError::RedPallas { message } => ExternalError::RedPallas {
                message: message.clone(),
            },
            ExternalError::Halo2 { message } => ExternalError::Halo2 { message: message.clone() },
        }
    }
}

/// The spec-level mapping table from oracle failures to consensus errors.
pub open spec fn spec_classify_external_error(e: ExternalError) -> TransactionError {
    match e {
        ExternalError::Script { message } => TransactionError::InternalDowncastError(message),
        ExternalError::Ed25519 { message } => TransactionError::InternalDowncastError(message),
        ExternalError::Groth16 { malformed, message } => if malformed {
            TransactionError::MalformedGroth16(message)
        } else {
            TransactionError::Groth16(message)
        },
        ExternalError::RedJubjub { message } => TransactionError::RedJubjub(message),
        ExternalError::RedPallas { message } => TransactionError::RedPallas(message),
        ExternalError::Halo2 { message } => TransactionError::Halo2(message),
    }
}

/// Translates an oracle failure into the verifier's own taxonomy.
///
/// Proof failures keep their consensus meaning; failures of the script
/// interpreter and of the join-split signature scheme have none the verifier
/// recognizes, so they surface as internal errors carrying the original
/// message.
pub fn classify_external_error(e: ExternalError) -> (r: TransactionError)
    ensures
        r == spec_classify_external_error(e),
{
    match e {
        ExternalError::Script { message } => TransactionError::InternalDowncastError(message),
        ExternalError::Ed25519 { message } => TransactionError::InternalDowncastError(message),
        ExternalError::Groth16 { malformed, message } => if malformed {
            TransactionError::MalformedGroth16(message)
        } else {
            TransactionError::Groth16(message)
        },
        ExternalError::RedJubjub { message } => TransactionError::RedJubjub(message),
        ExternalError::RedPallas { message } => TransactionError::RedPallas(message),
        ExternalError::Halo2 { message } => TransactionError::Halo2(message),
    }
}

} // verus!
