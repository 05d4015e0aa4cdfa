//! The consensus rules, one independent pure function per rule.
//!
//! Each rule takes the transaction (and whatever context it needs) and
//! returns either success or the one specific error that names the broken
//! rule and the offending value.  No rule mutates its input, and the rules
//! share no state.  Every rule has a specification twin that fixes its
//! result exactly, and the executable rule is proved equal to it.

use vstd::prelude::*;

use crate::block::{Height, MAX_EXPIRY_HEIGHT};
use crate::dedup::{
    find_duplicate_orchard_nullifier, find_duplicate_outpoint, find_duplicate_sapling_nullifier,
    find_duplicate_sprout_nullifier, spec_first_dup,
};
use crate::error::TransactionError;
use crate::parameters::{spec_defining_upgrade, Network, NetworkUpgrade};
use crate::transaction::Transaction;

verus! {

/// Whether the transaction has any source of value: a transparent input, a
/// join-split, a Sapling spend, or — only with spends enabled — an Orchard
/// action.
pub open spec fn spec_has_any_inputs(tx: Transaction) -> bool {
    ||| tx.spec_inputs().len() > 0
    ||| tx.spec_joinsplit_count() > 0
    ||| tx.spec_sapling_spends_count() > 0
    ||| (tx.spec_orchard_flags() matches Some(f) && f.enable_spends
        && tx.spec_orchard_actions_count() > 0)
}

/// Whether the transaction has any destination of value: a transparent
/// output, a join-split, a Sapling output, or — only with outputs enabled —
/// an Orchard action.
pub open spec fn spec_has_any_outputs(tx: Transaction) -> bool {
    ||| tx.spec_outputs().len() > 0
    ||| tx.spec_joinsplit_count() > 0
    ||| tx.spec_sapling_outputs_count() > 0
    ||| (tx.spec_orchard_flags() matches Some(f) && f.enable_outputs
        && tx.spec_orchard_actions_count() > 0)
}

/// What [`has_inputs_and_outputs`] returns: `NoInputs` exactly when the
/// combined input set is empty, `NoOutputs` exactly when inputs exist but
/// the combined output set is empty, and success otherwise.
pub open spec fn spec_has_inputs_and_outputs(tx: Transaction) -> Result<(), TransactionError> {
    if !spec_has_any_inputs(tx) {
        Err(TransactionError::NoInputs)
    } else if !spec_has_any_outputs(tx) {
        Err(TransactionError::NoOutputs)
    } else {
        Ok(())
    }
}

/// Rejects a transaction with no source or no destination of value.
///
/// The combined input set counts transparent inputs, join-splits, Sapling
/// spends, and Orchard actions gated by the spends-enabled flag; the
/// combined output set counts their output-side counterparts, with Orchard
/// actions gated by the outputs-enabled flag.  The error tells the caller
/// which side is missing, and no other error ever comes out.
pub fn has_inputs_and_outputs(tx: &Transaction) -> (r: Result<(), TransactionError>)
    ensures
        r == spec_has_inputs_and_outputs(*tx),
{
    if !has_any_inputs(tx) {
        Err(TransactionError::NoInputs)
    } else if !has_any_outputs(tx) {
        Err(TransactionError::NoOutputs)
    } else {
        Ok(())
    }
}

fn has_any_inputs(tx: &Transaction) -> (r: bool)
    ensures
        r == spec_has_any_inputs(*tx),
{
    if tx.inputs().len() > 0 {
        return true;
    }
    if tx.has_joinsplits() {
        return true;
    }
    if tx.sapling_spends_count() > 0 {
        return true;
    }
    match tx.orchard_flags() {
        Some(f) => f.enable_spends && tx.orchard_actions_count() > 0,
        None => false,
    }
}

fn has_any_outputs(tx: &Transaction) -> (r: bool)
    ensures
        r == spec_has_any_outputs(*tx),
{
    if tx.outputs().len() > 0 {
        return true;
    }
    if tx.has_joinsplits() {
        return true;
    }
    if tx.sapling_outputs_count() > 0 {
        return true;
    }
    match tx.orchard_flags() {
        Some(f) => f.enable_outputs && tx.orchard_actions_count() > 0,
        None => false,
    }
}

/// What [`has_enough_orchard_flags`] returns: `NotEnoughFlags` exactly when
/// an Orchard payload is present with both flags clear.
pub open spec fn spec_has_enough_orchard_flags(tx: Transaction) -> Result<(), TransactionError> {
    match tx.spec_orchard_flags() {
        None => Ok(()),
        Some(f) => if f.enable_spends || f.enable_outputs {
            Ok(())
        } else {
            Err(TransactionError::NotEnoughFlags)
        },
    }
}

/// Rejects a transaction whose Orchard payload enables neither spends nor
/// outputs: such a payload has no effect at all.  Transactions without an
/// Orchard payload pass.
pub fn has_enough_orchard_flags(tx: &Transaction) -> (r: Result<(), TransactionError>)
    ensures
        r == spec_has_enough_orchard_flags(*tx),
{
    match tx.orchard_flags() {
        None => Ok(()),
        Some(f) => if f.enable_spends || f.enable_outputs {
            Ok(())
        } else {
            Err(TransactionError::NotEnoughFlags)
        },
    }
}

/// Whether any join-split of the transaction draws transparent value into
/// the Sprout pool.
pub open spec fn spec_any_vpub_old_positive(tx: Transaction) -> bool {
    exists|i: int|
        0 <= i < tx.spec_output_values_to_sprout().len() && tx.spec_output_values_to_sprout()[
            i
        ].spec_value() > 0
}

fn any_vpub_old_positive(tx: &Transaction) -> (r: bool)
    ensures
        r == spec_any_vpub_old_positive(*tx),
{
    let vpubs = tx.output_values_to_sprout();
    let n = vpubs.len();
    let mut i: usize = 0;
    while i < n
        invariant
            n == vpubs@.len(),
            vpubs@ == tx.spec_output_values_to_sprout(),
            i <= n,
            forall|k: int| 0 <= k < i ==> vpubs@[k].spec_value() <= 0,
        decreases n - i,
    {
        if vpubs[i].value() > 0 {
            return true;
        }
        i = i + 1;
    }
    false
}

/// What [`coinbase_tx_no_prevout_joinsplit_spend`] returns, checked in
/// order: Sprout deposits, Sapling spends, the Orchard spends flag.
pub open spec fn spec_coinbase_tx_no_prevout_joinsplit_spend(tx: Transaction) -> Result<
    (),
    TransactionError,
> {
    if !tx.spec_is_coinbase() {
        Ok(())
    } else if spec_any_vpub_old_positive(tx) {
        Err(TransactionError::CoinbaseHasJoinSplit)
    } else if tx.spec_sapling_spends_count() > 0 {
        Err(TransactionError::CoinbaseHasSpend)
    } else if tx.spec_orchard_flags() matches Some(f) && f.enable_spends {
        Err(TransactionError::CoinbaseHasEnableSpendsOrchard)
    } else {
        Ok(())
    }
}

/// Rejects a coinbase transaction that consumes shielded value: a
/// join-split drawing transparent funds into the Sprout pool, a Sapling
/// spend, or an Orchard payload with spends enabled.  Non-coinbase
/// transactions pass.
pub fn coinbase_tx_no_prevout_joinsplit_spend(tx: &Transaction) -> (r: Result<
    (),
    TransactionError,
>)
    ensures
        r == spec_coinbase_tx_no_prevout_joinsplit_spend(*tx),
{
    if !tx.is_coinbase() {
        return Ok(());
    }
    if any_vpub_old_positive(tx) {
        return Err(TransactionError::CoinbaseHasJoinSplit);
    }
    if tx.sapling_spends_count() > 0 {
        return Err(TransactionError::CoinbaseHasSpend);
    }
    match tx.orchard_flags() {
        Some(f) => if f.enable_spends {
            Err(TransactionError::CoinbaseHasEnableSpendsOrchard)
        } else {
            Ok(())
        },
        None => Ok(()),
    }
}

/// What [`non_coinbase_expiry_height`] returns.  A zero expiry height means
/// the transaction never expires; the expiry boundary is inclusive, so
/// expiring exactly at the block height passes.
pub open spec fn spec_non_coinbase_expiry_height(block_height: Height, tx: Transaction) -> Result<
    (),
    TransactionError,
> {
    match tx.spec_expiry_height() {
        None => Ok(()),
        Some(e) => if e.0 > MAX_EXPIRY_HEIGHT {
            Err(
                TransactionError::MaximumExpiryHeight {
                    expiry_height: e,
                    is_coinbase: false,
                    block_height,
                    transaction_hash: tx.spec_hash(),
                },
            )
        } else if e.0 != 0 && block_height.0 > e.0 {
            Err(
                TransactionError::ExpiredTransaction {
                    expiry_height: e,
                    block_height,
                    transaction_hash: tx.spec_hash(),
                },
            )
        } else {
            Ok(())
        },
    }
}

/// Rejects a non-coinbase transaction whose expiry height passes the
/// protocol maximum, or lies before the block it would enter.
pub fn non_coinbase_expiry_height(block_height: Height, tx: &Transaction) -> (r: Result<
    (),
    TransactionError,
>)
    ensures
        r == spec_non_coinbase_expiry_height(block_height, *tx),
{
    match tx.expiry_height() {
        None => Ok(()),
        Some(e) => {
            if e.0 > MAX_EXPIRY_HEIGHT {
                Err(
                    TransactionError::MaximumExpiryHeight {
                        expiry_height: e,
                        is_coinbase: false,
                        block_height,
                        transaction_hash: tx.hash(),
                    },
                )
            } else if e.0 != 0 && block_height.0 > e.0 {
                Err(
                    TransactionError::ExpiredTransaction {
                        expiry_height: e,
                        block_height,
                        transaction_hash: tx.hash(),
                    },
                )
            } else {
                Ok(())
            }
        },
    }
}

/// What [`coinbase_expiry_height`] returns.  Once the fifth-format upgrade
/// is active the expiry height must equal the block height exactly, and the
/// protocol maximum no longer applies; before it, only the maximum applies.
pub open spec fn spec_coinbase_expiry_height(
    block_height: Height,
    tx: Transaction,
    network: Network,
) -> Result<(), TransactionError> {
    if NetworkUpgrade::Nu5.spec_is_active_at(network, block_height) {
        if tx.spec_expiry_height() == Some(block_height) {
            Ok(())
        } else {
            Err(
                TransactionError::CoinbaseExpiryBlockHeight {
                    expiry_height: tx.spec_expiry_height(),
                    block_height,
                    transaction_hash: tx.spec_hash(),
                },
            )
        }
    } else {
        if tx.spec_expiry_height() matches Some(e) && e.0 > MAX_EXPIRY_HEIGHT {
            Err(
                TransactionError::MaximumExpiryHeight {
                    expiry_height: tx.spec_expiry_height()->Some_0,
                    is_coinbase: true,
                    block_height,
                    transaction_hash: tx.spec_hash(),
                },
            )
        } else {
            Ok(())
        }
    }
}

/// Checks a coinbase transaction's expiry height, which the fifth-format
/// upgrade pins to the block height exactly.
pub fn coinbase_expiry_height(block_height: Height, tx: &Transaction, network: Network) -> (r:
    Result<(), TransactionError>)
    ensures
        r == spec_coinbase_expiry_height(block_height, *tx, network),
{
    let expiry = tx.expiry_height();
    if NetworkUpgrade::Nu5.is_active_at(network, block_height) {
        let matches_block = match expiry {
            Some(e) => e.0 == block_height.0,
            None => false,
        };
        proof {
            if matches_block {
                assert(tx.spec_expiry_height() == Some(block_height));
            }
        }
        if matches_block {
            Ok(())
        } else {
            Err(
                TransactionError::CoinbaseExpiryBlockHeight {
                    expiry_height: expiry,
                    block_height,
                    transaction_hash: tx.hash(),
                },
            )
        }
    } else {
        match expiry {
            Some(e) => if e.0 > MAX_EXPIRY_HEIGHT {
                Err(
                    TransactionError::MaximumExpiryHeight {
                        expiry_height: e,
                        is_coinbase: true,
                        block_height,
                        transaction_hash: tx.hash(),
                    },
                )
            } else {
                Ok(())
            },
            None => Ok(()),
        }
    }
}

/// What [`spend_conflicts`] returns: pools are checked transparent first,
/// then Sprout, Sapling, Orchard, and the error carries the first value
/// that repeats within its pool.
pub open spec fn spec_spend_conflicts(tx: Transaction) -> Result<(), TransactionError> {
    if spec_first_dup(tx.spec_spent_outpoints()) is Some {
        Err(
            TransactionError::DuplicateTransparentSpend(
                spec_first_dup(tx.spec_spent_outpoints())->Some_0,
            ),
        )
    } else if spec_first_dup(tx.spec_sprout_nullifiers()) is Some {
        Err(
            TransactionError::DuplicateSproutNullifier(
                spec_first_dup(tx.spec_sprout_nullifiers())->Some_0,
            ),
        )
    } else if spec_first_dup(tx.spec_sapling_nullifiers()) is Some {
        Err(
            TransactionError::DuplicateSaplingNullifier(
                spec_first_dup(tx.spec_sapling_nullifiers())->Some_0,
            ),
        )
    } else if spec_first_dup(tx.spec_orchard_nullifiers()) is Some {
        Err(
            TransactionError::DuplicateOrchardNullifier(
                spec_first_dup(tx.spec_orchard_nullifiers())->Some_0,
            ),
        )
    } else {
        Ok(())
    }
}

/// Rejects a transaction that spends the same transparent outpoint twice,
/// or reveals the same nullifier twice within any one shielded pool.
///
/// Detection is local to this transaction: duplicates across the chain are
/// the chain-state collaborator's responsibility.
pub fn spend_conflicts(tx: &Transaction) -> (r: Result<(), TransactionError>)
    ensures
        r == spec_spend_conflicts(*tx),
{
    let outpoints = tx.spent_outpoints();
    if let Some(o) = find_duplicate_outpoint(&outpoints) {
        return Err(TransactionError::DuplicateTransparentSpend(o));
    }
    let sprout_nullifiers = tx.sprout_nullifiers();
    if let Some(n) = find_duplicate_sprout_nullifier(&sprout_nullifiers) {
        return Err(TransactionError::DuplicateSproutNullifier(n));
    }
    let sapling_nullifiers = tx.sapling_nullifiers();
    if let Some(n) = find_duplicate_sapling_nullifier(&sapling_nullifiers) {
        return Err(TransactionError::DuplicateSaplingNullifier(n));
    }
    let orchard_nullifiers = tx.orchard_nullifiers();
    if let Some(n) = find_duplicate_orchard_nullifier(&orchard_nullifiers) {
        return Err(TransactionError::DuplicateOrchardNullifier(n));
    }
    Ok(())
}

/// What [`version_is_supported`] returns: success exactly when the
/// version's defining network upgrade has activated at `height`; the error
/// names the version and the upgrade actually active there.
pub open spec fn spec_version_is_supported(
    tx: Transaction,
    network: Network,
    height: Height,
) -> Result<(), TransactionError> {
    if spec_defining_upgrade(tx.spec_version()) matches Some(du) && du.spec_is_active_at(
        network,
        height,
    ) {
        Ok(())
    } else {
        Err(
            TransactionError::UnsupportedByNetworkUpgrade(
                tx.spec_version(),
                NetworkUpgrade::spec_current(network, height),
            ),
        )
    }
}

/// Rejects a transaction whose version is not yet legal at `height`: each
/// version becomes acceptable only once its defining network upgrade has
/// activated.
pub fn version_is_supported(tx: &Transaction, network: Network, height: Height) -> (r: Result<
    (),
    TransactionError,
>)
    ensures
        r == spec_version_is_supported(*tx, network, height),
{
    let version = tx.version();
    match crate::parameters::defining_upgrade(version) {
        Some(du) => if du.is_active_at(network, height) {
            Ok(())
        } else {
            Err(
                TransactionError::UnsupportedByNetworkUpgrade(
                    version,
                    NetworkUpgrade::current(network, height),
                ),
            )
        },
        None => Err(
            TransactionError::UnsupportedByNetworkUpgrade(
                version,
                NetworkUpgrade::current(network, height),
            ),
        ),
    }
}

/// What [`disabled_add_to_sprout_pool`] returns.
pub open spec fn spec_disabled_add_to_sprout_pool(
    tx: Transaction,
    height: Height,
    network: Network,
) -> Result<(), TransactionError> {
    if NetworkUpgrade::Canopy.spec_is_active_at(network, height) && spec_any_vpub_old_positive(
        tx,
    ) {
        Err(TransactionError::DisabledAddToSproutPool)
    } else {
        Ok(())
    }
}

/// Rejects a transaction that still draws transparent value into the Sprout
/// pool once the upgrade disabling such deposits is active at `height`.
/// Join-splits that only spend out of the pool remain legal.
pub fn disabled_add_to_sprout_pool(tx: &Transaction, height: Height, network: Network) -> (r:
    Result<(), TransactionError>)
    ensures
        r == spec_disabled_add_to_sprout_pool(*tx, height, network),
{
    if NetworkUpgrade::Canopy.is_active_at(network, height) && any_vpub_old_positive(tx) {
        Err(TransactionError::DisabledAddToSproutPool)
    } else {
        Ok(())
    }
}

/// How many shielded outputs the transaction has: Sapling output
/// descriptions plus Orchard actions.
pub open spec fn spec_shielded_outputs_count(tx: Transaction) -> nat {
    tx.spec_sapling_outputs_count() + tx.spec_orchard_actions_count()
}

/// What [`coinbase_outputs_are_decryptable`] returns, given the
/// note-encryption collaborator's verdict `outputs_decrypt`.
pub open spec fn spec_coinbase_outputs_are_decryptable(
    tx: Transaction,
    network: Network,
    height: Height,
    outputs_decrypt: bool,
) -> Result<(), TransactionError> {
    if !NetworkUpgrade::Heartwood.spec_is_active_at(network, height) {
        Ok(())
    } else if spec_shielded_outputs_count(tx) == 0 {
        Ok(())
    } else if outputs_decrypt {
        Ok(())
    } else {
        Err(TransactionError::CoinbaseOutputsNotDecryptable)
    }
}

/// Checks that every shielded output of the transaction trial-decrypts with
/// the canonical all-zero outgoing viewing key.
///
/// The decryption itself is the note-encryption collaborator's work: the
/// caller passes its verdict as `outputs_decrypt`, which must state whether
/// every shielded output of this transaction decrypted under the all-zero
/// key.  The rule applies from the activation of the upgrade that
/// introduced shielded coinbase outputs; before it, and on transactions
/// without shielded outputs, the check passes vacuously.
pub fn coinbase_outputs_are_decryptable(
    tx: &Transaction,
    network: Network,
    height: Height,
    outputs_decrypt: bool,
) -> (r: Result<(), TransactionError>)
    ensures
        r == spec_coinbase_outputs_are_decryptable(*tx, network, height, outputs_decrypt),
{
    if !NetworkUpgrade::Heartwood.is_active_at(network, height) {
        return Ok(());
    }
    let shielded = tx.sapling_outputs_count() > 0 || tx.orchard_actions_count() > 0;
    if !shielded {
        return Ok(());
    }
    if outputs_decrypt {
        Ok(())
    } else {
        Err(TransactionError::CoinbaseOutputsNotDecryptable)
    }
}

} // verus!
