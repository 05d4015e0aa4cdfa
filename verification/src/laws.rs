//! The library's laws: properties that hold of the rules across all
//! transactions, stated over the rules' specification twins and proved once
//! and for all.

use vstd::prelude::*;

use crate::block::{Height, MAX_EXPIRY_HEIGHT};
use crate::check::{
    spec_coinbase_outputs_are_decryptable, spec_coinbase_expiry_height,
    spec_coinbase_tx_no_prevout_joinsplit_spend, spec_has_any_inputs, spec_has_any_outputs,
    spec_has_inputs_and_outputs, spec_non_coinbase_expiry_height, spec_shielded_outputs_count,
    spec_spend_conflicts, spec_version_is_supported, spec_any_vpub_old_positive,
};
use crate::dedup::{
    lemma_first_dup_correct, lemma_first_dup_unique_value, spec_has_duplicate,
};
use crate::error::TransactionError;
use crate::parameters::{spec_defining_upgrade, Network, NetworkUpgrade};
use crate::transaction::{spec_outpoints_of, Transaction};
use crate::transparent::{Input, OrderedUtxo, OutPoint};
use crate::verify::{spec_script_obligations, spec_known_contains};

verus! {

/// Checking for sources and destinations of value can only fail by finding
/// none: `NoInputs` comes exactly when the combined input set is empty,
/// `NoOutputs` exactly when inputs exist but the combined output set is
/// empty, and no other error ever comes out.
pub proof fn lemma_has_inputs_and_outputs_exact(tx: Transaction)
    ensures
        (spec_has_inputs_and_outputs(tx) == Err::<(), TransactionError>(TransactionError::NoInputs))
            == !spec_has_any_inputs(tx),
        (spec_has_inputs_and_outputs(tx) == Err::<(), TransactionError>(
            TransactionError::NoOutputs,
        )) == (spec_has_any_inputs(tx) && !spec_has_any_outputs(tx)),
        spec_has_inputs_and_outputs(tx) is Err ==> spec_has_inputs_and_outputs(tx) == Err::<
            (),
            TransactionError,
        >(TransactionError::NoInputs) || spec_has_inputs_and_outputs(tx) == Err::<
            (),
            TransactionError,
        >(TransactionError::NoOutputs),
{
}

/// Duplicating a transparent outpoint within one transaction is rejected
/// with `DuplicateTransparentSpend` carrying that outpoint: when `o` is the
/// one repeated outpoint, the duplicate-spend rule reports exactly it.
pub proof fn lemma_duplicate_outpoint_rejected(tx: Transaction, o: OutPoint)
    requires
        spec_has_duplicate(tx.spec_spent_outpoints()),
        forall|i: int, j: int|
            0 <= i < j < tx.spec_spent_outpoints().len() && tx.spec_spent_outpoints()[i]
                == tx.spec_spent_outpoints()[j] ==> tx.spec_spent_outpoints()[j] == o,
    ensures
        spec_spend_conflicts(tx) == Err::<(), TransactionError>(
            TransactionError::DuplicateTransparentSpend(o),
        ),
{
    lemma_first_dup_unique_value(tx.spec_spent_outpoints(), o);
}

/// Duplicating a Sprout nullifier within one transaction — inside one
/// join-split or across several — is rejected with
/// `DuplicateSproutNullifier` carrying that nullifier, as long as no
/// transparent spend repeats first.
pub proof fn lemma_duplicate_sprout_nullifier_rejected(tx: Transaction, n: crate::sprout::Nullifier)
    requires
        !spec_has_duplicate(tx.spec_spent_outpoints()),
        spec_has_duplicate(tx.spec_sprout_nullifiers()),
        forall|i: int, j: int|
            0 <= i < j < tx.spec_sprout_nullifiers().len() && tx.spec_sprout_nullifiers()[i]
                == tx.spec_sprout_nullifiers()[j] ==> tx.spec_sprout_nullifiers()[j] == n,
    ensures
        spec_spend_conflicts(tx) == Err::<(), TransactionError>(
            TransactionError::DuplicateSproutNullifier(n),
        ),
{
    lemma_first_dup_correct(tx.spec_spent_outpoints());
    lemma_first_dup_unique_value(tx.spec_sprout_nullifiers(), n);
}

/// Duplicating a Sapling nullifier within one transaction is rejected with
/// `DuplicateSaplingNullifier` carrying that nullifier, as long as no
/// earlier pool repeats first.
pub proof fn lemma_duplicate_sapling_nullifier_rejected(
    tx: Transaction,
    n: crate::sapling::Nullifier,
)
    requires
        !spec_has_duplicate(tx.spec_spent_outpoints()),
        !spec_has_duplicate(tx.spec_sprout_nullifiers()),
        spec_has_duplicate(tx.spec_sapling_nullifiers()),
        forall|i: int, j: int|
            0 <= i < j < tx.spec_sapling_nullifiers().len() && tx.spec_sapling_nullifiers()[i]
                == tx.spec_sapling_nullifiers()[j] ==> tx.spec_sapling_nullifiers()[j] == n,
    ensures
        spec_spend_conflicts(tx) == Err::<(), TransactionError>(
            TransactionError::DuplicateSaplingNullifier(n),
        ),
{
    lemma_first_dup_correct(tx.spec_spent_outpoints());
    lemma_first_dup_correct(tx.spec_sprout_nullifiers());
    lemma_first_dup_unique_value(tx.spec_sapling_nullifiers(), n);
}

/// Duplicating an Orchard nullifier within one transaction is rejected with
/// `DuplicateOrchardNullifier` carrying that nullifier, as long as no
/// earlier pool repeats first.
pub proof fn lemma_duplicate_orchard_nullifier_rejected(
    tx: Transaction,
    n: crate::orchard::Nullifier,
)
    requires
        !spec_has_duplicate(tx.spec_spent_outpoints()),
        !spec_has_duplicate(tx.spec_sprout_nullifiers()),
        !spec_has_duplicate(tx.spec_sapling_nullifiers()),
        spec_has_duplicate(tx.spec_orchard_nullifiers()),
        forall|i: int, j: int|
            0 <= i < j < tx.spec_orchard_nullifiers().len() && tx.spec_orchard_nullifiers()[i]
                == tx.spec_orchard_nullifiers()[j] ==> tx.spec_orchard_nullifiers()[j] == n,
    ensures
        spec_spend_conflicts(tx) == Err::<(), TransactionError>(
            TransactionError::DuplicateOrchardNullifier(n),
        ),
{
    lemma_first_dup_correct(tx.spec_spent_outpoints());
    lemma_first_dup_correct(tx.spec_sprout_nullifiers());
    lemma_first_dup_correct(tx.spec_sapling_nullifiers());
    lemma_first_dup_unique_value(tx.spec_orchard_nullifiers(), n);
}

/// A transaction whose spends repeat nowhere — no outpoint and no
/// nullifier of any pool twice — passes the duplicate-spend rule.
pub proof fn lemma_no_duplicates_accepted(tx: Transaction)
    requires
        !spec_has_duplicate(tx.spec_spent_outpoints()),
        !spec_has_duplicate(tx.spec_sprout_nullifiers()),
        !spec_has_duplicate(tx.spec_sapling_nullifiers()),
        !spec_has_duplicate(tx.spec_orchard_nullifiers()),
    ensures
        spec_spend_conflicts(tx) == Ok::<(), TransactionError>(()),
{
    lemma_first_dup_correct(tx.spec_spent_outpoints());
    lemma_first_dup_correct(tx.spec_sprout_nullifiers());
    lemma_first_dup_correct(tx.spec_sapling_nullifiers());
    lemma_first_dup_correct(tx.spec_orchard_nullifiers());
}

/// The expiry boundary is inclusive for non-coinbase transactions: with a
/// nonzero expiry height inside the protocol maximum, the transaction is
/// rejected as expired exactly when the block height passes the expiry
/// height, so expiring exactly at the block height is accepted.
pub proof fn lemma_expiry_boundary_inclusive(block_height: Height, tx: Transaction)
    requires
        tx.spec_expiry_height() matches Some(e) && e.0 != 0 && e.0 <= MAX_EXPIRY_HEIGHT,
    ensures
        (spec_non_coinbase_expiry_height(block_height, tx) == Err::<(), TransactionError>(
            TransactionError::ExpiredTransaction {
                expiry_height: tx.spec_expiry_height()->Some_0,
                block_height,
                transaction_hash: tx.spec_hash(),
            },
        )) == (block_height.0 > tx.spec_expiry_height()->Some_0.0),
        block_height.0 <= tx.spec_expiry_height()->Some_0.0 ==> spec_non_coinbase_expiry_height(
            block_height,
            tx,
        ) == Ok::<(), TransactionError>(()),
{
}

/// The protocol maximum on expiry heights binds non-coinbase transactions
/// only: a non-coinbase transaction above it is rejected with the coinbase
/// marker clear, while a coinbase transaction with the same oversized
/// expiry is accepted — once the equality rule is active — exactly when
/// its expiry equals the block height.
pub proof fn lemma_maximum_expiry_is_not_enforced_for_coinbase(
    block_height: Height,
    tx: Transaction,
    network: Network,
)
    requires
        tx.spec_expiry_height() matches Some(e) && e.0 > MAX_EXPIRY_HEIGHT,
    ensures
        spec_non_coinbase_expiry_height(block_height, tx) == Err::<(), TransactionError>(
            TransactionError::MaximumExpiryHeight {
                expiry_height: tx.spec_expiry_height()->Some_0,
                is_coinbase: false,
                block_height,
                transaction_hash: tx.spec_hash(),
            },
        ),
        NetworkUpgrade::Nu5.spec_is_active_at(network, block_height) && tx.spec_expiry_height()
            == Some(block_height) ==> spec_coinbase_expiry_height(block_height, tx, network)
            == Ok::<(), TransactionError>(()),
{
}

/// A coinbase transaction with Orchard spends enabled is rejected with
/// `CoinbaseHasEnableSpendsOrchard`; the same transaction with only
/// outputs enabled passes the coinbase restriction.
pub proof fn lemma_coinbase_orchard_flags(tx: Transaction)
    requires
        tx.spec_is_coinbase(),
        !spec_any_vpub_old_positive(tx),
        tx.spec_sapling_spends_count() == 0,
        tx.spec_orchard_flags() is Some,
    ensures
        tx.spec_orchard_flags()->Some_0.enable_spends
            ==> spec_coinbase_tx_no_prevout_joinsplit_spend(tx) == Err::<(), TransactionError>(
            TransactionError::CoinbaseHasEnableSpendsOrchard,
        ),
        !tx.spec_orchard_flags()->Some_0.enable_spends
            ==> spec_coinbase_tx_no_prevout_joinsplit_spend(tx) == Ok::<(), TransactionError>(()),
{
}

/// A transaction version submitted before its defining network upgrade has
/// activated is rejected with `UnsupportedByNetworkUpgrade`, naming the
/// version and the upgrade active at that height; from the activation
/// height on, the same version is accepted.
pub proof fn lemma_version_gate(tx: Transaction, network: Network, height: Height)
    requires
        spec_defining_upgrade(tx.spec_version()) is Some,
    ensures
        height.0 < spec_defining_upgrade(tx.spec_version())->Some_0.spec_activation_height(network)
            ==> spec_version_is_supported(tx, network, height) == Err::<(), TransactionError>(
            TransactionError::UnsupportedByNetworkUpgrade(
                tx.spec_version(),
                NetworkUpgrade::spec_current(network, height),
            ),
        ),
        height.0 >= spec_defining_upgrade(tx.spec_version())->Some_0.spec_activation_height(
            network,
        ) ==> spec_version_is_supported(tx, network, height) == Ok::<(), TransactionError>(()),
{
}

/// The verification plan covers the transparent spends completely: it
/// carries one script obligation per outpoint-spending input, in input
/// order, each naming the outpoint that input spends and whether the block
/// context supplies the spent output.
pub proof fn lemma_script_obligations_cover_spends(
    inputs: Seq<Input>,
    known: Seq<(OutPoint, OrderedUtxo)>,
)
    ensures
        spec_script_obligations(inputs, known).len() == spec_outpoints_of(inputs).len(),
        forall|k: int|
            0 <= k < spec_outpoints_of(inputs).len() ==> #[trigger] spec_script_obligations(
                inputs,
                known,
            )[k].outpoint == spec_outpoints_of(inputs)[k],
        forall|k: int|
            0 <= k < spec_outpoints_of(inputs).len() ==> #[trigger] spec_script_obligations(
                inputs,
                known,
            )[k].known == spec_known_contains(known, spec_outpoints_of(inputs)[k]),
    decreases inputs.len(),
{
    if inputs.len() > 0 {
        lemma_script_obligations_cover_spends(inputs.drop_last(), known);
    }
}

/// The trial-decryption rule turns on the collaborator's verdict alone:
/// once the rule's upgrade is active and shielded outputs exist, the
/// transaction is accepted exactly when every output decrypted under the
/// all-zero key; before the upgrade, or without shielded outputs, it is
/// accepted regardless.
pub proof fn lemma_decryptability_follows_verdict(
    tx: Transaction,
    network: Network,
    height: Height,
    outputs_decrypt: bool,
)
    ensures
        NetworkUpgrade::Heartwood.spec_is_active_at(network, height)
            && spec_shielded_outputs_count(tx) > 0 ==> (spec_coinbase_outputs_are_decryptable(
            tx,
            network,
            height,
            outputs_decrypt,
        ) == Ok::<(), TransactionError>(())) == outputs_decrypt,
        !(NetworkUpgrade::Heartwood.spec_is_active_at(network, height)
            && spec_shielded_outputs_count(tx) > 0) ==> spec_coinbase_outputs_are_decryptable(
            tx,
            network,
            height,
            outputs_decrypt,
        ) == Ok::<(), TransactionError>(()),
{
}

} // verus!
