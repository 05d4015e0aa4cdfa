//! Builders and mutators for exercising the verifier.
//!
//! Consensus code never mutates an in-flight transaction; these helpers
//! exist so that tests can build small valid transactions and then damage
//! them in precisely described ways — duplicating a spend, corrupting a
//! proof or signature — to drive every rejection path.

use vstd::prelude::*;

use crate::amount::{Amount, NonNegative};
use crate::block::Height;
use crate::orchard;
use crate::primitives::{Ed25519Signature, Ed25519VerificationKeyBytes, Groth16Proof, Halo2Proof, RedPallasSignature};
use crate::sapling;
use crate::sprout;
use crate::transaction::Transaction;
use crate::transparent::{CoinbaseData, Input, OrderedUtxo, OutPoint, Output, Script};

verus! {

broadcast use vstd::array::group_array_axioms;

/// Builds a one-unit amount; the value is always in range.
fn one_unit() -> (r: Amount<NonNegative>)
    ensures
        r.spec_value() == 1,
        r.wf(),
{
    match Amount::<NonNegative>::try_from(1) {
        Ok(a) => a,
        Err(_) => {
            proof {
                assert(false);
            }
            Amount::zero()
        },
    }
}

/// Creates a mock transparent transfer to include in a transaction: an
/// input spending a fabricated one-unit unspent output, the one-unit output
/// it funds, and the unspent-output map that lets the verifier resolve the
/// spend locally.
///
/// The fabricated output is locked by a script that accepts every spend
/// when `script_should_succeed` is set and rejects every spend otherwise;
/// the new output is locked by the rejecting script, so the amount cannot
/// be spent again.  The fabricated output sits at `previous_utxo_height`,
/// in block position one; the outpoint uses `outpoint_index` so that tests
/// can make several distinct transfers.
pub fn mock_transparent_transfer(
    previous_utxo_height: Height,
    script_should_succeed: bool,
    outpoint_index: u32,
) -> (r: (Input, Output, Vec<(OutPoint, OrderedUtxo)>))
    ensures
        r.0 matches Input::PrevOut { outpoint, unlock_script, sequence } && outpoint.index
            == outpoint_index && (forall|i: int| 0 <= i < 32 ==> outpoint.hash.0@[i] == 1u8)
            && unlock_script.0@ == seq![1u8, 1u8] && sequence == 0,
        r.1.value.spec_value() == 1 && r.1.lock_script.0@ == seq![0u8],
        r.2@.len() == 1,
        r.2@[0].0.index == outpoint_index,
        forall|i: int| 0 <= i < 32 ==> r.2@[0].0.hash.0@[i] == 1u8,
        r.2@[0].1.utxo.height == previous_utxo_height,
        !r.2@[0].1.utxo.from_coinbase,
        r.2@[0].1.tx_index_in_block == 1,
        r.2@[0].1.utxo.output.value.spec_value() == 1,
        script_should_succeed ==> r.2@[0].1.utxo.output.lock_script.0@ == seq![1u8, 1u8],
        !script_should_succeed ==> r.2@[0].1.utxo.output.lock_script.0@ == seq![0u8],
{
    // A script with a single opcode that accepts the spend.
    let accepting_script = Script::new(&[1, 1]);
    // A script with a single opcode that rejects the spend.
    let rejecting_script = Script::new(&[0]);

    let previous_outpoint = OutPoint {
        hash: crate::hash::Hash([1u8; 32]),
        index: outpoint_index,
    };

    let lock_script = if script_should_succeed {
        Script::new(&[1, 1])
    } else {
        Script::new(&[0])
    };

    let previous_output = Output { value: one_unit(), lock_script };
    let previous_utxo = OrderedUtxo::new(previous_output, previous_utxo_height, 1);

    let input = Input::PrevOut {
        outpoint: previous_outpoint,
        unlock_script: accepting_script,
        sequence: 0,
    };

    let output = Output { value: one_unit(), lock_script: rejecting_script };

    let mut known_utxos: Vec<(OutPoint, OrderedUtxo)> = Vec::new();
    known_utxos.push((previous_outpoint, previous_utxo));

    (input, output, known_utxos)
}

/// Creates a mock coinbase input claiming the subsidy at `coinbase_height`,
/// together with a one-unit output locked by an always-rejecting script so
/// that the amount cannot be spent again.
pub fn mock_coinbase_transparent_output(coinbase_height: Height) -> (r: (Input, Output))
    ensures
        r.0 matches Input::Coinbase { height, data, sequence } && height == coinbase_height
            && data.0@ == Seq::<u8>::empty() && sequence == u32::MAX,
        r.1.value.spec_value() == 1 && r.1.lock_script.0@ == seq![0u8],
{
    let rejecting_script = Script::new(&[0]);

    let input = Input::Coinbase {
        height: coinbase_height,
        data: CoinbaseData::new(Vec::new()),
        sequence: u32::MAX,
    };

    let output = Output { value: one_unit(), lock_script: rejecting_script };

    (input, output)
}

/// Whether `d` is the dummy Sprout payload of
/// [`mock_sprout_join_split_data`]: one join-split moving no transparent
/// value, with nullifiers of all-zero and all-one bytes and every other
/// field zeroed.
pub open spec fn is_mock_joinsplit_data(d: sprout::JoinSplitData) -> bool {
    &&& d.first.vpub_old.spec_value() == 0
    &&& d.first.vpub_new.spec_value() == 0
    &&& (forall|i: int| 0 <= i < 32 ==> d.first.nullifiers@[0].0@[i] == 0u8)
    &&& (forall|i: int| 0 <= i < 32 ==> d.first.nullifiers@[1].0@[i] == 1u8)
    &&& d.rest@.len() == 0
}

/// Creates a dummy Sprout payload with a single join-split.  By itself it
/// is cryptographically invalid, but it is useful for exercising the
/// structural rules; the caller adds whatever signature its test needs.
pub fn mock_sprout_join_split_data() -> (r: sprout::JoinSplitData)
    ensures
        is_mock_joinsplit_data(r),
{
    let zero_amount = Amount::<NonNegative>::zero();
    let first_nullifier = sprout::Nullifier([0u8; 32]);
    let second_nullifier = sprout::Nullifier([1u8; 32]);
    let commitment = sprout::NoteCommitment([0u8; 32]);
    let mac = sprout::Mac([0u8; 32]);
    let encrypted_note = sprout::EncryptedNote([0u8; 601]);

    let joinsplit = sprout::JoinSplit {
        vpub_old: zero_amount,
        vpub_new: zero_amount,
        anchor: [0u8; 32],
        nullifiers: [first_nullifier, second_nullifier],
        commitments: [commitment, commitment],
        ephemeral_key: [0u8; 32],
        random_seed: sprout::RandomSeed([0u8; 32]),
        vmacs: [mac, mac],
        zkproof: Groth16Proof([0u8; 192]),
        enc_ciphertexts: [encrypted_note, encrypted_note],
    };

    sprout::JoinSplitData {
        first: joinsplit,
        rest: Vec::new(),
        pub_key: Ed25519VerificationKeyBytes([0u8; 32]),
        sig: Ed25519Signature([0u8; 64]),
    }
}

/// A way of damaging a Sprout payload for negative tests.
#[derive(Clone, Copy, Debug, PartialEq, Eq, Structural)]
pub enum JoinSplitModification {
    /// Flip one bit of the aggregate signature, making it invalid.
    CorruptSignature,
    /// Swap proof elements, making the proof invalid but still well-formed.
    CorruptProof,
    /// Zero the proof, making it malformed.
    ZeroProof,
}

/// How a Sprout payload damaged by `m` relates to the original.
pub open spec fn spec_modified_joinsplit_data(
    old_data: sprout::JoinSplitData,
    new_data: sprout::JoinSplitData,
    m: JoinSplitModification,
) -> bool {
    &&& new_data.rest == old_data.rest
    &&& new_data.pub_key == old_data.pub_key
    &&& (match m {
        JoinSplitModification::CorruptSignature => {
            &&& new_data.first == old_data.first
            &&& new_data.sig.0@ == old_data.sig.0@.update(10, old_data.sig.0@[10] ^ 0x01)
        },
        JoinSplitModification::CorruptProof => {
            &&& new_data.sig == old_data.sig
            &&& new_data.first.zkproof.0@.len() == 192
            &&& (forall|i: int|
                0 <= i < 48 ==> new_data.first.zkproof.0@[i] == old_data.first.zkproof.0@[i + 144])
            &&& (forall|i: int|
                48 <= i < 144 ==> new_data.first.zkproof.0@[i] == old_data.first.zkproof.0@[i])
            &&& (forall|i: int|
                144 <= i < 192 ==> new_data.first.zkproof.0@[i] == old_data.first.zkproof.0@[i
                    - 144])
            &&& spec_same_joinsplit_but_proof(new_data.first, old_data.first)
        },
        JoinSplitModification::ZeroProof => {
            &&& new_data.sig == old_data.sig
            &&& (forall|i: int| 0 <= i < 192 ==> new_data.first.zkproof.0@[i] == 0u8)
            &&& spec_same_joinsplit_but_proof(new_data.first, old_data.first)
        },
    })
}

/// Whether two join-splits agree on every field except the proof.
pub open spec fn spec_same_joinsplit_but_proof(a: sprout::JoinSplit, b: sprout::JoinSplit) -> bool {
    &&& a.vpub_old == b.vpub_old
    &&& a.vpub_new == b.vpub_new
    &&& a.anchor == b.anchor
    &&& a.nullifiers == b.nullifiers
    &&& a.commitments == b.commitments
    &&& a.ephemeral_key == b.ephemeral_key
    &&& a.random_seed == b.random_seed
    &&& a.vmacs == b.vmacs
    &&& a.enc_ciphertexts == b.enc_ciphertexts
}

/// Damages a Sprout payload in the way `modification` names: flips a
/// signature bit, swaps the first proof element with the last, or zeroes
/// the whole proof of the first join-split.
pub fn modify_joinsplit_data(
    joinsplit_data: &mut sprout::JoinSplitData,
    modification: JoinSplitModification,
)
    ensures
        spec_modified_joinsplit_data(*old(joinsplit_data), *final(joinsplit_data), modification),
{
    match modification {
        JoinSplitModification::CorruptSignature => {
            // Flip a bit of an arbitrary byte of the signature.
            let b = joinsplit_data.sig.0[10];
            joinsplit_data.sig.0[10] = b ^ 0x01;
        },
        JoinSplitModification::CorruptProof => {
            // A proof encodes three field elements; the first and last take
            // 48 bytes each.  Swapping them keeps the proof well-formed but
            // makes it invalid.
            let mut i: usize = 0;
            while i < 48
                invariant
                    i <= 48,
                    joinsplit_data.sig == old(joinsplit_data).sig,
                    joinsplit_data.rest == old(joinsplit_data).rest,
                    joinsplit_data.pub_key == old(joinsplit_data).pub_key,
                    spec_same_joinsplit_but_proof(
                        joinsplit_data.first,
                        old(joinsplit_data).first,
                    ),
                    joinsplit_data.first.zkproof.0@.len() == 192,
                    forall|k: int|
                        0 <= k < i ==> joinsplit_data.first.zkproof.0@[k] == old(
                            joinsplit_data,
                        ).first.zkproof.0@[k + 144],
                    forall|k: int|
                        i <= k < 144 ==> joinsplit_data.first.zkproof.0@[k] == old(
                            joinsplit_data,
                        ).first.zkproof.0@[k],
                    forall|k: int|
                        144 <= k < 144 + i ==> joinsplit_data.first.zkproof.0@[k] == old(
                            joinsplit_data,
                        ).first.zkproof.0@[k - 144],
                    forall|k: int|
                        144 + i <= k < 192 ==> joinsplit_data.first.zkproof.0@[k] == old(
                            joinsplit_data,
                        ).first.zkproof.0@[k],
                decreases 48 - i,
            {
                let lo = joinsplit_data.first.zkproof.0[i];
                let hi = joinsplit_data.first.zkproof.0[144 + i];
                joinsplit_data.first.zkproof.0[i] = hi;
                joinsplit_data.first.zkproof.0[144 + i] = lo;
                i = i + 1;
            }
        },
        JoinSplitModification::ZeroProof => {
            joinsplit_data.first.zkproof = Groth16Proof([0u8; 192]);
        },
    }
}

/// Damages the Sprout payload of a fourth-format transaction in the way
/// `modification` names.
pub fn modify_joinsplit(transaction: &mut Transaction, modification: JoinSplitModification)
    requires
        old(transaction) matches Transaction::V4 { joinsplit_data: Some(_), .. },
    ensures
        final(transaction).spec_version() == old(transaction).spec_version(),
        final(transaction).spec_inputs() == old(transaction).spec_inputs(),
        final(transaction).spec_outputs() == old(transaction).spec_outputs(),
        final(transaction).spec_lock_time() == old(transaction).spec_lock_time(),
        final(transaction).spec_expiry_height() == old(transaction).spec_expiry_height(),
        final(transaction).spec_sapling_shielded_data() == old(
            transaction,
        ).spec_sapling_shielded_data(),
        final(transaction).spec_joinsplit_data() is Some,
        spec_modified_joinsplit_data(
            old(transaction).spec_joinsplit_data()->Some_0,
            final(transaction).spec_joinsplit_data()->Some_0,
            modification,
        ),
{
    match transaction {
        Transaction::V4 { joinsplit_data: Some(joinsplit_data), .. } => {
            modify_joinsplit_data(joinsplit_data, modification);
        },
        _ => {
            proof {
                assert(false);
            }
        },
    }
}

/// Duplicates the first spend of a Sapling payload and returns the
/// nullifier the duplicate reveals.
pub fn duplicate_sapling_spend_in_shielded_data(shielded_data: &mut sapling::ShieldedData) -> (r:
    sapling::Nullifier)
    requires
        old(shielded_data).transfers matches sapling::TransferData::SpendsAndMaybeOutputs {
            spends,
            ..
        } && spends@.len() > 0,
    ensures
        final(shielded_data).binding_sig == old(shielded_data).binding_sig,
        final(shielded_data).spec_outputs() == old(shielded_data).spec_outputs(),
        final(shielded_data).spec_spends() == old(shielded_data).spec_spends().push(
            old(shielded_data).spec_spends()[0],
        ),
        r == old(shielded_data).spec_spends()[0].nullifier,
{
    match &mut shielded_data.transfers {
        sapling::TransferData::SpendsAndMaybeOutputs { spends, .. } => {
            let duplicate_spend = spends[0];
            let duplicate_nullifier = duplicate_spend.nullifier;
            spends.push(duplicate_spend);
            duplicate_nullifier
        },
        sapling::TransferData::JustOutputs { .. } => {
            proof {
                assert(false);
            }
            sapling::Nullifier([0u8; 32])
        },
    }
}

/// Duplicates the first Sapling spend of a transaction and returns the
/// nullifier the duplicate reveals.
pub fn duplicate_sapling_spend(transaction: &mut Transaction) -> (r: sapling::Nullifier)
    requires
        old(transaction).spec_sapling_shielded_data() matches Some(d)
            && d.transfers matches sapling::TransferData::SpendsAndMaybeOutputs { spends, .. }
            && spends@.len() > 0,
    ensures
        final(transaction).spec_version() == old(transaction).spec_version(),
        final(transaction).spec_inputs() == old(transaction).spec_inputs(),
        final(transaction).spec_outputs() == old(transaction).spec_outputs(),
        final(transaction).spec_expiry_height() == old(transaction).spec_expiry_height(),
        final(transaction).spec_joinsplit_data() == old(transaction).spec_joinsplit_data(),
        final(transaction).spec_orchard_shielded_data() == old(
            transaction,
        ).spec_orchard_shielded_data(),
        final(transaction).spec_sapling_shielded_data() is Some,
        final(transaction).spec_sapling_shielded_data()->Some_0.spec_spends() == old(
            transaction,
        ).spec_sapling_shielded_data()->Some_0.spec_spends().push(
            old(transaction).spec_sapling_shielded_data()->Some_0.spec_spends()[0],
        ),
        final(transaction).spec_sapling_shielded_data()->Some_0.spec_outputs() == old(
            transaction,
        ).spec_sapling_shielded_data()->Some_0.spec_outputs(),
        r == old(transaction).spec_sapling_shielded_data()->Some_0.spec_spends()[0].nullifier,
{
    match transaction {
        Transaction::V4 { sapling_shielded_data: Some(shielded_data), .. } => {
            duplicate_sapling_spend_in_shielded_data(shielded_data)
        },
        Transaction::V5 { sapling_shielded_data: Some(shielded_data), .. } => {
            duplicate_sapling_spend_in_shielded_data(shielded_data)
        },
        _ => {
            proof {
                assert(false);
            }
            sapling::Nullifier([0u8; 32])
        },
    }
}

/// Whether `d` is the placeholder Orchard payload of
/// [`insert_fake_orchard_shielded_data`]: both flags clear and exactly one
/// zeroed action.
pub open spec fn is_fake_orchard_data(d: orchard::ShieldedData) -> bool {
    &&& !d.flags.enable_spends
    &&& !d.flags.enable_outputs
    &&& d.actions@.len() == 1
    &&& (forall|i: int| 0 <= i < 32 ==> d.actions@[0].action.nullifier.0@[i] == 0u8)
    &&& d.proof.0@ == Seq::<u8>::empty()
}

/// Gives a fifth-format transaction a placeholder Orchard payload with one
/// zeroed action and both capability flags clear; the rest of the
/// transaction is untouched.
pub fn insert_fake_orchard_shielded_data(transaction: &mut Transaction)
    requires
        old(transaction) matches Transaction::V5 { .. },
    ensures
        final(transaction).spec_version() == old(transaction).spec_version(),
        final(transaction).spec_inputs() == old(transaction).spec_inputs(),
        final(transaction).spec_outputs() == old(transaction).spec_outputs(),
        final(transaction).spec_lock_time() == old(transaction).spec_lock_time(),
        final(transaction).spec_expiry_height() == old(transaction).spec_expiry_height(),
        final(transaction).spec_sapling_shielded_data() == old(
            transaction,
        ).spec_sapling_shielded_data(),
        final(transaction).spec_network_upgrade() == old(transaction).spec_network_upgrade(),
        final(transaction).spec_orchard_shielded_data() is Some,
        is_fake_orchard_data(final(transaction).spec_orchard_shielded_data()->Some_0),
{
    let action = orchard::Action {
        cv: [0u8; 32],
        nullifier: orchard::Nullifier([0u8; 32]),
        rk: [0u8; 32],
        cm_x: [0u8; 32],
        ephemeral_key: [0u8; 32],
        enc_ciphertext: [0u8; 580],
        out_ciphertext: [0u8; 80],
    };
    let authorized = orchard::AuthorizedAction::from_parts(
        action,
        RedPallasSignature([0u8; 64]),
    );
    let mut actions: Vec<orchard::AuthorizedAction> = Vec::new();
    actions.push(authorized);
    let data = orchard::ShieldedData {
        flags: orchard::Flags::empty(),
        shared_anchor: [0u8; 32],
        proof: Halo2Proof(Vec::new()),
        actions,
        binding_sig: RedPallasSignature([0u8; 64]),
    };
    match transaction {
        Transaction::V5 { orchard_shielded_data, .. } => {
            *orchard_shielded_data = Some(data);
        },
        _ => {
            proof {
                assert(false);
            }
        },
    }
}

/// Replaces the flag set of a transaction's Orchard payload; the rest of
/// the transaction is untouched.
pub fn set_orchard_flags(transaction: &mut Transaction, flags: orchard::Flags)
    requires
        old(transaction).spec_orchard_shielded_data() is Some,
    ensures
        final(transaction).spec_version() == old(transaction).spec_version(),
        final(transaction).spec_inputs() == old(transaction).spec_inputs(),
        final(transaction).spec_outputs() == old(transaction).spec_outputs(),
        final(transaction).spec_lock_time() == old(transaction).spec_lock_time(),
        final(transaction).spec_expiry_height() == old(transaction).spec_expiry_height(),
        final(transaction).spec_sapling_shielded_data() == old(
            transaction,
        ).spec_sapling_shielded_data(),
        final(transaction).spec_network_upgrade() == old(transaction).spec_network_upgrade(),
        final(transaction).spec_orchard_shielded_data() is Some,
        final(transaction).spec_orchard_shielded_data()->Some_0.flags == flags,
        final(transaction).spec_orchard_shielded_data()->Some_0.actions == old(
            transaction,
        ).spec_orchard_shielded_data()->Some_0.actions,
        final(transaction).spec_orchard_shielded_data()->Some_0.binding_sig == old(
            transaction,
        ).spec_orchard_shielded_data()->Some_0.binding_sig,
{
    match transaction {
        Transaction::V5 { orchard_shielded_data: Some(data), .. } => {
            data.flags = flags;
        },
        _ => {
            proof {
                assert(false);
            }
        },
    }
}

/// Duplicates the first action of a transaction's Orchard payload and
/// returns the nullifier the duplicate reveals.
pub fn push_duplicate_orchard_action(transaction: &mut Transaction) -> (r: orchard::Nullifier)
    requires
        old(transaction).spec_orchard_shielded_data() matches Some(d) && d.actions@.len() > 0,
    ensures
        final(transaction).spec_version() == old(transaction).spec_version(),
        final(transaction).spec_inputs() == old(transaction).spec_inputs(),
        final(transaction).spec_outputs() == old(transaction).spec_outputs(),
        final(transaction).spec_expiry_height() == old(transaction).spec_expiry_height(),
        final(transaction).spec_sapling_shielded_data() == old(
            transaction,
        ).spec_sapling_shielded_data(),
        final(transaction).spec_orchard_shielded_data() is Some,
        final(transaction).spec_orchard_shielded_data()->Some_0.actions@ == old(
            transaction,
        ).spec_orchard_shielded_data()->Some_0.actions@.push(
            old(transaction).spec_orchard_shielded_data()->Some_0.actions@[0],
        ),
        final(transaction).spec_orchard_shielded_data()->Some_0.flags == old(
            transaction,
        ).spec_orchard_shielded_data()->Some_0.flags,
        r == old(transaction).spec_orchard_shielded_data()->Some_0.actions@[0].action.nullifier,
{
    match transaction {
        Transaction::V5 { orchard_shielded_data: Some(data), .. } => {
            let duplicate_action = data.actions[0];
            let duplicate_nullifier = duplicate_action.action.nullifier;
            data.actions.push(duplicate_action);
            duplicate_nullifier
        },
        _ => {
            proof {
                assert(false);
            }
            orchard::Nullifier([0u8; 32])
        },
    }
}

/// A note-encryption test vector: the fields of one shielded output
/// exactly as a published vector gives them.
#[derive(Clone, Copy, Debug, PartialEq, Eq)]
pub struct NoteEncryptionVector {
    pub cv_net: [u8; 32],
    pub cmx: [u8; 32],
    pub rho: [u8; 32],
    pub ephemeral_key: [u8; 32],
    pub c_out: [u8; 80],
    pub c_enc: [u8; 580],
}

/// Returns `action` with every note-encryption field replaced by the test
/// vector's values; the randomized key is kept.
pub fn fill_action_with_note_encryption_test_vector(
    action: &orchard::Action,
    v: &NoteEncryptionVector,
) -> (r: orchard::Action)
    ensures
        r.cv == v.cv_net,
        r.cm_x == v.cmx,
        r.nullifier.0 == v.rho,
        r.ephemeral_key == v.ephemeral_key,
        r.out_ciphertext == v.c_out,
        r.enc_ciphertext == v.c_enc,
        r.rk == action.rk,
{
    let mut filled = *action;
    filled.cv = v.cv_net;
    filled.cm_x = v.cmx;
    filled.nullifier = orchard::Nullifier(v.rho);
    filled.ephemeral_key = v.ephemeral_key;
    filled.out_ciphertext = v.c_out;
    filled.enc_ciphertext = v.c_enc;
    filled
}

} // verus!
