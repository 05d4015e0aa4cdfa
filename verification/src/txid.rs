//! The canonical identifier of a transaction, computed by folding every
//! field of the transaction into the digest chain of [`crate::hash`].

use vstd::prelude::*;

use crate::amount::spec_digest_amount;
use crate::hash::{
    expand_digest, mix, mix_bool, mix_bytes, mix_i64, spec_expand_digest, spec_mix, spec_mix_bool,
    spec_mix_bytes, spec_mix_i64, DIGEST_BASIS,
};
use crate::orchard;
use crate::parameters::NetworkUpgrade;
use crate::sapling;
use crate::sprout;
use crate::transaction::{LockTime, Transaction};
use crate::transparent::{Input, OutPoint, Output, Script};

verus! {

/// Folds an outpoint into the state `h`.
pub open spec fn spec_digest_outpoint(h: u64, o: OutPoint) -> u64 {
    spec_mix(spec_mix_bytes(h, o.hash.0@), o.index as u64)
}

fn digest_outpoint(h: u64, o: &OutPoint) -> (r: u64)
    ensures
        r == spec_digest_outpoint(h, *o),
{
    mix(mix_bytes(h, o.hash.0.as_slice()), o.index as u64)
}

/// Folds a script into the state `h`: its length, then its bytes.
pub open spec fn spec_digest_script(h: u64, s: Script) -> u64 {
    spec_mix_bytes(spec_mix(h, s.0@.len() as u64), s.0@)
}

fn digest_script(h: u64, s: &Script) -> (r: u64)
    ensures
        r == spec_digest_script(h, *s),
{
    mix_bytes(mix(h, s.0.len() as u64), s.0.as_slice())
}

/// Folds one transparent input into the state `h`, tagged by its kind.
pub open spec fn spec_digest_input(h: u64, input: Input) -> u64 {
    match input {
        Input::PrevOut { outpoint, unlock_script, sequence } => spec_mix(
            spec_digest_script(spec_digest_outpoint(spec_mix(h, 0), outpoint), unlock_script),
            sequence as u64,
        ),
        Input::Coinbase { height, data, sequence } => spec_mix(
            spec_mix_bytes(spec_mix(spec_mix(h, 1), height.0 as u64), data.0@),
            sequence as u64,
        ),
    }
}

fn digest_input(h: u64, input: &Input) -> (r: u64)
    ensures
        r == spec_digest_input(h, *input),
{
    match input {
        Input::PrevOut { outpoint, unlock_script, sequence } => {
            let acc = mix(h, 0);
            let acc = digest_outpoint(acc, outpoint);
            let acc = digest_script(acc, unlock_script);
            mix(acc, *sequence as u64)
        },
        Input::Coinbase { height, data, sequence } => {
            let acc = mix(h, 1);
            let acc = mix(acc, height.0 as u64);
            let acc = mix_bytes(acc, data.0.as_slice());
            mix(acc, *sequence as u64)
        },
    }
}

/// Folds a run of inputs into the state `h`, in order.
pub open spec fn spec_digest_inputs(h: u64, inputs: Seq<Input>) -> u64
    decreases inputs.len(),
{
    if inputs.len() == 0 {
        h
    } else {
        spec_digest_input(spec_digest_inputs(h, inputs.drop_last()), inputs.last())
    }
}

fn digest_inputs(h: u64, inputs: &Vec<Input>) -> (r: u64)
    ensures
        r == spec_digest_inputs(h, inputs@),
{
    let mut acc = h;
    let n = inputs.len();
    let mut i: usize = 0;
    proof {
        assert(inputs@.take(0) =~= Seq::<Input>::empty());
    }
    while i < n
        invariant
            n == inputs@.len(),
            i <= n,
            acc == spec_digest_inputs(h, inputs@.take(i as int)),
        decreases n - i,
    {
        acc = digest_input(acc, &inputs[i]);
        proof {
            assert(inputs@.take(i + 1 as int).drop_last() =~= inputs@.take(i as int));
            assert(inputs@.take(i + 1 as int).last() == inputs@[i as int]);
        }
        i = i + 1;
    }
    proof {
        assert(inputs@.take(n as int) =~= inputs@);
    }
    acc
}

/// Folds one transparent output into the state `h`.
pub open spec fn spec_digest_output(h: u64, output: Output) -> u64 {
    spec_digest_script(spec_digest_amount(h, output.value), output.lock_script)
}

fn digest_output(h: u64, output: &Output) -> (r: u64)
    ensures
        r == spec_digest_output(h, *output),
{
    let acc = output.value.digest_into(h);
    digest_script(acc, &output.lock_script)
}

/// Folds a run of outputs into the state `h`, in order.
pub open spec fn spec_digest_outputs(h: u64, outputs: Seq<Output>) -> u64
    decreases outputs.len(),
{
    if outputs.len() == 0 {
        h
    } else {
        spec_digest_output(spec_digest_outputs(h, outputs.drop_last()), outputs.last())
    }
}

fn digest_outputs(h: u64, outputs: &Vec<Output>) -> (r: u64)
    ensures
        r == spec_digest_outputs(h, outputs@),
{
    let mut acc = h;
    let n = outputs.len();
    let mut i: usize = 0;
    proof {
        assert(outputs@.take(0) =~= Seq::<Output>::empty());
    }
    while i < n
        invariant
            n == outputs@.len(),
            i <= n,
            acc == spec_digest_outputs(h, outputs@.take(i as int)),
        decreases n - i,
    {
        acc = digest_output(acc, &outputs[i]);
        proof {
            assert(outputs@.take(i + 1 as int).drop_last() =~= outputs@.take(i as int));
            assert(outputs@.take(i + 1 as int).last() == outputs@[i as int]);
        }
        i = i + 1;
    }
    proof {
        assert(outputs@.take(n as int) =~= outputs@);
    }
    acc
}

/// Folds the lock time into the state `h`, tagged by its kind.
pub open spec fn spec_digest_lock_time(h: u64, lock_time: LockTime) -> u64 {
    match lock_time {
        LockTime::Height(height) => spec_mix(spec_mix(h, 0), height.0 as u64),
        LockTime::Time(t) => spec_mix_i64(spec_mix(h, 1), t),
    }
}

fn digest_lock_time(h: u64, lock_time: &LockTime) -> (r: u64)
    ensures
        r == spec_digest_lock_time(h, *lock_time),
{
    match lock_time {
        LockTime::Height(height) => mix(mix(h, 0), height.0 as u64),
        LockTime::Time(t) => mix_i64(mix(h, 1), *t),
    }
}

/// Folds one join-split into the state `h`, field by field.
#[verifier::opaque]
pub open spec fn spec_digest_joinsplit(h: u64, js: sprout::JoinSplit) -> u64 {
    let acc = spec_digest_amount(h, js.vpub_old);
    let acc = spec_digest_amount(acc, js.vpub_new);
    let acc = spec_mix_bytes(acc, js.anchor@);
    let acc = spec_mix_bytes(acc, js.nullifiers@[0].0@);
    let acc = spec_mix_bytes(acc, js.nullifiers@[1].0@);
    let acc = spec_mix_bytes(acc, js.commitments@[0].0@);
    let acc = spec_mix_bytes(acc, js.commitments@[1].0@);
    let acc = spec_mix_bytes(acc, js.ephemeral_key@);
    let acc = spec_mix_bytes(acc, js.random_seed.0@);
    let acc = spec_mix_bytes(acc, js.vmacs@[0].0@);
    let acc = spec_mix_bytes(acc, js.vmacs@[1].0@);
    let acc = spec_mix_bytes(acc, js.zkproof.0@);
    let acc = spec_mix_bytes(acc, js.enc_ciphertexts@[0].0@);
    spec_mix_bytes(acc, js.enc_ciphertexts@[1].0@)
}

fn digest_joinsplit(h: u64, js: &sprout::JoinSplit) -> (r: u64)
    ensures
        r == spec_digest_joinsplit(h, *js),
{
    proof {
        reveal(spec_digest_joinsplit);
    }
    let acc = js.vpub_old.digest_into(h);
    let acc = js.vpub_new.digest_into(acc);
    let acc = mix_bytes(acc, js.anchor.as_slice());
    let acc = mix_bytes(acc, js.nullifiers[0].0.as_slice());
    let acc = mix_bytes(acc, js.nullifiers[1].0.as_slice());
    let acc = mix_bytes(acc, js.commitments[0].0.as_slice());
    let acc = mix_bytes(acc, js.commitments[1].0.as_slice());
    let acc = mix_bytes(acc, js.ephemeral_key.as_slice());
    let acc = mix_bytes(acc, js.random_seed.0.as_slice());
    let acc = mix_bytes(acc, js.vmacs[0].0.as_slice());
    let acc = mix_bytes(acc, js.vmacs[1].0.as_slice());
    let acc = mix_bytes(acc, js.zkproof.0.as_slice());
    let acc = mix_bytes(acc, js.enc_ciphertexts[0].0.as_slice());
    mix_bytes(acc, js.enc_ciphertexts[1].0.as_slice())
}

/// Folds a run of join-splits into the state `h`, in order.
pub open spec fn spec_digest_joinsplits(h: u64, js: Seq<sprout::JoinSplit>) -> u64
    decreases js.len(),
{
    if js.len() == 0 {
        h
    } else {
        spec_digest_joinsplit(spec_digest_joinsplits(h, js.drop_last()), js.last())
    }
}

/// Folds a whole Sprout payload into the state `h`.
pub open spec fn spec_digest_joinsplit_data(h: u64, data: sprout::JoinSplitData) -> u64 {
    let acc = spec_digest_joinsplits(h, data.spec_joinsplits());
    spec_mix_bytes(spec_mix_bytes(acc, data.pub_key.0@), data.sig.0@)
}

#[verifier::rlimit(50)]
fn digest_joinsplit_data(h: u64, data: &sprout::JoinSplitData) -> (r: u64)
    ensures
        r == spec_digest_joinsplit_data(h, *data),
{
    let ghost all = data.spec_joinsplits();
    let mut acc = digest_joinsplit(h, &data.first);
    proof {
        assert(spec_digest_joinsplits(h, Seq::<sprout::JoinSplit>::empty()) == h);
        assert(all.take(1).drop_last() =~= Seq::<sprout::JoinSplit>::empty());
        assert(all.take(1).last() == data.first);
        assert(acc == spec_digest_joinsplits(h, all.take(1)));
    }
    let n = data.rest.len();
    let mut i: usize = 0;
    while i < n
        invariant
            n == data.rest@.len(),
            i <= n,
            all == data.spec_joinsplits(),
            all.len() == 1 + n,
            acc == spec_digest_joinsplits(h, all.take(1 + i)),
        decreases n - i,
    {
        acc = digest_joinsplit(acc, &data.rest[i]);
        proof {
            assert(all.take(2 + i).drop_last() =~= all.take(1 + i));
            assert(all.take(2 + i).last() == data.rest@[i as int]);
        }
        i = i + 1;
    }
    proof {
        assert(all.take(1 + n) =~= all);
    }
    let acc = mix_bytes(acc, data.pub_key.0.as_slice());
    mix_bytes(acc, data.sig.0.as_slice())
}

/// Folds one Sapling spend description into the state `h`.
pub open spec fn spec_digest_spend(h: u64, s: sapling::SpendDescription) -> u64 {
    let acc = spec_mix_bytes(h, s.cv@);
    let acc = spec_mix_bytes(acc, s.anchor@);
    let acc = spec_mix_bytes(acc, s.nullifier.0@);
    let acc = spec_mix_bytes(acc, s.rk@);
    let acc = spec_mix_bytes(acc, s.zkproof.0@);
    spec_mix_bytes(acc, s.spend_auth_sig.0@)
}

fn digest_spend(h: u64, s: &sapling::SpendDescription) -> (r: u64)
    ensures
        r == spec_digest_spend(h, *s),
{
    let acc = mix_bytes(h, s.cv.as_slice());
    let acc = mix_bytes(acc, s.anchor.as_slice());
    let acc = mix_bytes(acc, s.nullifier.0.as_slice());
    let acc = mix_bytes(acc, s.rk.as_slice());
    let acc = mix_bytes(acc, s.zkproof.0.as_slice());
    mix_bytes(acc, s.spend_auth_sig.0.as_slice())
}

/// Folds one Sapling output description into the state `h`.
pub open spec fn spec_digest_sapling_output(h: u64, o: sapling::OutputDescription) -> u64 {
    let acc = spec_mix_bytes(h, o.cv@);
    let acc = spec_mix_bytes(acc, o.cmu@);
    let acc = spec_mix_bytes(acc, o.ephemeral_key@);
    let acc = spec_mix_bytes(acc, o.enc_ciphertext@);
    let acc = spec_mix_bytes(acc, o.out_ciphertext@);
    spec_mix_bytes(acc, o.zkproof.0@)
}

fn digest_sapling_output(h: u64, o: &sapling::OutputDescription) -> (r: u64)
    ensures
        r == spec_digest_sapling_output(h, *o),
{
    let acc = mix_bytes(h, o.cv.as_slice());
    let acc = mix_bytes(acc, o.cmu.as_slice());
    let acc = mix_bytes(acc, o.ephemeral_key.as_slice());
    let acc = mix_bytes(acc, o.enc_ciphertext.as_slice());
    let acc = mix_bytes(acc, o.out_ciphertext.as_slice());
    mix_bytes(acc, o.zkproof.0.as_slice())
}

/// Folds a run of spend descriptions into the state `h`, in order.
pub open spec fn spec_digest_spends(h: u64, s: Seq<sapling::SpendDescription>) -> u64
    decreases s.len(),
{
    if s.len() == 0 {
        h
    } else {
        spec_digest_spend(spec_digest_spends(h, s.drop_last()), s.last())
    }
}

fn digest_spends(h: u64, s: &Vec<sapling::SpendDescription>) -> (r: u64)
    ensures
        r == spec_digest_spends(h, s@),
{
    let mut acc = h;
    let n = s.len();
    let mut i: usize = 0;
    proof {
        assert(s@.take(0) =~= Seq::<sapling::SpendDescription>::empty());
    }
    while i < n
        invariant
            n == s@.len(),
            i <= n,
            acc == spec_digest_spends(h, s@.take(i as int)),
        decreases n - i,
    {
        acc = digest_spend(acc, &s[i]);
        proof {
            assert(s@.take(i + 1 as int).drop_last() =~= s@.take(i as int));
            assert(s@.take(i + 1 as int).last() == s@[i as int]);
        }
        i = i + 1;
    }
    proof {
        assert(s@.take(n as int) =~= s@);
    }
    acc
}

/// Folds a run of output descriptions into the state `h`, in order.
pub open spec fn spec_digest_sapling_outputs(h: u64, s: Seq<sapling::OutputDescription>) -> u64
    decreases s.len(),
{
    if s.len() == 0 {
        h
    } else {
        spec_digest_sapling_output(spec_digest_sapling_outputs(h, s.drop_last()), s.last())
    }
}

fn digest_sapling_outputs(h: u64, s: &Vec<sapling::OutputDescription>) -> (r: u64)
    ensures
        r == spec_digest_sapling_outputs(h, s@),
{
    let mut acc = h;
    let n = s.len();
    let mut i: usize = 0;
    proof {
        assert(s@.take(0) =~= Seq::<sapling::OutputDescription>::empty());
    }
    while i < n
        invariant
            n == s@.len(),
            i <= n,
            acc == spec_digest_sapling_outputs(h, s@.take(i as int)),
        decreases n - i,
    {
        acc = digest_sapling_output(acc, &s[i]);
        proof {
            assert(s@.take(i + 1 as int).drop_last() =~= s@.take(i as int));
            assert(s@.take(i + 1 as int).last() == s@[i as int]);
        }
        i = i + 1;
    }
    proof {
        assert(s@.take(n as int) =~= s@);
    }
    acc
}

/// Folds a whole Sapling payload into the state `h`, tagged by which sides
/// its transfers carry.
pub open spec fn spec_digest_sapling(h: u64, data: sapling::ShieldedData) -> u64 {
    let acc = match data.transfers {
        sapling::TransferData::SpendsAndMaybeOutputs { spends, maybe_outputs } => {
            spec_digest_sapling_outputs(spec_digest_spends(spec_mix(h, 0), spends@), maybe_outputs@)
        },
        sapling::TransferData::JustOutputs { outputs } => {
            spec_digest_sapling_outputs(spec_mix(h, 1), outputs@)
        },
    };
    spec_mix_bytes(acc, data.binding_sig.0@)
}

fn digest_sapling(h: u64, data: &sapling::ShieldedData) -> (r: u64)
    ensures
        r == spec_digest_sapling(h, *data),
{
    let acc = match &data.transfers {
        sapling::TransferData::SpendsAndMaybeOutputs { spends, maybe_outputs } => {
            digest_sapling_outputs(digest_spends(mix(h, 0), spends), maybe_outputs)
        },
        sapling::TransferData::JustOutputs { outputs } => {
            digest_sapling_outputs(mix(h, 1), outputs)
        },
    };
    mix_bytes(acc, data.binding_sig.0.as_slice())
}

/// Folds one authorized Orchard action into the state `h`.
pub open spec fn spec_digest_action(h: u64, a: orchard::AuthorizedAction) -> u64 {
    let acc = spec_mix_bytes(h, a.action.cv@);
    let acc = spec_mix_bytes(acc, a.action.nullifier.0@);
    let acc = spec_mix_bytes(acc, a.action.rk@);
    let acc = spec_mix_bytes(acc, a.action.cm_x@);
    let acc = spec_mix_bytes(acc, a.action.ephemeral_key@);
    let acc = spec_mix_bytes(acc, a.action.enc_ciphertext@);
    let acc = spec_mix_bytes(acc, a.action.out_ciphertext@);
    spec_mix_bytes(acc, a.spend_auth_sig.0@)
}

fn digest_action(h: u64, a: &orchard::AuthorizedAction) -> (r: u64)
    ensures
        r == spec_digest_action(h, *a),
{
    let acc = mix_bytes(h, a.action.cv.as_slice());
    let acc = mix_bytes(acc, a.action.nullifier.0.as_slice());
    let acc = mix_bytes(acc, a.action.rk.as_slice());
    let acc = mix_bytes(acc, a.action.cm_x.as_slice());
    let acc = mix_bytes(acc, a.action.ephemeral_key.as_slice());
    let acc = mix_bytes(acc, a.action.enc_ciphertext.as_slice());
    let acc = mix_bytes(acc, a.action.out_ciphertext.as_slice());
    mix_bytes(acc, a.spend_auth_sig.0.as_slice())
}

/// Folds a run of authorized actions into the state `h`, in order.
pub open spec fn spec_digest_actions(h: u64, s: Seq<orchard::AuthorizedAction>) -> u64
    decreases s.len(),
{
    if s.len() == 0 {
        h
    } else {
        spec_digest_action(spec_digest_actions(h, s.drop_last()), s.last())
    }
}

fn digest_actions(h: u64, s: &Vec<orchard::AuthorizedAction>) -> (r: u64)
    ensures
        r == spec_digest_actions(h, s@),
{
    let mut acc = h;
    let n = s.len();
    let mut i: usize = 0;
    proof {
        assert(s@.take(0) =~= Seq::<orchard::AuthorizedAction>::empty());
    }
    while i < n
        invariant
            n == s@.len(),
            i <= n,
            acc == spec_digest_actions(h, s@.take(i as int)),
        decreases n - i,
    {
        acc = digest_action(acc, &s[i]);
        proof {
            assert(s@.take(i + 1 as int).drop_last() =~= s@.take(i as int));
            assert(s@.take(i + 1 as int).last() == s@[i as int]);
        }
        i = i + 1;
    }
    proof {
        assert(s@.take(n as int) =~= s@);
    }
    acc
}

/// Folds a whole Orchard payload into the state `h`.
pub open spec fn spec_digest_orchard(h: u64, data: orchard::ShieldedData) -> u64 {
    let acc = spec_mix_bool(h, data.flags.enable_spends);
    let acc = spec_mix_bool(acc, data.flags.enable_outputs);
    let acc = spec_mix_bytes(acc, data.shared_anchor@);
    let acc = spec_mix_bytes(acc, data.proof.0@);
    let acc = spec_digest_actions(acc, data.actions@);
    spec_mix_bytes(acc, data.binding_sig.0@)
}

fn digest_orchard(h: u64, data: &orchard::ShieldedData) -> (r: u64)
    ensures
        r == spec_digest_orchard(h, *data),
{
    let acc = mix_bool(h, data.flags.enable_spends);
    let acc = mix_bool(acc, data.flags.enable_outputs);
    let acc = mix_bytes(acc, data.shared_anchor.as_slice());
    let acc = mix_bytes(acc, data.proof.0.as_slice());
    let acc = digest_actions(acc, &data.actions);
    mix_bytes(acc, data.binding_sig.0.as_slice())
}

/// Folds an optional Sprout payload into the state `h`, tagged by presence.
pub open spec fn spec_digest_opt_joinsplit_data(h: u64, data: Option<sprout::JoinSplitData>) -> u64 {
    match data {
        None => spec_mix(h, 0),
        Some(d) => spec_digest_joinsplit_data(spec_mix(h, 1), d),
    }
}

fn digest_opt_joinsplit_data(h: u64, data: &Option<sprout::JoinSplitData>) -> (r: u64)
    ensures
        r == spec_digest_opt_joinsplit_data(h, *data),
{
    match data {
        None => mix(h, 0),
        Some(d) => digest_joinsplit_data(mix(h, 1), d),
    }
}

/// Folds an optional Sapling payload into the state `h`, tagged by presence.
pub open spec fn spec_digest_opt_sapling(h: u64, data: Option<sapling::ShieldedData>) -> u64 {
    match data {
        None => spec_mix(h, 0),
        Some(d) => spec_digest_sapling(spec_mix(h, 1), d),
    }
}

fn digest_opt_sapling(h: u64, data: &Option<sapling::ShieldedData>) -> (r: u64)
    ensures
        r == spec_digest_opt_sapling(h, *data),
{
    match data {
        None => mix(h, 0),
        Some(d) => digest_sapling(mix(h, 1), d),
    }
}

/// Folds an optional Orchard payload into the state `h`, tagged by presence.
pub open spec fn spec_digest_opt_orchard(h: u64, data: Option<orchard::ShieldedData>) -> u64 {
    match data {
        None => spec_mix(h, 0),
        Some(d) => spec_digest_orchard(spec_mix(h, 1), d),
    }
}

fn digest_opt_orchard(h: u64, data: &Option<orchard::ShieldedData>) -> (r: u64)
    ensures
        r == spec_digest_opt_orchard(h, *data),
{
    match data {
        None => mix(h, 0),
        Some(d) => digest_orchard(mix(h, 1), d),
    }
}

/// The tag a network upgrade contributes to the digest.
pub open spec fn spec_upgrade_tag(nu: NetworkUpgrade) -> u64 {
    match nu {
        NetworkUpgrade::Genesis => 0,
        NetworkUpgrade::BeforeOverwinter => 1,
        NetworkUpgrade::Overwinter => 2,
        NetworkUpgrade::Sapling => 3,
        NetworkUpgrade::Blossom => 4,
        NetworkUpgrade::Heartwood => 5,
        NetworkUpgrade::Canopy => 6,
        NetworkUpgrade::Nu5 => 7,
    }
}

fn upgrade_tag(nu: NetworkUpgrade) -> (r: u64)
    ensures
        r == spec_upgrade_tag(nu),
{
    match nu {
        NetworkUpgrade::Genesis => 0,
        NetworkUpgrade::BeforeOverwinter => 1,
        NetworkUpgrade::Overwinter => 2,
        NetworkUpgrade::Sapling => 3,
        NetworkUpgrade::Blossom => 4,
        NetworkUpgrade::Heartwood => 5,
        NetworkUpgrade::Canopy => 6,
        NetworkUpgrade::Nu5 => 7,
    }
}

/// The digest state after folding in every field of `tx`, starting from the
/// digest basis.
pub open spec fn spec_digest_transaction(tx: Transaction) -> u64 {
    match tx {
        Transaction::V1 { inputs, outputs, lock_time } => {
            let acc = spec_mix(DIGEST_BASIS, 1);
            let acc = spec_digest_inputs(acc, inputs@);
            let acc = spec_digest_outputs(acc, outputs@);
            spec_digest_lock_time(acc, lock_time)
        },
        Transaction::V2 { inputs, outputs, lock_time, joinsplit_data } => {
            let acc = spec_mix(DIGEST_BASIS, 2);
            let acc = spec_digest_inputs(acc, inputs@);
            let acc = spec_digest_outputs(acc, outputs@);
            let acc = spec_digest_lock_time(acc, lock_time);
            spec_digest_opt_joinsplit_data(acc, joinsplit_data)
        },
        Transaction::V3 { inputs, outputs, lock_time, expiry_height, joinsplit_data } => {
            let acc = spec_mix(DIGEST_BASIS, 3);
            let acc = spec_digest_inputs(acc, inputs@);
            let acc = spec_digest_outputs(acc, outputs@);
            let acc = spec_digest_lock_time(acc, lock_time);
            let acc = spec_mix(acc, expiry_height.0 as u64);
            spec_digest_opt_joinsplit_data(acc, joinsplit_data)
        },
        Transaction::V4 {
            inputs,
            outputs,
            lock_time,
            expiry_height,
            joinsplit_data,
            sapling_shielded_data,
        } => {
            let acc = spec_mix(DIGEST_BASIS, 4);
            let acc = spec_digest_inputs(acc, inputs@);
            let acc = spec_digest_outputs(acc, outputs@);
            let acc = spec_digest_lock_time(acc, lock_time);
            let acc = spec_mix(acc, expiry_height.0 as u64);
            let acc = spec_digest_opt_joinsplit_data(acc, joinsplit_data);
            spec_digest_opt_sapling(acc, sapling_shielded_data)
        },
        Transaction::V5 {
            network_upgrade,
            inputs,
            outputs,
            lock_time,
            expiry_height,
            sapling_shielded_data,
            orchard_shielded_data,
        } => {
            let acc = spec_mix(DIGEST_BASIS, 5);
            let acc = spec_mix(acc, spec_upgrade_tag(network_upgrade));
            let acc = spec_digest_inputs(acc, inputs@);
            let acc = spec_digest_outputs(acc, outputs@);
            let acc = spec_digest_lock_time(acc, lock_time);
            let acc = spec_mix(acc, expiry_height.0 as u64);
            let acc = spec_digest_opt_sapling(acc, sapling_shielded_data);
            spec_digest_opt_orchard(acc, orchard_shielded_data)
        },
    }
}

impl Transaction {
    /// The canonical 32-byte identifying digest of this transaction.
    pub open spec fn spec_hash(&self) -> crate::hash::Hash {
        spec_expand_digest(spec_digest_transaction(*self))
    }

    /// The canonical 32-byte identifying digest of this transaction: a pure
    /// function of every field, so equal transactions hash alike.
    pub fn hash(&self) -> (r: crate::hash::Hash)
        ensures
            r == self.spec_hash(),
    {
        let d: u64 = match self {
            Transaction::V1 { inputs, outputs, lock_time } => {
                let acc = mix(DIGEST_BASIS, 1);
                let acc = digest_inputs(acc, inputs);
                let acc = digest_outputs(acc, outputs);
                digest_lock_time(acc, lock_time)
            },
            Transaction::V2 { inputs, outputs, lock_time, joinsplit_data } => {
                let acc = mix(DIGEST_BASIS, 2);
                let acc = digest_inputs(acc, inputs);
                let acc = digest_outputs(acc, outputs);
                let acc = digest_lock_time(acc, lock_time);
                digest_opt_joinsplit_data(acc, joinsplit_data)
            },
            Transaction::V3 { inputs, outputs, lock_time, expiry_height, joinsplit_data } => {
                let acc = mix(DIGEST_BASIS, 3);
                let acc = digest_inputs(acc, inputs);
                let acc = digest_outputs(acc, outputs);
                let acc = digest_lock_time(acc, lock_time);
                let acc = mix(acc, expiry_height.0 as u64);
                digest_opt_joinsplit_data(acc, joinsplit_data)
            },
            Transaction::V4 {
                inputs,
                outputs,
                lock_time,
                expiry_height,
                joinsplit_data,
                sapling_shielded_data,
            } => {
                let acc = mix(DIGEST_BASIS, 4);
                let acc = digest_inputs(acc, inputs);
                let acc = digest_outputs(acc, outputs);
                let acc = digest_lock_time(acc, lock_time);
                let acc = mix(acc, expiry_height.0 as u64);
                let acc = digest_opt_joinsplit_data(acc, joinsplit_data);
                digest_opt_sapling(acc, sapling_shielded_data)
            },
            Transaction::V5 {
                network_upgrade,
                inputs,
                outputs,
                lock_time,
                expiry_height,
                sapling_shielded_data,
                orchard_shielded_data,
            } => {
                let acc = mix(DIGEST_BASIS, 5);
                let acc = mix(acc, upgrade_tag(*network_upgrade));
                let acc = digest_inputs(acc, inputs);
                let acc = digest_outputs(acc, outputs);
                let acc = digest_lock_time(acc, lock_time);
                let acc = mix(acc, expiry_height.0 as u64);
                let acc = digest_opt_sapling(acc, sapling_shielded_data);
                digest_opt_orchard(acc, orchard_shielded_data)
            },
        };
        expand_digest(d)
    }

    /// The identifier this transaction carries outside a block: legacy for
    /// the first four formats, witnessed for the fifth.
    pub open spec fn spec_unmined_id(&self) -> crate::hash::UnminedTxId {
        if self.spec_version() == 5 {
            crate::hash::UnminedTxId::Witnessed(self.spec_hash())
        } else {
            crate::hash::UnminedTxId::Legacy(self.spec_hash())
        }
    }

    /// The identifier this transaction carries outside a block.
    pub fn unmined_id(&self) -> (r: crate::hash::UnminedTxId)
        ensures
            r == self.spec_unmined_id(),
    {
        let h = self.hash();
        if self.version() == 5 {
            crate::hash::UnminedTxId::Witnessed(h)
        } else {
            crate::hash::UnminedTxId::Legacy(h)
        }
    }
}

} // verus!
