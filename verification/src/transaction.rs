//! The transaction envelope: a tagged union over the format versions.
//!
//! Each variant carries exactly the fields that are legal for its version,
//! so illegal combinations (an Orchard payload on a fourth-format
//! transaction, say) cannot be expressed at all.

use vstd::prelude::*;

use crate::amount::{Amount, NonNegative};
use crate::block::Height;
use crate::orchard;
use crate::parameters::NetworkUpgrade;
use crate::sapling;
use crate::sprout;
use crate::transparent::{Input, OutPoint, Output};

verus! {

/// The earliest time a transaction may enter a block, as a height or a
/// Unix-epoch timestamp.
#[derive(Clone, Copy, Debug, PartialEq, Eq)]
pub enum LockTime {
    Height(Height),
    Time(i64),
}

impl LockTime {
    /// The lock that never delays a transaction.
    pub fn unlocked() -> (r: LockTime)
        ensures
            r == LockTime::Height(Height(0)),
    {
        LockTime::Height(Height(0))
    }
}

/// A transaction in any of the five formats the protocol has used.
#[derive(Clone, Debug, PartialEq, Eq)]
pub enum Transaction {
    V1 {
        inputs: Vec<Input>,
        outputs: Vec<Output>,
        lock_time: LockTime,
    },
    V2 {
        inputs: Vec<Input>,
        outputs: Vec<Output>,
        lock_time: LockTime,
        joinsplit_data: Option<sprout::JoinSplitData>,
    },
    V3 {
        inputs: Vec<Input>,
        outputs: Vec<Output>,
        lock_time: LockTime,
        expiry_height: Height,
        joinsplit_data: Option<sprout::JoinSplitData>,
    },
    V4 {
        inputs: Vec<Input>,
        outputs: Vec<Output>,
        lock_time: LockTime,
        expiry_height: Height,
        joinsplit_data: Option<sprout::JoinSplitData>,
        sapling_shielded_data: Option<sapling::ShieldedData>,
    },
    V5 {
        network_upgrade: NetworkUpgrade,
        inputs: Vec<Input>,
        outputs: Vec<Output>,
        lock_time: LockTime,
        expiry_height: Height,
        sapling_shielded_data: Option<sapling::ShieldedData>,
        orchard_shielded_data: Option<orchard::ShieldedData>,
    },
}

impl Transaction {
    /// The format version number, `1` through `5`.
    pub open spec fn spec_version(&self) -> u32 {
        match *self {
            Transaction::V1 { .. } => 1,
            Transaction::V2 { .. } => 2,
            Transaction::V3 { .. } => 3,
            Transaction::V4 { .. } => 4,
            Transaction::V5 { .. } => 5,
        }
    }

    /// The format version number, `1` through `5`.
    pub fn version(&self) -> (r: u32)
        ensures
            r == self.spec_version(),
    {
        match self {
            Transaction::V1 { .. } => 1,
            Transaction::V2 { .. } => 2,
            Transaction::V3 { .. } => 3,
            Transaction::V4 { .. } => 4,
            Transaction::V5 { .. } => 5,
        }
    }

    /// The transparent inputs, in order.
    pub open spec fn spec_inputs(&self) -> Seq<Input> {
        match *self {
            Transaction::V1 { inputs, .. } => inputs@,
            Transaction::V2 { inputs, .. } => inputs@,
            Transaction::V3 { inputs, .. } => inputs@,
            Transaction::V4 { inputs, .. } => inputs@,
            Transaction::V5 { inputs, .. } => inputs@,
        }
    }

    /// The transparent inputs, in order.
    pub fn inputs(&self) -> (r: &Vec<Input>)
        ensures
            r@ == self.spec_inputs(),
    {
        match self {
            Transaction::V1 { inputs, .. } => inputs,
            Transaction::V2 { inputs, .. } => inputs,
            Transaction::V3 { inputs, .. } => inputs,
            Transaction::V4 { inputs, .. } => inputs,
            Transaction::V5 { inputs, .. } => inputs,
        }
    }

    /// The transparent outputs, in order.
    pub open spec fn spec_outputs(&self) -> Seq<Output> {
        match *self {
            Transaction::V1 { outputs, .. } => outputs@,
            Transaction::V2 { outputs, .. } => outputs@,
            Transaction::V3 { outputs, .. } => outputs@,
            Transaction::V4 { outputs, .. } => outputs@,
            Transaction::V5 { outputs, .. } => outputs@,
        }
    }

    /// The transparent outputs, in order.
    pub fn outputs(&self) -> (r: &Vec<Output>)
        ensures
            r@ == self.spec_outputs(),
    {
        match self {
            Transaction::V1 { outputs, .. } => outputs,
            Transaction::V2 { outputs, .. } => outputs,
            Transaction::V3 { outputs, .. } => outputs,
            Transaction::V4 { outputs, .. } => outputs,
            Transaction::V5 { outputs, .. } => outputs,
        }
    }

    /// The lock time.
    pub open spec fn spec_lock_time(&self) -> LockTime {
        match *self {
            Transaction::V1 { lock_time, .. } => lock_time,
            Transaction::V2 { lock_time, .. } => lock_time,
            Transaction::V3 { lock_time, .. } => lock_time,
            Transaction::V4 { lock_time, .. } => lock_time,
            Transaction::V5 { lock_time, .. } => lock_time,
        }
    }

    /// The expiry height, for the formats that carry one.
    pub open spec fn spec_expiry_height(&self) -> Option<Height> {
        match *self {
            Transaction::V1 { .. } => None,
            Transaction::V2 { .. } => None,
            Transaction::V3 { expiry_height, .. } => Some(expiry_height),
            Transaction::V4 { expiry_height, .. } => Some(expiry_height),
            Transaction::V5 { expiry_height, .. } => Some(expiry_height),
        }
    }

    /// The expiry height, for the formats that carry one.
    pub fn expiry_height(&self) -> (r: Option<Height>)
        ensures
            r == self.spec_expiry_height(),
    {
        match self {
            Transaction::V1 { .. } => None,
            Transaction::V2 { .. } => None,
            Transaction::V3 { expiry_height, .. } => Some(*expiry_height),
            Transaction::V4 { expiry_height, .. } => Some(*expiry_height),
            Transaction::V5 { expiry_height, .. } => Some(*expiry_height),
        }
    }

    /// Replaces the expiry height of a transaction whose format carries one.
    pub fn set_expiry_height(&mut self, new_height: Height)
        requires
            old(self).spec_expiry_height() is Some,
        ensures
            final(self).spec_expiry_height() == Some(new_height),
            final(self).spec_version() == old(self).spec_version(),
            final(self).spec_inputs() == old(self).spec_inputs(),
            final(self).spec_outputs() == old(self).spec_outputs(),
            final(self).spec_lock_time() == old(self).spec_lock_time(),
            final(self).spec_joinsplit_data() == old(self).spec_joinsplit_data(),
            final(self).spec_sapling_shielded_data() == old(self).spec_sapling_shielded_data(),
            final(self).spec_orchard_shielded_data() == old(self).spec_orchard_shielded_data(),
            final(self).spec_network_upgrade() == old(self).spec_network_upgrade(),
    {
        match self {
            Transaction::V1 { .. } => {
                proof {
                    assert(false);
                }
            },
            Transaction::V2 { .. } => {
                proof {
                    assert(false);
                }
            },
            Transaction::V3 { expiry_height, .. } => {
                *expiry_height = new_height;
            },
            Transaction::V4 { expiry_height, .. } => {
                *expiry_height = new_height;
            },
            Transaction::V5 { expiry_height, .. } => {
                *expiry_height = new_height;
            },
        }
    }

    /// The Sprout payload, for the formats that can carry one.
    pub open spec fn spec_joinsplit_data(&self) -> Option<sprout::JoinSplitData> {
        match *self {
            Transaction::V1 { .. } => None,
            Transaction::V2 { joinsplit_data, .. } => joinsplit_data,
            Transaction::V3 { joinsplit_data, .. } => joinsplit_data,
            Transaction::V4 { joinsplit_data, .. } => joinsplit_data,
            Transaction::V5 { .. } => None,
        }
    }

    /// The Sapling payload, for the formats that can carry one.
    pub open spec fn spec_sapling_shielded_data(&self) -> Option<sapling::ShieldedData> {
        match *self {
            Transaction::V1 { .. } => None,
            Transaction::V2 { .. } => None,
            Transaction::V3 { .. } => None,
            Transaction::V4 { sapling_shielded_data, .. } => sapling_shielded_data,
            Transaction::V5 { sapling_shielded_data, .. } => sapling_shielded_data,
        }
    }

    /// The Orchard payload, for the format that can carry one.
    pub open spec fn spec_orchard_shielded_data(&self) -> Option<orchard::ShieldedData> {
        match *self {
            Transaction::V5 { orchard_shielded_data, .. } => orchard_shielded_data,
            _ => None,
        }
    }

    /// The network upgrade a fifth-format transaction commits to.
    pub open spec fn spec_network_upgrade(&self) -> Option<NetworkUpgrade> {
        match *self {
            Transaction::V5 { network_upgrade, .. } => Some(network_upgrade),
            _ => None,
        }
    }

    /// Whether this transaction claims the block subsidy: exactly one input,
    /// and that input a coinbase input.
    pub open spec fn spec_is_coinbase(&self) -> bool {
        self.spec_inputs().len() == 1 && (self.spec_inputs()[0] matches Input::Coinbase { .. })
    }

    /// Whether this transaction claims the block subsidy.
    pub fn is_coinbase(&self) -> (r: bool)
        ensures
            r == self.spec_is_coinbase(),
    {
        let inputs = self.inputs();
        inputs.len() == 1 && match &inputs[0] {
            Input::Coinbase { .. } => true,
            Input::PrevOut { .. } => false,
        }
    }

    /// How many join-splits the transaction carries.
    pub open spec fn spec_joinsplit_count(&self) -> nat {
        match self.spec_joinsplit_data() {
            Some(data) => data.spec_count(),
            None => 0,
        }
    }

    /// How many join-splits the transaction carries.
    pub fn joinsplit_count(&self) -> (r: usize)
        requires
            self.spec_joinsplit_count() <= usize::MAX,
        ensures
            r == self.spec_joinsplit_count(),
    {
        match self {
            Transaction::V2 { joinsplit_data: Some(data), .. } => data.count(),
            Transaction::V3 { joinsplit_data: Some(data), .. } => data.count(),
            Transaction::V4 { joinsplit_data: Some(data), .. } => data.count(),
            _ => 0,
        }
    }

    /// The Sprout payload, for the formats that can carry one.
    pub fn joinsplit_data(&self) -> (r: Option<&sprout::JoinSplitData>)
        ensures
            (r is Some) == (self.spec_joinsplit_data() is Some),
            r matches Some(d) ==> *d == self.spec_joinsplit_data()->Some_0,
    {
        match self {
            Transaction::V2 { joinsplit_data: Some(d), .. } => Some(d),
            Transaction::V3 { joinsplit_data: Some(d), .. } => Some(d),
            Transaction::V4 { joinsplit_data: Some(d), .. } => Some(d),
            _ => None,
        }
    }

    /// Whether the transaction carries any join-splits at all.
    pub fn has_joinsplits(&self) -> (r: bool)
        ensures
            r == (self.spec_joinsplit_count() > 0),
    {
        match self {
            Transaction::V2 { joinsplit_data: Some(_), .. } => true,
            Transaction::V3 { joinsplit_data: Some(_), .. } => true,
            Transaction::V4 { joinsplit_data: Some(_), .. } => true,
            _ => false,
        }
    }

    /// The Sprout nullifiers revealed by the transaction, in order.
    pub open spec fn spec_sprout_nullifiers(&self) -> Seq<sprout::Nullifier> {
        match self.spec_joinsplit_data() {
            Some(data) => data.spec_nullifiers(),
            None => Seq::empty(),
        }
    }

    /// The Sprout nullifiers revealed by the transaction, in order.
    pub fn sprout_nullifiers(&self) -> (r: Vec<sprout::Nullifier>)
        ensures
            r@ == self.spec_sprout_nullifiers(),
    {
        match self {
            Transaction::V2 { joinsplit_data: Some(data), .. } => data.nullifiers(),
            Transaction::V3 { joinsplit_data: Some(data), .. } => data.nullifiers(),
            Transaction::V4 { joinsplit_data: Some(data), .. } => data.nullifiers(),
            _ => Vec::new(),
        }
    }

    /// How many Sapling spend descriptions the transaction carries.
    pub open spec fn spec_sapling_spends_count(&self) -> nat {
        match self.spec_sapling_shielded_data() {
            Some(data) => data.spec_spends().len(),
            None => 0,
        }
    }

    /// How many Sapling spend descriptions the transaction carries.
    pub fn sapling_spends_count(&self) -> (r: usize)
        ensures
            r == self.spec_sapling_spends_count(),
    {
        match self {
            Transaction::V4 { sapling_shielded_data: Some(data), .. } => data.spends_count(),
            Transaction::V5 { sapling_shielded_data: Some(data), .. } => data.spends_count(),
            _ => 0,
        }
    }

    /// How many Sapling output descriptions the transaction carries.
    pub open spec fn spec_sapling_outputs_count(&self) -> nat {
        match self.spec_sapling_shielded_data() {
            Some(data) => data.spec_outputs().len(),
            None => 0,
        }
    }

    /// How many Sapling output descriptions the transaction carries.
    pub fn sapling_outputs_count(&self) -> (r: usize)
        ensures
            r == self.spec_sapling_outputs_count(),
    {
        match self {
            Transaction::V4 { sapling_shielded_data: Some(data), .. } => data.outputs_count(),
            Transaction::V5 { sapling_shielded_data: Some(data), .. } => data.outputs_count(),
            _ => 0,
        }
    }

    /// The Sapling nullifiers revealed by the transaction, in order.
    pub open spec fn spec_sapling_nullifiers(&self) -> Seq<sapling::Nullifier> {
        match self.spec_sapling_shielded_data() {
            Some(data) => data.spec_nullifiers(),
            None => Seq::empty(),
        }
    }

    /// The Sapling nullifiers revealed by the transaction, in order.
    pub fn sapling_nullifiers(&self) -> (r: Vec<sapling::Nullifier>)
        ensures
            r@ == self.spec_sapling_nullifiers(),
    {
        match self {
            Transaction::V4 { sapling_shielded_data: Some(data), .. } => data.nullifiers(),
            Transaction::V5 { sapling_shielded_data: Some(data), .. } => data.nullifiers(),
            _ => Vec::new(),
        }
    }

    /// The sizes of the Sapling payload, when one is present: how many
    /// spend descriptions and how many output descriptions it carries.
    pub fn sapling_shielded_data_counts(&self) -> (r: Option<(usize, usize)>)
        ensures
            (r is Some) == (self.spec_sapling_shielded_data() is Some),
            r matches Some(c) ==> c.0 == self.spec_sapling_shielded_data()->Some_0.spec_spends().len()
                && c.1 == self.spec_sapling_shielded_data()->Some_0.spec_outputs().len(),
    {
        match self {
            Transaction::V4 { sapling_shielded_data: Some(d), .. } => Some(
                (d.spends_count(), d.outputs_count()),
            ),
            Transaction::V5 { sapling_shielded_data: Some(d), .. } => Some(
                (d.spends_count(), d.outputs_count()),
            ),
            _ => None,
        }
    }

    /// The size of the Orchard payload, when one is present: how many
    /// actions it carries.
    pub fn orchard_actions_count_if_present(&self) -> (r: Option<usize>)
        ensures
            (r is Some) == (self.spec_orchard_shielded_data() is Some),
            r matches Some(c) ==> c == self.spec_orchard_shielded_data()->Some_0.actions@.len(),
    {
        match self {
            Transaction::V5 { orchard_shielded_data: Some(d), .. } => Some(d.actions_count()),
            _ => None,
        }
    }

    /// How many Orchard actions the transaction carries.
    pub open spec fn spec_orchard_actions_count(&self) -> nat {
        match self.spec_orchard_shielded_data() {
            Some(data) => data.actions@.len(),
            None => 0,
        }
    }

    /// How many Orchard actions the transaction carries.
    pub fn orchard_actions_count(&self) -> (r: usize)
        ensures
            r == self.spec_orchard_actions_count(),
    {
        match self {
            Transaction::V5 { orchard_shielded_data: Some(data), .. } => data.actions_count(),
            _ => 0,
        }
    }

    /// The Orchard nullifiers revealed by the transaction, in order.
    pub open spec fn spec_orchard_nullifiers(&self) -> Seq<orchard::Nullifier> {
        match self.spec_orchard_shielded_data() {
            Some(data) => data.spec_nullifiers(),
            None => Seq::empty(),
        }
    }

    /// The Orchard nullifiers revealed by the transaction, in order.
    pub fn orchard_nullifiers(&self) -> (r: Vec<orchard::Nullifier>)
        ensures
            r@ == self.spec_orchard_nullifiers(),
    {
        match self {
            Transaction::V5 { orchard_shielded_data: Some(data), .. } => data.nullifiers(),
            _ => Vec::new(),
        }
    }

    /// The Orchard flag set, when an Orchard payload is present.
    pub open spec fn spec_orchard_flags(&self) -> Option<orchard::Flags> {
        match self.spec_orchard_shielded_data() {
            Some(data) => Some(data.flags),
            None => None,
        }
    }

    /// The Orchard flag set, when an Orchard payload is present.
    pub fn orchard_flags(&self) -> (r: Option<orchard::Flags>)
        ensures
            r == self.spec_orchard_flags(),
    {
        match self {
            Transaction::V5 { orchard_shielded_data: Some(data), .. } => Some(data.flags),
            _ => None,
        }
    }

    /// The transparent value flowing into the Sprout pool: each join-split's
    /// `vpub_old`, in order.
    pub open spec fn spec_output_values_to_sprout(&self) -> Seq<Amount<NonNegative>> {
        match self.spec_joinsplit_data() {
            Some(data) => data.spec_vpub_olds(),
            None => Seq::empty(),
        }
    }

    /// The transparent value flowing into the Sprout pool: each join-split's
    /// `vpub_old`, in order.
    pub fn output_values_to_sprout(&self) -> (r: Vec<Amount<NonNegative>>)
        ensures
            r@ == self.spec_output_values_to_sprout(),
    {
        match self {
            Transaction::V2 { joinsplit_data: Some(data), .. } => data.vpub_olds(),
            Transaction::V3 { joinsplit_data: Some(data), .. } => data.vpub_olds(),
            Transaction::V4 { joinsplit_data: Some(data), .. } => data.vpub_olds(),
            _ => Vec::new(),
        }
    }

    /// The outpoints spent by the transaction's transparent inputs, in input
    /// order; coinbase inputs spend none.
    pub open spec fn spec_spent_outpoints(&self) -> Seq<OutPoint> {
        spec_outpoints_of(self.spec_inputs())
    }

    /// The outpoints spent by the transaction's transparent inputs, in input
    /// order; coinbase inputs spend none.
    pub fn spent_outpoints(&self) -> (r: Vec<OutPoint>)
        ensures
            r@ == self.spec_spent_outpoints(),
    {
        let inputs = self.inputs();
        let ghost all = inputs@;
        let mut r: Vec<OutPoint> = Vec::new();
        let n = inputs.len();
        let mut i: usize = 0;
        proof {
            assert(all.take(0) =~= Seq::<Input>::empty());
        }
        while i < n
            invariant
                n == inputs@.len(),
                inputs@ == all,
                all == self.spec_inputs(),
                i <= n,
                r@ == spec_outpoints_of(all.take(i as int)),
            decreases n - i,
        {
            match &inputs[i] {
                Input::PrevOut { outpoint, .. } => {
                    r.push(*outpoint);
                },
                Input::Coinbase { .. } => {},
            }
            proof {
                assert(all.take(i + 1 as int).drop_last() =~= all.take(i as int));
                assert(all.take(i + 1 as int).last() == all[i as int]);
            }
            i = i + 1;
        }
        proof {
            assert(all.take(n as int) =~= all);
        }
        r
    }
}

/// The outpoints named by a run of inputs, in order, skipping coinbase
/// inputs.
pub open spec fn spec_outpoints_of(inputs: Seq<Input>) -> Seq<OutPoint>
    decreases inputs.len(),
{
    if inputs.len() == 0 {
        Seq::empty()
    } else {
        let rest = spec_outpoints_of(inputs.drop_last());
        match inputs.last() {
            Input::PrevOut { outpoint, .. } => rest.push(outpoint),
            Input::Coinbase { .. } => rest,
        }
    }
}

} // verus!
