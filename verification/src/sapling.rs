//! The Sapling shielded pool: spend and output descriptions.

use vstd::prelude::*;

use crate::bytes::bytes_eq;
use crate::primitives::{Groth16Proof, RedJubjubSignature};

verus! {

broadcast use vstd::array::group_array_axioms;

/// A one-time value marking a Sapling note as spent.
#[derive(Clone, Copy, Debug, PartialEq, Eq, Hash)]
pub struct Nullifier(pub [u8; 32]);

impl Nullifier {
    /// Compares two nullifiers for equality of their contents.
    pub fn eq_nullifier(&self, other: &Nullifier) -> (r: bool)
        ensures
            r == (*self == *other),
    {
        let same = bytes_eq(self.0.as_slice(), other.0.as_slice());
        proof {
            if self.0@ == other.0@ {
                assert(self.0 =~= other.0);
            }
        }
        same
    }
}

/// A spend of one Sapling note: the value commitment, an anchor naming the
/// note-commitment-tree state spent against, the note's nullifier, the
/// randomized verification key, the zero-knowledge spend proof, and the
/// signature authorizing this spend.
#[derive(Clone, Copy, Debug, PartialEq, Eq)]
pub struct SpendDescription {
    pub cv: [u8; 32],
    pub anchor: [u8; 32],
    pub nullifier: Nullifier,
    pub rk: [u8; 32],
    pub zkproof: Groth16Proof,
    pub spend_auth_sig: RedJubjubSignature,
}

/// The creation of one Sapling note: the value and note commitments, the
/// ephemeral key, both ciphertext components, and the output proof.
#[derive(Clone, Copy, Debug, PartialEq, Eq)]
pub struct OutputDescription {
    pub cv: [u8; 32],
    pub cmu: [u8; 32],
    pub ephemeral_key: [u8; 32],
    pub enc_ciphertext: [u8; 580],
    pub out_ciphertext: [u8; 80],
    pub zkproof: Groth16Proof,
}

/// The transfers a Sapling payload can carry: either at least one spend with
/// any number of outputs, or at least one output and no spends.
#[derive(Clone, Debug, PartialEq, Eq)]
pub enum TransferData {
    SpendsAndMaybeOutputs { spends: Vec<SpendDescription>, maybe_outputs: Vec<OutputDescription> },
    JustOutputs { outputs: Vec<OutputDescription> },
}

/// A transaction's whole Sapling payload: its transfers and the one binding
/// signature aggregating all of them.
#[derive(Clone, Debug, PartialEq, Eq)]
pub struct ShieldedData {
    pub transfers: TransferData,
    pub binding_sig: RedJubjubSignature,
}

/// The nullifiers of a run of spends, in order.
pub open spec fn spec_nullifiers_of_spends(s: Seq<SpendDescription>) -> Seq<Nullifier> {
    Seq::new(s.len(), |i: int| s[i].nullifier)
}

impl ShieldedData {
    /// Whichever side the transfers carry must be non-empty.
    pub open spec fn wf(&self) -> bool {
        match self.transfers {
            TransferData::SpendsAndMaybeOutputs { spends, .. } => spends@.len() > 0,
            TransferData::JustOutputs { outputs } => outputs@.len() > 0,
        }
    }

    /// All spend descriptions, in order; empty when the payload only creates
    /// notes.
    pub open spec fn spec_spends(&self) -> Seq<SpendDescription> {
        match self.transfers {
            TransferData::SpendsAndMaybeOutputs { spends, .. } => spends@,
            TransferData::JustOutputs { .. } => Seq::empty(),
        }
    }

    /// All output descriptions, in order.
    pub open spec fn spec_outputs(&self) -> Seq<OutputDescription> {
        match self.transfers {
            TransferData::SpendsAndMaybeOutputs { maybe_outputs, .. } => maybe_outputs@,
            TransferData::JustOutputs { outputs } => outputs@,
        }
    }

    /// How many spend descriptions there are.
    pub fn spends_count(&self) -> (r: usize)
        ensures
            r == self.spec_spends().len(),
    {
        match &self.transfers {
            TransferData::SpendsAndMaybeOutputs { spends, .. } => spends.len(),
            TransferData::JustOutputs { .. } => 0,
        }
    }

    /// How many output descriptions there are.
    pub fn outputs_count(&self) -> (r: usize)
        ensures
            r == self.spec_outputs().len(),
    {
        match &self.transfers {
            TransferData::SpendsAndMaybeOutputs { maybe_outputs, .. } => maybe_outputs.len(),
            TransferData::JustOutputs { outputs } => outputs.len(),
        }
    }

    /// The nullifier of every spend, in order.
    pub open spec fn spec_nullifiers(&self) -> Seq<Nullifier> {
        spec_nullifiers_of_spends(self.spec_spends())
    }

    /// The nullifier of every spend, in order.
    pub fn nullifiers(&self) -> (r: Vec<Nullifier>)
        ensures
            r@ == self.spec_nullifiers(),
    {
        let ghost all = self.spec_spends();
        let mut r: Vec<Nullifier> = Vec::new();
        match &self.transfers {
            TransferData::SpendsAndMaybeOutputs { spends, .. } => {
                let n = spends.len();
                let mut i: usize = 0;
                while i < n
                    invariant
                        n == spends@.len(),
                        i <= n,
                        r@.len() == i,
                        forall|k: int| 0 <= k < i ==> r@[k] == spends@[k].nullifier,
                    decreases n - i,
                {
                    r.push(spends[i].nullifier);
                    i = i + 1;
                }
            },
            TransferData::JustOutputs { .. } => {},
        }
        proof {
            assert(r@ =~= self.spec_nullifiers());
        }
        r
    }
}

} // verus!
