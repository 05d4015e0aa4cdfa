//! The Sprout shielded pool: join-splits and their aggregate signature.

use vstd::prelude::*;

use crate::amount::{Amount, NonNegative};
use crate::bytes::bytes_eq;
use crate::primitives::{Ed25519Signature, Ed25519VerificationKeyBytes, Groth16Proof};

verus! {

broadcast use vstd::array::group_array_axioms;

/// A one-time value marking a Sprout note as spent.
#[derive(Clone, Copy, Debug, PartialEq, Eq, Hash)]
pub struct Nullifier(pub [u8; 32]);

impl Nullifier {
    /// Compares two nullifiers for equality of their contents.
    pub fn eq_nullifier(&self, other: &Nullifier) -> (r: bool)
        ensures
            r == (*self == *other),
    {
        let same = bytes_eq(self.0.as_slice(), other.0.as_slice());
        proof {
            if self.0@ == other.0@ {
                assert(self.0 =~= other.0);
            }
        }
        same
    }
}

/// The commitment to a newly created Sprout note.
#[derive(Clone, Copy, Debug, PartialEq, Eq)]
pub struct NoteCommitment(pub [u8; 32]);

/// The seed that randomized a join-split's outputs.
#[derive(Clone, Copy, Debug, PartialEq, Eq)]
pub struct RandomSeed(pub [u8; 32]);

/// A message-authentication tag binding a join-split to its signature key.
#[derive(Clone, Copy, Debug, PartialEq, Eq)]
pub struct Mac(pub [u8; 32]);

/// The ciphertext of one output note of a join-split.
#[derive(Clone, Copy, Debug, PartialEq, Eq)]
pub struct EncryptedNote(pub [u8; 601]);

/// One atomic Sprout transfer: two notes spent, two created, with value
/// moving in (`vpub_old`) or out (`vpub_new`) of the transparent pool.
#[derive(Clone, Copy, Debug, PartialEq, Eq)]
pub struct JoinSplit {
    pub vpub_old: Amount<NonNegative>,
    pub vpub_new: Amount<NonNegative>,
    pub anchor: [u8; 32],
    pub nullifiers: [Nullifier; 2],
    pub commitments: [NoteCommitment; 2],
    pub ephemeral_key: [u8; 32],
    pub random_seed: RandomSeed,
    pub vmacs: [Mac; 2],
    pub zkproof: Groth16Proof,
    pub enc_ciphertexts: [EncryptedNote; 2],
}

/// All join-splits of a transaction together with the one aggregate
/// signature covering them; there is always at least one join-split.
#[derive(Clone, Debug, PartialEq, Eq)]
pub struct JoinSplitData {
    pub first: JoinSplit,
    pub rest: Vec<JoinSplit>,
    pub pub_key: Ed25519VerificationKeyBytes,
    pub sig: Ed25519Signature,
}

/// The nullifiers of a run of join-splits, in order: two per join-split.
pub open spec fn spec_nullifiers_of(js: Seq<JoinSplit>) -> Seq<Nullifier>
    decreases js.len(),
{
    if js.len() == 0 {
        Seq::empty()
    } else {
        spec_nullifiers_of(js.drop_last()) + seq![
            js.last().nullifiers@[0],
            js.last().nullifiers@[1],
        ]
    }
}

impl JoinSplitData {
    /// All join-splits, first to last.
    pub open spec fn spec_joinsplits(&self) -> Seq<JoinSplit> {
        seq![self.first] + self.rest@
    }

    /// How many join-splits there are; always at least one.
    pub open spec fn spec_count(&self) -> nat {
        self.spec_joinsplits().len()
    }

    /// How many join-splits there are; always at least one.
    pub fn count(&self) -> (r: usize)
        requires
            self.rest@.len() < usize::MAX,
        ensures
            r == self.spec_count(),
    {
        1 + self.rest.len()
    }

    /// The nullifiers of every join-split, in order.
    pub open spec fn spec_nullifiers(&self) -> Seq<Nullifier> {
        spec_nullifiers_of(self.spec_joinsplits())
    }

    /// The nullifiers of every join-split, in order.
    pub fn nullifiers(&self) -> (r: Vec<Nullifier>)
        ensures
            r@ == self.spec_nullifiers(),
    {
        let ghost all = self.spec_joinsplits();
        let mut r: Vec<Nullifier> = Vec::new();
        r.push(self.first.nullifiers[0]);
        r.push(self.first.nullifiers[1]);
        proof {
            assert(spec_nullifiers_of(Seq::<JoinSplit>::empty()) =~= Seq::<Nullifier>::empty());
            assert(all.take(1).drop_last() =~= Seq::<JoinSplit>::empty());
            assert(all.take(1).last() == self.first);
            assert(r@ =~= spec_nullifiers_of(all.take(1)));
        }
        let n = self.rest.len();
        let mut i: usize = 0;
        while i < n
            invariant
                n == self.rest@.len(),
                i <= n,
                all == self.spec_joinsplits(),
                all.len() == 1 + n,
                r@ == spec_nullifiers_of(all.take(1 + i)),
            decreases n - i,
        {
            let js = &self.rest[i];
            r.push(js.nullifiers[0]);
            r.push(js.nullifiers[1]);
            proof {
                assert(all.take(2 + i).drop_last() =~= all.take(1 + i));
                assert(all.take(2 + i).last() == self.rest@[i as int]);
                assert(r@ =~= spec_nullifiers_of(all.take(2 + i)));
            }
            i = i + 1;
        }
        proof {
            assert(all.take(1 + n) =~= all);
        }
        r
    }

    /// The transparent value flowing into the pool, one amount per
    /// join-split, in order.
    pub open spec fn spec_vpub_olds(&self) -> Seq<Amount<NonNegative>> {
        Seq::new(self.spec_joinsplits().len(), |i: int| self.spec_joinsplits()[i].vpub_old)
    }

    /// The transparent value flowing into the pool, one amount per
    /// join-split, in order.
    pub fn vpub_olds(&self) -> (r: Vec<Amount<NonNegative>>)
        ensures
            r@ == self.spec_vpub_olds(),
    {
        let ghost all = self.spec_joinsplits();
        let mut r: Vec<Amount<NonNegative>> = Vec::new();
        r.push(self.first.vpub_old);
        let n = self.rest.len();
        let mut i: usize = 0;
        while i < n
            invariant
                n == self.rest@.len(),
                i <= n,
                all == self.spec_joinsplits(),
                all.len() == 1 + n,
                r@.len() == 1 + i,
                forall|k: int| 0 <= k < 1 + i ==> r@[k] == all[k].vpub_old,
            decreases n - i,
        {
            r.push(self.rest[i].vpub_old);
            i = i + 1;
        }
        proof {
            assert(r@ =~= self.spec_vpub_olds());
        }
        r
    }
}

} // verus!
