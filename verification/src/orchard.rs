//! The Orchard shielded pool: actions, flags, and their signatures.

use vstd::prelude::*;

use crate::bytes::bytes_eq;
use crate::primitives::{Halo2Proof, RedPallasSignature};

verus! {

broadcast use vstd::array::group_array_axioms;

/// A one-time value marking an Orchard note as spent.
#[derive(Clone, Copy, Debug, PartialEq, Eq, Hash)]
pub struct Nullifier(pub [u8; 32]);

impl Nullifier {
    /// Compares two nullifiers for equality of their contents.
    pub fn eq_nullifier(&self, other: &Nullifier) -> (r: bool)
        ensures
            r == (*self == *other),
    {
        let same = bytes_eq(self.0.as_slice(), other.0.as_slice());
        proof {
            if self.0@ == other.0@ {
                assert(self.0 =~= other.0);
            }
        }
        same
    }
}

/// The per-payload switches deciding whether Orchard actions may consume
/// notes, create notes, or both.
#[derive(Clone, Copy, Debug, PartialEq, Eq, Structural)]
pub struct Flags {
    pub enable_spends: bool,
    pub enable_outputs: bool,
}

impl Flags {
    /// No capability enabled.
    pub fn empty() -> (r: Flags)
        ensures
            !r.enable_spends,
            !r.enable_outputs,
    {
        Flags { enable_spends: false, enable_outputs: false }
    }
}

/// One atomic Orchard transfer, spending one note and creating one note.
#[derive(Clone, Copy, Debug, PartialEq, Eq)]
pub struct Action {
    pub cv: [u8; 32],
    pub nullifier: Nullifier,
    pub rk: [u8; 32],
    pub cm_x: [u8; 32],
    pub ephemeral_key: [u8; 32],
    pub enc_ciphertext: [u8; 580],
    pub out_ciphertext: [u8; 80],
}

/// An [`Action`] together with the signature authorizing its spend half.
#[derive(Clone, Copy, Debug, PartialEq, Eq)]
pub struct AuthorizedAction {
    pub action: Action,
    pub spend_auth_sig: RedPallasSignature,
}

impl AuthorizedAction {
    /// Pairs an action with the signature that authorizes it.
    pub fn from_parts(action: Action, spend_auth_sig: RedPallasSignature) -> (r: AuthorizedAction)
        ensures
            r.action == action,
            r.spend_auth_sig == spend_auth_sig,
    {
        AuthorizedAction { action, spend_auth_sig }
    }
}

/// A transaction's whole Orchard payload: the flag set, a never-empty list
/// of actions, the aggregate proof, and the one binding signature.
#[derive(Clone, Debug, PartialEq, Eq)]
pub struct ShieldedData {
    pub flags: Flags,
    pub shared_anchor: [u8; 32],
    pub proof: Halo2Proof,
    pub actions: Vec<AuthorizedAction>,
    pub binding_sig: RedPallasSignature,
}

/// The nullifiers of a run of actions, in order.
pub open spec fn spec_nullifiers_of_actions(s: Seq<AuthorizedAction>) -> Seq<Nullifier> {
    Seq::new(s.len(), |i: int| s[i].action.nullifier)
}

impl ShieldedData {
    /// An Orchard payload always carries at least one action.
    pub open spec fn wf(&self) -> bool {
        self.actions@.len() > 0
    }

    /// How many actions there are.
    pub fn actions_count(&self) -> (r: usize)
        ensures
            r == self.actions@.len(),
    {
        self.actions.len()
    }

    /// The nullifier of every action, in order.
    pub open spec fn spec_nullifiers(&self) -> Seq<Nullifier> {
        spec_nullifiers_of_actions(self.actions@)
    }

    /// The nullifier of every action, in order.
    pub fn nullifiers(&self) -> (r: Vec<Nullifier>)
        ensures
            r@ == self.spec_nullifiers(),
    {
        let mut r: Vec<Nullifier> = Vec::new();
        let n = self.actions.len();
        let mut i: usize = 0;
        while i < n
            invariant
                n == self.actions@.len(),
                i <= n,
                r@.len() == i,
                forall|k: int| 0 <= k < i ==> r@[k] == self.actions@[k].action.nullifier,
            decreases n - i,
        {
            r.push(self.actions[i].action.nullifier);
            i = i + 1;
        }
        proof {
            assert(r@ =~= self.spec_nullifiers());
        }
        r
    }
}

} // verus!
