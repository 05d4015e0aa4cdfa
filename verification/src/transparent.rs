//! Transparent inputs, outputs, and unspent-output records.

use vstd::prelude::*;

use crate::amount::{Amount, NonNegative};
use crate::block::Height;
use crate::bytes::bytes_eq;

verus! {

/// A locking or unlocking condition, as an opaque byte program.
#[derive(Clone, Debug, PartialEq, Eq)]
pub struct Script(pub Vec<u8>);

impl Script {
    /// Copies `bytes` into a fresh script.
    pub fn new(bytes: &[u8]) -> (r: Script)
        ensures
            r.0@ == bytes@,
    {
        Script(crate::bytes::copy_bytes(bytes))
    }
}

/// The extra byte payload a coinbase input carries.
#[derive(Clone, Debug, PartialEq, Eq)]
pub struct CoinbaseData(pub Vec<u8>);

impl CoinbaseData {
    /// Wraps `bytes` as coinbase data.
    pub fn new(bytes: Vec<u8>) -> (r: CoinbaseData)
        ensures
            r.0@ == bytes@,
    {
        CoinbaseData(bytes)
    }
}

/// The unique reference to a transparent unspent output: the identifier of
/// the transaction that created it and the index of the output inside it.
#[derive(Clone, Copy, Debug, PartialEq, Eq, Hash)]
pub struct OutPoint {
    pub hash: crate::hash::Hash,
    pub index: u32,
}

impl OutPoint {
    /// Compares two outpoints for equality of their contents.
    pub fn eq_outpoint(&self, other: &OutPoint) -> (r: bool)
        ensures
            r == (*self == *other),
    {
        let same = bytes_eq(self.hash.0.as_slice(), other.hash.0.as_slice()) && self.index
            == other.index;
        proof {
            if self.hash.0@ == other.hash.0@ {
                assert(self.hash.0 =~= other.hash.0);
            }
        }
        same
    }
}

/// A source of transparent value: either the spend of a previous output, or
/// the block subsidy claimed by a coinbase transaction.
#[derive(Clone, Debug, PartialEq, Eq)]
pub enum Input {
    PrevOut { outpoint: OutPoint, unlock_script: Script, sequence: u32 },
    Coinbase { height: Height, data: CoinbaseData, sequence: u32 },
}

impl Input {
    /// The outpoint this input spends, if it spends one.
    pub open spec fn spec_outpoint(&self) -> Option<OutPoint> {
        match *self {
            Input::PrevOut { outpoint, .. } => Some(outpoint),
            Input::Coinbase { .. } => None,
        }
    }

    /// The outpoint this input spends, if it spends one.
    pub fn outpoint(&self) -> (r: Option<OutPoint>)
        ensures
            r == self.spec_outpoint(),
    {
        match self {
            Input::PrevOut { outpoint, .. } => Some(*outpoint),
            Input::Coinbase { .. } => None,
        }
    }
}

/// A destination of transparent value: an amount locked by a script.
#[derive(Clone, Debug, PartialEq, Eq)]
pub struct Output {
    pub value: Amount<NonNegative>,
    pub lock_script: Script,
}

/// An unspent transparent output together with where it was created, which
/// the coinbase-maturity rules need.
#[derive(Clone, Debug, PartialEq, Eq)]
pub struct Utxo {
    pub output: Output,
    pub height: Height,
    pub from_coinbase: bool,
}

/// A [`Utxo`] that also remembers the position of its creating transaction
/// inside its block.
#[derive(Clone, Debug, PartialEq, Eq)]
pub struct OrderedUtxo {
    pub utxo: Utxo,
    pub tx_index_in_block: usize,
}

impl OrderedUtxo {
    /// Wraps a non-coinbase `output` created at `height` by the transaction
    /// at `tx_index_in_block` in its block.
    pub fn new(output: Output, height: Height, tx_index_in_block: usize) -> (r: OrderedUtxo)
        ensures
            r.utxo.output == output,
            r.utxo.height == height,
            !r.utxo.from_coinbase,
            r.tx_index_in_block == tx_index_in_block,
    {
        OrderedUtxo { utxo: Utxo { output, height, from_coinbase: false }, tx_index_in_block }
    }
}

} // verus!
