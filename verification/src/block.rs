//! Block heights and their bounded arithmetic.

use vstd::prelude::*;

verus! {

/// The largest block height the protocol ever reaches.
pub const MAX_BLOCK_HEIGHT: u32 = 499_999_999;

/// The largest expiry height a non-coinbase transaction may carry.
pub const MAX_EXPIRY_HEIGHT: u32 = 499_999_999;

/// The position of a block in the chain, counted from the genesis block.
#[derive(Clone, Copy, Debug, PartialEq, Eq, PartialOrd, Ord, Hash, Structural)]
pub struct Height(pub u32);

impl Height {
    /// Whether this height is one the chain can actually reach.
    pub open spec fn wf(&self) -> bool {
        self.0 <= MAX_BLOCK_HEIGHT
    }

    /// The largest reachable height.
    pub fn max_height() -> (h: Height)
        ensures
            h.0 == MAX_BLOCK_HEIGHT,
    {
        Height(MAX_BLOCK_HEIGHT)
    }

    /// Moves `n` blocks forward, failing when the result would pass the
    /// largest reachable height.
    pub fn checked_add(self, n: u32) -> (r: Option<Height>)
        ensures
            self.0 + n <= MAX_BLOCK_HEIGHT ==> r == Some(Height((self.0 + n) as u32)),
            self.0 + n > MAX_BLOCK_HEIGHT ==> r == None::<Height>,
    {
        if n <= MAX_BLOCK_HEIGHT && self.0 <= MAX_BLOCK_HEIGHT - n {
            Some(Height(self.0 + n))
        } else {
            None
        }
    }

    /// Moves `n` blocks back, failing when the result would fall below the
    /// genesis height.
    pub fn checked_sub(self, n: u32) -> (r: Option<Height>)
        ensures
            self.0 >= n ==> r == Some(Height((self.0 - n) as u32)),
            self.0 < n ==> r == None::<Height>,
    {
        if self.0 >= n {
            Some(Height(self.0 - n))
        } else {
            None
        }
    }
}

} // verus!
