//! Networks, network upgrades, and their activation heights.
//!
//! The activation table is consensus-critical: the heights below are the
//! published protocol values for the main and test networks.

use vstd::prelude::*;

use crate::block::Height;

verus! {

/// The chain instance a transaction is validated against.
#[derive(Clone, Copy, Debug, PartialEq, Eq, Structural)]
pub enum Network {
    Mainnet,
    Testnet,
}

/// A named, height-activated change to the consensus rules, in activation
/// order.
#[derive(Clone, Copy, Debug, PartialEq, Eq, Structural)]
pub enum NetworkUpgrade {
    Genesis,
    BeforeOverwinter,
    Overwinter,
    Sapling,
    Blossom,
    Heartwood,
    Canopy,
    Nu5,
}

impl NetworkUpgrade {
    /// The height at which this upgrade takes effect on `network`.
    pub open spec fn spec_activation_height(self, network: Network) -> u32 {
        match network {
            Network::Mainnet => match self {
                NetworkUpgrade::Genesis => 0,
                NetworkUpgrade::BeforeOverwinter => 1,
                NetworkUpgrade::Overwinter => 347_500,
                NetworkUpgrade::Sapling => 419_200,
                NetworkUpgrade::Blossom => 653_600,
                NetworkUpgrade::Heartwood => 903_000,
                NetworkUpgrade::Canopy => 1_046_400,
                NetworkUpgrade::Nu5 => 1_687_104,
            },
            Network::Testnet => match self {
                NetworkUpgrade::Genesis => 0,
                NetworkUpgrade::BeforeOverwinter => 1,
                NetworkUpgrade::Overwinter => 207_500,
                NetworkUpgrade::Sapling => 280_000,
                NetworkUpgrade::Blossom => 584_000,
                NetworkUpgrade::Heartwood => 903_800,
                NetworkUpgrade::Canopy => 1_028_500,
                NetworkUpgrade::Nu5 => 1_842_420,
            },
        }
    }

    /// The height at which this upgrade takes effect on `network`.
    pub fn activation_height(self, network: Network) -> (h: Height)
        ensures
            h == Height(self.spec_activation_height(network)),
            h.wf(),
    {
        match network {
            Network::Mainnet => match self {
                NetworkUpgrade::Genesis => Height(0),
                NetworkUpgrade::BeforeOverwinter => Height(1),
                NetworkUpgrade::Overwinter => Height(347_500),
                NetworkUpgrade::Sapling => Height(419_200),
                NetworkUpgrade::Blossom => Height(653_600),
                NetworkUpgrade::Heartwood => Height(903_000),
                NetworkUpgrade::Canopy => Height(1_046_400),
                NetworkUpgrade::Nu5 => Height(1_687_104),
            },
            Network::Testnet => match self {
                NetworkUpgrade::Genesis => Height(0),
                NetworkUpgrade::BeforeOverwinter => Height(1),
                NetworkUpgrade::Overwinter => Height(207_500),
                NetworkUpgrade::Sapling => Height(280_000),
                NetworkUpgrade::Blossom => Height(584_000),
                NetworkUpgrade::Heartwood => Height(903_800),
                NetworkUpgrade::Canopy => Height(1_028_500),
                NetworkUpgrade::Nu5 => Height(1_842_420),
            },
        }
    }

    /// Whether this upgrade has taken effect at `height` on `network`.
    pub open spec fn spec_is_active_at(self, network: Network, height: Height) -> bool {
        height.0 >= self.spec_activation_height(network)
    }

    /// Whether this upgrade has taken effect at `height` on `network`.
    pub fn is_active_at(self, network: Network, height: Height) -> (r: bool)
        ensures
            r == self.spec_is_active_at(network, height),
    {
        let activation = self.activation_height(network);
        height.0 >= activation.0
    }

    /// The newest upgrade that has taken effect at `height` on `network`.
    pub open spec fn spec_current(network: Network, height: Height) -> NetworkUpgrade {
        if NetworkUpgrade::Nu5.spec_is_active_at(network, height) {
            NetworkUpgrade::Nu5
        } else if NetworkUpgrade::Canopy.spec_is_active_at(network, height) {
            NetworkUpgrade::Canopy
        } else if NetworkUpgrade::Heartwood.spec_is_active_at(network, height) {
            NetworkUpgrade::Heartwood
        } else if NetworkUpgrade::Blossom.spec_is_active_at(network, height) {
            NetworkUpgrade::Blossom
        } else if NetworkUpgrade::Sapling.spec_is_active_at(network, height) {
            NetworkUpgrade::Sapling
        } else if NetworkUpgrade::Overwinter.spec_is_active_at(network, height) {
            NetworkUpgrade::Overwinter
        } else if NetworkUpgrade::BeforeOverwinter.spec_is_active_at(network, height) {
            NetworkUpgrade::BeforeOverwinter
        } else {
            NetworkUpgrade::Genesis
        }
    }

    /// The newest upgrade that has taken effect at `height` on `network`.
    pub fn current(network: Network, height: Height) -> (r: NetworkUpgrade)
        ensures
            r == NetworkUpgrade::spec_current(network, height),
    {
        if NetworkUpgrade::Nu5.is_active_at(network, height) {
            NetworkUpgrade::Nu5
        } else if NetworkUpgrade::Canopy.is_active_at(network, height) {
            NetworkUpgrade::Canopy
        } else if NetworkUpgrade::Heartwood.is_active_at(network, height) {
            NetworkUpgrade::Heartwood
        } else if NetworkUpgrade::Blossom.is_active_at(network, height) {
            NetworkUpgrade::Blossom
        } else if NetworkUpgrade::Sapling.is_active_at(network, height) {
            NetworkUpgrade::Sapling
        } else if NetworkUpgrade::Overwinter.is_active_at(network, height) {
            NetworkUpgrade::Overwinter
        } else if NetworkUpgrade::BeforeOverwinter.is_active_at(network, height) {
            NetworkUpgrade::BeforeOverwinter
        } else {
            NetworkUpgrade::Genesis
        }
    }
}

/// The network upgrade that first made each transaction version legal.
pub open spec fn spec_defining_upgrade(version: u32) -> Option<NetworkUpgrade> {
    if version == 1 || version == 2 {
        Some(NetworkUpgrade::Genesis)
    } else if version == 3 {
        Some(NetworkUpgrade::Overwinter)
    } else if version == 4 {
        Some(NetworkUpgrade::Sapling)
    } else if version == 5 {
        Some(NetworkUpgrade::Nu5)
    } else {
        None
    }
}

/// The network upgrade that first made transaction `version` legal, or
/// `None` for a version no upgrade has defined.
pub fn defining_upgrade(version: u32) -> (r: Option<NetworkUpgrade>)
    ensures
        r == spec_defining_upgrade(version),
{
    if version == 1 || version == 2 {
        Some(NetworkUpgrade::Genesis)
    } else if version == 3 {
        Some(NetworkUpgrade::Overwinter)
    } else if version == 4 {
        Some(NetworkUpgrade::Sapling)
    } else if version == 5 {
        Some(NetworkUpgrade::Nu5)
    } else {
        None
    }
}

} // verus!
