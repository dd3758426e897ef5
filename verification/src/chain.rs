//! The protocol configuration the node runs with.

use vstd::prelude::*;
use alloy_genesis::Genesis;
use revm::primitives::hardfork::SpecId;
use crate::hardfork::{enabled_in, is_enabled_in, spec_ordinal};
use crate::registry::TARGET_SPEC;

verus! {

/// `alloy-genesis`'s description of the genesis block and the initial state.
#[verifier::external_type_specification]
#[verifier::external_body]
pub struct ExGenesis(Genesis);

/// Calls `Genesis::default`, the genesis description with every field at
/// its default. Nothing is claimed of its content.
#[verifier::external_body]
fn default_genesis() -> (genesis: Genesis) {
    Genesis::default()
}

/// Chain id of the main network.
pub const MAINNET_CHAIN_ID: u64 = 1;

/// An immutable description of the network: its identity, its initial state,
/// and the newest upgrade in force. Upgrades are cumulative and all are in
/// force from genesis: every upgrade up to and including `latest_upgrade` is
/// active in every block.
pub struct ChainConfig {
    /// Chain id of the network.
    pub chain_id: u64,
    /// The initial state snapshot.
    pub genesis: Genesis,
    /// The newest upgrade that is active.
    pub latest_upgrade: SpecId,
}

impl ChainConfig {
    /// Whether the configuration activates `spec`.
    pub open spec fn activates(&self, spec: SpecId) -> bool {
        enabled_in(self.latest_upgrade, spec)
    }

    /// Tests whether the configuration activates `spec`.
    pub fn is_active(&self, spec: SpecId) -> (active: bool)
        ensures
            active == self.activates(spec),
    {
        is_enabled_in(self.latest_upgrade, spec)
    }
}

/// The configuration of the node: the main network's identity, a default
/// genesis, and every upgrade up to and including Prague active.
pub fn custom_chainspec() -> (config: ChainConfig)
    ensures
        config.chain_id == MAINNET_CHAIN_ID,
        config.latest_upgrade == SpecId::PRAGUE,
        forall|spec: SpecId| config.activates(spec) <==> spec_ordinal(spec) <= 12,
        config.activates(TARGET_SPEC),
{
    let config = ChainConfig {
        chain_id: MAINNET_CHAIN_ID,
        genesis: default_genesis(),
        latest_upgrade: SpecId::PRAGUE,
    };
    assert forall|spec: SpecId| config.activates(spec) <==> spec_ordinal(spec) <= 12 by {}
    config
}

} // verus!
