//! The engine factory: which precompile set an engine gets at a spec level.

use vstd::prelude::*;
use alloy_evm::precompiles::PrecompilesMap;
use revm::primitives::hardfork::SpecId;
use crate::hardfork::{
    base_address_count, base_addresses, base_has_p256, base_precompiles, enabled_in,
    is_enabled_in, numbered_address,
};
use crate::registry::{
    custom_precompiles, extended_addresses, map_addresses, map_from_static, PrecompileRegistry,
    COUNTER_ADDRESS, READ_ADDRESS, TARGET_SPEC,
};

verus! {

/// Stands for "no observer" in the setup of a plain engine.
#[derive(Clone, Copy, Debug, Default, PartialEq, Eq, Structural)]
pub struct NoInspector;

/// What the factory settles for one engine: the precompile set it dispatches
/// through, the observer to attach, and whether the observer is switched on.
/// The caller builds the machine around these.
pub struct EngineSetup<I> {
    /// The engine's precompile set.
    pub precompiles: PrecompilesMap,
    /// The observer handed to the factory, unchanged.
    pub inspector: I,
    /// Whether the engine reports to the observer.
    pub inspect: bool,
}

/// The addresses in the precompile set of an engine at `spec`: the extended
/// set from `TARGET_SPEC` on, the base set of `spec` before it.
pub open spec fn engine_addresses(spec: SpecId) -> Set<Seq<u8>> {
    if enabled_in(spec, TARGET_SPEC) {
        extended_addresses()
    } else {
        base_addresses(spec)
    }
}

/// Factory of engines that know the registry's routines.
#[derive(Clone, Copy, Debug, Default)]
pub struct MyEvmFactory;

impl MyEvmFactory {
    /// Settles a plain engine for `spec`: it starts from the base set of
    /// `spec` and, from `TARGET_SPEC` on, takes the registry's extended set
    /// in its place. No observer is attached.
    pub fn create_evm(&self, registry: &PrecompileRegistry, spec: SpecId) -> (setup: EngineSetup<
        NoInspector,
    >)
        ensures
            map_addresses(setup.precompiles) == engine_addresses(spec),
            map_addresses(setup.precompiles).contains(READ_ADDRESS@) == enabled_in(
                spec,
                TARGET_SPEC,
            ),
            map_addresses(setup.precompiles).contains(COUNTER_ADDRESS@) == enabled_in(
                spec,
                TARGET_SPEC,
            ),
            !setup.inspect,
    {
        let mut precompiles = map_from_static(base_precompiles(spec));
        if is_enabled_in(spec, TARGET_SPEC) {
            precompiles = custom_precompiles(registry);
            proof {
                law_from_target_both_custom_entries(spec);
            }
        } else {
            proof {
                law_below_target_no_custom_entry(spec);
            }
        }
        EngineSetup { precompiles, inspector: NoInspector, inspect: false }
    }

    /// Settles an engine for `spec` as `create_evm` does, then attaches
    /// `inspector` and switches it on. The precompile set is the one a plain
    /// engine gets.
    pub fn create_evm_with_inspector<I>(
        &self,
        registry: &PrecompileRegistry,
        spec: SpecId,
        inspector: I,
    ) -> (setup: EngineSetup<I>)
        ensures
            map_addresses(setup.precompiles) == engine_addresses(spec),
            map_addresses(setup.precompiles).contains(READ_ADDRESS@) == enabled_in(
                spec,
                TARGET_SPEC,
            ),
            map_addresses(setup.precompiles).contains(COUNTER_ADDRESS@) == enabled_in(
                spec,
                TARGET_SPEC,
            ),
            setup.inspector == inspector,
            setup.inspect,
    {
        let plain = self.create_evm(registry, spec);
        EngineSetup { precompiles: plain.precompiles, inspector, inspect: true }
    }
}

/// An engine factory bound to a chain configuration.
pub struct EvmConfig<C> {
    /// The chain configuration the host handed over.
    pub chain_spec: C,
    /// The factory that builds the engines.
    pub factory: MyEvmFactory,
}

/// The hook through which a node asks for its engine factory.
#[derive(Clone, Copy, Debug, Default)]
pub struct MyExecutorBuilder;

impl MyExecutorBuilder {
    /// Binds `MyEvmFactory` to the host's chain configuration. It cannot
    /// fail: nothing in the registry is consulted.
    pub fn build_evm<C>(self, chain_spec: C) -> (config: EvmConfig<C>)
        ensures
            config.chain_spec == chain_spec,
            config.factory == MyEvmFactory,
    {
        EvmConfig { chain_spec, factory: MyEvmFactory }
    }
}

/// A numbered address below 256 differs from both reserved addresses.
pub proof fn lemma_low_address_not_reserved(number: nat)
    requires
        number < 256,
    ensures
        numbered_address(number) != READ_ADDRESS@,
        numbered_address(number) != COUNTER_ADDRESS@,
{
    assert(numbered_address(number)[18] == 0u8);
    assert(READ_ADDRESS@[18] == 1u8);
    assert(COUNTER_ADDRESS@[18] == 2u8);
}

/// The reserved addresses are the numbered addresses 256 and 512.
pub proof fn lemma_reserved_addresses_numbered()
    ensures
        READ_ADDRESS@ == numbered_address(256),
        COUNTER_ADDRESS@ == numbered_address(512),
{
    assert(READ_ADDRESS@ =~= numbered_address(256));
    assert(COUNTER_ADDRESS@ =~= numbered_address(512));
}

/// Up to `TARGET_SPEC` the base set holds neither reserved address: the
/// registry's addresses collide with no base precompile there.
pub proof fn law_base_holds_no_reserved_address(spec: SpecId)
    requires
        enabled_in(TARGET_SPEC, spec),
    ensures
        !base_addresses(spec).contains(READ_ADDRESS@),
        !base_addresses(spec).contains(COUNTER_ADDRESS@),
{
    assert(!base_has_p256(spec));
    assert forall|number: nat| 1 <= number <= base_address_count(spec) implies numbered_address(
        number,
    ) != READ_ADDRESS@ && numbered_address(number) != COUNTER_ADDRESS@ by {
        lemma_low_address_not_reserved(number);
    }
}

/// Below `TARGET_SPEC` an engine's precompile set has no entry at either
/// reserved address.
pub proof fn law_below_target_no_custom_entry(spec: SpecId)
    requires
        !enabled_in(spec, TARGET_SPEC),
    ensures
        engine_addresses(spec) == base_addresses(spec),
        !engine_addresses(spec).contains(READ_ADDRESS@),
        !engine_addresses(spec).contains(COUNTER_ADDRESS@),
{
    law_base_holds_no_reserved_address(spec);
}

/// From `TARGET_SPEC` on an engine's precompile set has entries at both
/// reserved addresses, on top of the base set of `TARGET_SPEC`; that base
/// set, looked at by itself, has gained neither.
pub proof fn law_from_target_both_custom_entries(spec: SpecId)
    requires
        enabled_in(spec, TARGET_SPEC),
    ensures
        engine_addresses(spec).contains(READ_ADDRESS@),
        engine_addresses(spec).contains(COUNTER_ADDRESS@),
        forall|address: Seq<u8>|
            base_addresses(TARGET_SPEC).contains(address) ==> engine_addresses(spec).contains(
                address,
            ),
        !base_addresses(TARGET_SPEC).contains(READ_ADDRESS@),
        !base_addresses(TARGET_SPEC).contains(COUNTER_ADDRESS@),
{
    law_base_holds_no_reserved_address(TARGET_SPEC);
}

/// From Osaka on the base protocol has a precompile of its own at the read
/// routine's address. An engine there still gets the extended set, which is
/// built on the base set of `TARGET_SPEC`, so in its set the address belongs
/// to the read routine.
pub proof fn law_osaka_base_holds_read_address(spec: SpecId)
    requires
        base_has_p256(spec),
    ensures
        base_addresses(spec).contains(READ_ADDRESS@),
        !base_addresses(spec).contains(COUNTER_ADDRESS@),
        engine_addresses(spec) == extended_addresses(),
{
    lemma_reserved_addresses_numbered();
    assert forall|number: nat| 1 <= number <= base_address_count(spec) implies numbered_address(
        number,
    ) != COUNTER_ADDRESS@ by {
        lemma_low_address_not_reserved(number);
    }
    assert(numbered_address(256)[18] == 1u8);
    assert(COUNTER_ADDRESS@[18] == 2u8);
}

} // verus!
