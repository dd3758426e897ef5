//! The precompile registry: the reserved addresses, the routines bound to
//! them, and the extended precompile set.

use vstd::prelude::*;
use std::sync::Arc;
use alloy_evm::precompiles::DynPrecompile;
use alloy_evm::precompiles::PrecompileInput;
use alloy_evm::precompiles::PrecompilesMap;
use alloy_primitives::Address;
use alloy_primitives::Bytes;
use revm::precompile::PrecompileId;
use revm::precompile::PrecompileOutput;
use revm::precompile::Precompiles;
use revm::primitives::hardfork::SpecId;
use crate::hardfork::{base_addresses, base_precompiles, precompile_addresses};
use crate::routine::{
    counter_call_of, counter_reply, decode_counter_call, read_reply, read_routine, RoutineOutput,
};
use crate::selector::SelectorTable;
use crate::state::CounterState;

verus! {

/// Address of the read routine: 18 zero bytes, then `0x01, 0x00`.
pub const READ_ADDRESS: [u8; 20] = [
    0, 0, 0, 0, 0, 0, 0, 0, 0, 0, 0, 0, 0, 0, 0, 0, 0, 0, 0x01, 0x00,
];

/// Address of the counter routine: 18 zero bytes, then `0x02, 0x00`.
pub const COUNTER_ADDRESS: [u8; 20] = [
    0, 0, 0, 0, 0, 0, 0, 0, 0, 0, 0, 0, 0, 0, 0, 0, 0, 0, 0x02, 0x00,
];

/// The upgrade whose base set the extended set is built on, and from which
/// engines get the extended set.
pub const TARGET_SPEC: SpecId = SpecId::PRAGUE;

/// The routines the registry defines.
#[derive(Clone, Copy, Debug, PartialEq, Eq, Structural)]
pub enum Routine {
    /// The pure read routine.
    Read,
    /// The stateful counter routine.
    Counter,
}

impl Routine {
    /// The reserved address of the routine, as bytes.
    pub open spec fn spec_address(self) -> Seq<u8> {
        match self {
            Routine::Read => READ_ADDRESS@,
            Routine::Counter => COUNTER_ADDRESS@,
        }
    }

    /// The reserved address of the routine.
    pub fn address(self) -> (address: [u8; 20])
        ensures
            address@ == self.spec_address(),
    {
        match self {
            Routine::Read => READ_ADDRESS,
            Routine::Counter => COUNTER_ADDRESS,
        }
    }

    /// The name under which the routine is entered in a precompile set.
    pub fn name(self) -> (name: &'static str)
        ensures
            name@ == (match self {
                Routine::Read => "read"@,
                Routine::Counter => "counter"@,
            }),
    {
        match self {
            Routine::Read => "read",
            Routine::Counter => "counter",
        }
    }
}

/// Owner of the routines' definitions: the selector table, computed once,
/// and the counter's cell. Clones share the cell.
#[derive(Clone)]
pub struct PrecompileRegistry {
    selectors: SelectorTable,
    counter: Arc<CounterState>,
}

impl PrecompileRegistry {
    /// The selectors the routines answer to.
    pub closed spec fn table(&self) -> SelectorTable {
        self.selectors
    }

    /// The selectors the routines answer to.
    pub fn selectors(&self) -> (table: SelectorTable)
        ensures
            table == self.table(),
    {
        self.selectors
    }

    /// A registry with freshly hashed selectors and a counter at zero.
    pub fn new() -> (registry: Self)
        ensures
            registry.table().derived(),
    {
        PrecompileRegistry {
            selectors: SelectorTable::compute(),
            counter: Arc::new(CounterState::new()),
        }
    }

    /// A registry that answers to the given selectors, with a counter at zero.
    pub fn with_selectors(selectors: SelectorTable) -> (registry: Self)
        ensures
            registry.table() == selectors,
    {
        PrecompileRegistry { selectors, counter: Arc::new(CounterState::new()) }
    }

    /// Runs the read routine on `data`. The gas budget of the caller plays no part.
    pub fn read(&self, data: &[u8]) -> (out: RoutineOutput)
        ensures
            out.gas_used == 0,
            out.bytes@ == read_reply(self.table(), data@),
    {
        read_routine(&self.selectors, data)
    }

    /// Runs the counter routine on `data`: decodes the call and applies it to
    /// the shared cell.
    pub fn counter(&self, data: &[u8]) -> (out: RoutineOutput)
        ensures
            out.gas_used == 0,
            exists|value: u64|
                out.bytes@ == counter_reply(value, counter_call_of(self.table(), data@)),
    {
        let call = decode_counter_call(&self.selectors, data);
        self.counter.apply(call)
    }

    /// Runs the routine bound to a reserved address.
    pub fn call(&self, routine: Routine, data: &[u8]) -> (out: RoutineOutput)
        ensures
            out.gas_used == 0,
            routine == Routine::Read ==> out.bytes@ == read_reply(self.table(), data@),
            routine == Routine::Counter ==> exists|value: u64|
                out.bytes@ == counter_reply(value, counter_call_of(self.table(), data@)),
    {
        match routine {
            Routine::Read => self.read(data),
            Routine::Counter => self.counter(data),
        }
    }
}

/// `alloy-evm`'s precompile map, the set an engine dispatches through.
#[verifier::external_type_specification]
#[verifier::external_body]
pub struct ExPrecompilesMap(PrecompilesMap);

/// The addresses at which a precompile map holds an entry, each as its 20 bytes.
pub uninterp spec fn map_addresses(map: PrecompilesMap) -> Set<Seq<u8>>;

/// Calls `PrecompilesMap::from_static`.
///
/// Trusted: the map borrows the set and holds entries at the set's addresses.
#[verifier::external_body]
pub(crate) fn map_from_static(set: &'static Precompiles) -> (map: PrecompilesMap)
    ensures
        map_addresses(map) == precompile_addresses(*set),
{
    PrecompilesMap::from_static(set)
}

/// Calls `PrecompilesMap::extend_precompiles` with one entry, made by
/// `DynPrecompile::new_stateful` from a closure that runs `routine` on the
/// call's input data and returns its bytes and gas as a success.
///
/// Trusted: the map afterwards holds an entry at `address`, replacing one
/// that was there, and keeps every other entry. The entry is marked as not
/// cacheable.
#[verifier::external_body]
fn install(
    map: &mut PrecompilesMap,
    address: &[u8; 20],
    name: &'static str,
    routine: Routine,
    registry: PrecompileRegistry,
)
    ensures
        map_addresses(*final(map)) == map_addresses(*old(map)).insert(address@),
{
    let run = move |input: PrecompileInput<'_>| {
        let out = registry.call(routine, input.data);
        Ok(PrecompileOutput::new(out.gas_used, Bytes::from(out.bytes), input.reservoir))
    };
    let entry = DynPrecompile::new_stateful(PrecompileId::custom(name), run);
    map.extend_precompiles([(Address::from(*address), entry)]);
}

/// The addresses of the extended set: the base set of `TARGET_SPEC` and the
/// two reserved addresses.
pub open spec fn extended_addresses() -> Set<Seq<u8>> {
    base_addresses(TARGET_SPEC).insert(READ_ADDRESS@).insert(COUNTER_ADDRESS@)
}

/// Builds the extended precompile set: a copy of the base set of
/// `TARGET_SPEC` with the registry's two routines added at their reserved
/// addresses. The base set itself is only borrowed.
pub fn custom_precompiles(registry: &PrecompileRegistry) -> (map: PrecompilesMap)
    ensures
        map_addresses(map) == extended_addresses(),
{
    let mut map = map_from_static(base_precompiles(TARGET_SPEC));
    install(&mut map, &READ_ADDRESS, Routine::Read.name(), Routine::Read, registry.clone());
    install(
        &mut map,
        &COUNTER_ADDRESS,
        Routine::Counter.name(),
        Routine::Counter,
        registry.clone(),
    );
    map
}

} // verus!
