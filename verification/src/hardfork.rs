//! Spec levels (hardforks), their order, and the base precompile set of each.

use vstd::prelude::*;
use revm::precompile::PrecompileSpecId;
use revm::precompile::Precompiles;
use revm::primitives::hardfork::SpecId;

verus! {

/// `revm`'s spec level, with its variants.
#[verifier::external_type_specification]
pub struct ExSpecId(SpecId);

/// `revm`'s precompile set: a map from address to native routine.
#[verifier::external_type_specification]
#[verifier::external_body]
pub struct ExPrecompiles(Precompiles);

/// The addresses at which a precompile set holds an entry, each as its 20 bytes.
pub uninterp spec fn precompile_addresses(set: Precompiles) -> Set<Seq<u8>>;

/// The place of a spec level in the order of upgrades, `FRONTIER` being 0.
pub open spec fn spec_ordinal(spec: SpecId) -> nat {
    match spec {
        SpecId::FRONTIER => 0,
        SpecId::HOMESTEAD => 1,
        SpecId::TANGERINE => 2,
        SpecId::SPURIOUS_DRAGON => 3,
        SpecId::BYZANTIUM => 4,
        SpecId::PETERSBURG => 5,
        SpecId::ISTANBUL => 6,
        SpecId::BERLIN => 7,
        SpecId::LONDON => 8,
        SpecId::MERGE => 9,
        SpecId::SHANGHAI => 10,
        SpecId::CANCUN => 11,
        SpecId::PRAGUE => 12,
        SpecId::OSAKA => 13,
        SpecId::AMSTERDAM => 14,
    }
}

/// Whether every upgrade up to `other` is in force at `spec`.
pub open spec fn enabled_in(spec: SpecId, other: SpecId) -> bool {
    spec_ordinal(spec) >= spec_ordinal(other)
}

/// Calls `SpecId::is_enabled_in`.
///
/// Trusted: it compares the two levels by their discriminants, which count
/// the variants from `FRONTIER = 0` in the order `spec_ordinal` lists them.
#[verifier::external_body]
pub(crate) fn is_enabled_in(spec: SpecId, other: SpecId) -> (enabled: bool)
    ensures
        enabled == enabled_in(spec, other),
{
    spec.is_enabled_in(other)
}

/// The address that ends in the two big-endian bytes of `number`, after 18 zero bytes.
pub open spec fn numbered_address(number: nat) -> Seq<u8>
    recommends
        number < 0x1_0000,
{
    Seq::new(18, |i: int| 0u8).push((number / 256) as u8).push((number % 256) as u8)
}

/// The base protocol numbers its precompiles from 1; this is the highest
/// number in use at `spec`.
pub open spec fn base_address_count(spec: SpecId) -> nat {
    match spec {
        SpecId::FRONTIER | SpecId::HOMESTEAD | SpecId::TANGERINE | SpecId::SPURIOUS_DRAGON => 4,
        SpecId::BYZANTIUM | SpecId::PETERSBURG => 8,
        SpecId::ISTANBUL | SpecId::BERLIN | SpecId::LONDON | SpecId::MERGE | SpecId::SHANGHAI => 9,
        SpecId::CANCUN => 10,
        SpecId::PRAGUE | SpecId::OSAKA | SpecId::AMSTERDAM => 17,
    }
}

/// Whether the base set at `spec` also holds the P-256 signature verifier at address 256.
pub open spec fn base_has_p256(spec: SpecId) -> bool {
    spec == SpecId::OSAKA || spec == SpecId::AMSTERDAM
}

/// The addresses of the base protocol's precompiles at `spec`.
pub open spec fn base_addresses(spec: SpecId) -> Set<Seq<u8>> {
    Set::new(
        |address: Seq<u8>|
            (exists|number: nat|
                1 <= number <= base_address_count(spec) && address == #[trigger] numbered_address(
                    number,
                )) || (base_has_p256(spec) && address == numbered_address(256)),
    )
}

/// Calls `Precompiles::new` with `PrecompileSpecId::from_spec_id(spec)`.
///
/// Trusted: the set that `revm` keeps for a spec level holds entries at
/// exactly the addresses of `base_addresses`: 1 to 4 from the start, 5 to 8
/// from Byzantium, 9 from Istanbul, 10 from Cancun, 11 to 17 from Prague,
/// and 256 from Osaka. The reference is to `revm`'s own shared set, which
/// this crate never gets to change.
#[verifier::external_body]
pub(crate) fn base_precompiles(spec: SpecId) -> (set: &'static Precompiles)
    ensures
        precompile_addresses(*set) == base_addresses(spec),
{
    Precompiles::new(PrecompileSpecId::from_spec_id(spec))
}

} // verus!
