//! Function selectors: the first four bytes of the Keccak-256 hash of a
//! routine's textual signature.

use vstd::prelude::*;
use vstd::string::StringSliceAdditionalSpecFns;

verus! {

/// Signature of the read routine's only function.
pub const READ_SIGNATURE: &'static str = "read()";

/// Signature of the counter routine's setter.
pub const SET_NUM_SIGNATURE: &'static str = "setNum(uint64)";

/// Signature of the counter routine's getter.
pub const GET_NUM_SIGNATURE: &'static str = "getNum()";

/// The Keccak-256 digest of a byte string, as `alloy_primitives::keccak256` computes it.
pub uninterp spec fn keccak256_digest(input: Seq<u8>) -> Seq<u8>;

/// Calls `alloy_primitives::keccak256`.
///
/// Trusted: the 32 bytes returned are the Keccak-256 digest of `input`, a
/// function of the input bytes alone. The hash itself is not modelled; it is
/// only named.
#[verifier::external_body]
fn keccak256(input: &[u8]) -> (digest: [u8; 32])
    ensures
        digest@ == keccak256_digest(input@),
{
    alloy_primitives::keccak256(input).0
}

/// The selector of a signature given as bytes: the first four bytes of its digest.
pub open spec fn selector_of(signature: Seq<u8>) -> Seq<u8> {
    keccak256_digest(signature).subrange(0, 4)
}

/// Computes the selector of a textual signature.
pub fn selector(signature: &str) -> (sel: [u8; 4])
    ensures
        sel@ == selector_of(signature.spec_bytes()),
{
    let digest = keccak256(signature.as_bytes());
    let sel: [u8; 4] = [digest[0], digest[1], digest[2], digest[3]];
    assert(sel@ =~= digest@.subrange(0, 4));
    sel
}

/// The selectors of the three functions the routines answer to.
#[derive(Clone, Copy, Debug)]
pub struct SelectorTable {
    /// Selector of `read()`.
    pub read: [u8; 4],
    /// Selector of `setNum(uint64)`.
    pub set_num: [u8; 4],
    /// Selector of `getNum()`.
    pub get_num: [u8; 4],
}

impl SelectorTable {
    /// The table holds the selectors of the three signatures.
    pub open spec fn derived(&self) -> bool {
        &&& self.read@ == selector_of(READ_SIGNATURE.spec_bytes())
        &&& self.set_num@ == selector_of(SET_NUM_SIGNATURE.spec_bytes())
        &&& self.get_num@ == selector_of(GET_NUM_SIGNATURE.spec_bytes())
    }

    /// The two selectors of the counter routine differ, so no call data is
    /// both a `setNum` and a `getNum` call.
    pub open spec fn unambiguous(&self) -> bool {
        self.set_num@ != self.get_num@
    }

    /// Hashes the three signatures once; the table is then read on every call.
    pub fn compute() -> (table: Self)
        ensures
            table.derived(),
    {
        SelectorTable {
            read: selector(READ_SIGNATURE),
            set_num: selector(SET_NUM_SIGNATURE),
            get_num: selector(GET_NUM_SIGNATURE),
        }
    }

    /// Tests whether the counter routine's two selectors differ.
    pub fn is_unambiguous(&self) -> (distinct: bool)
        ensures
            distinct == self.unambiguous(),
    {
        let same = self.set_num[0] == self.get_num[0] && self.set_num[1] == self.get_num[1]
            && self.set_num[2] == self.get_num[2] && self.set_num[3] == self.get_num[3];
        proof {
            if same {
                assert(self.set_num@ =~= self.get_num@);
            }
        }
        !same
    }
}

} // verus!
