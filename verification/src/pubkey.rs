//! Identities: the 32-byte addresses by which the pool names its admin, its
//! buyers, its mints and its accounts.

use vstd::prelude::*;
use vstd::std_specs::cmp::PartialEqSpecImpl;

verus! {

/// Number of bytes in an address.
pub const PUBKEY_BYTES: usize = 32;

/// A 32-byte address. Two addresses are the same identity exactly when their
/// bytes agree.
#[derive(Clone, Copy, Debug, Eq, Hash)]
pub struct Pubkey {
    pub bytes: [u8; 32],
}

impl Pubkey {
    /// The address made of the given bytes.
    pub fn new_from_array(bytes: [u8; 32]) -> (key: Pubkey)
        ensures
            key.bytes == bytes,
    {
        Pubkey { bytes }
    }

    /// The bytes of the address.
    pub fn to_bytes(&self) -> (bytes: [u8; 32])
        ensures
            bytes == self.bytes,
    {
        self.bytes
    }

    /// Whether this is the all-zero address, which a record holds before an
    /// owner is written into it.
    pub open spec fn is_zero(self) -> bool {
        forall|i: int| 0 <= i < 32 ==> self.bytes[i] == 0
    }
}

impl View for Pubkey {
    type V = Seq<u8>;

    open spec fn view(&self) -> Seq<u8> {
        self.bytes@
    }
}

impl Default for Pubkey {
    fn default() -> (key: Pubkey)
        ensures
            key.is_zero(),
    {
        Pubkey { bytes: [0u8; 32] }
    }
}

impl PartialEq for Pubkey {
    fn eq(&self, other: &Self) -> (same: bool) {
        let mut i: usize = 0;
        while i < 32
            invariant
                i <= 32,
                forall|j: int| 0 <= j < i ==> self.bytes[j] == other.bytes[j],
            decreases 32 - i,
        {
            if self.bytes[i] != other.bytes[i] {
                return false;
            }
            i += 1;
        }
        assert(self.bytes =~= other.bytes);
        true
    }
}

impl PartialEqSpecImpl for Pubkey {
    open spec fn obeys_eq_spec() -> bool {
        true
    }

    open spec fn eq_spec(&self, other: &Self) -> bool {
        self.bytes == other.bytes
    }
}

} // verus!
