//! Identities of participants, authorities, collateral items and wallets.

use vstd::prelude::*;
use vstd::std_specs::cmp::PartialEqSpecImpl;

verus! {

/// Number of bytes in an identity.
pub const PUBKEY_BYTES: usize = 32;

/// A 32-byte identity. Two identities are the same exactly when all their
/// bytes agree.
#[derive(Clone, Copy, Debug, Eq)]
pub struct Pubkey {
    pub bytes: [u8; PUBKEY_BYTES],
}

impl Pubkey {
    /// The all-zero identity, which marks an unused slot.
    pub open spec fn zero() -> Pubkey {
        Pubkey { bytes: [0u8; PUBKEY_BYTES] }
    }

    /// Wraps 32 raw bytes.
    pub fn new_from_array(bytes: [u8; PUBKEY_BYTES]) -> (r: Pubkey)
        ensures
            r.bytes == bytes,
    {
        Pubkey { bytes }
    }

    /// The raw bytes.
    pub fn to_bytes(&self) -> (r: [u8; PUBKEY_BYTES])
        ensures
            r == self.bytes,
    {
        self.bytes
    }

    /// Whether two identities are the same.
    pub fn equals(&self, other: &Pubkey) -> (r: bool)
        ensures
            r == (*self == *other),
    {
        let mut i: usize = 0;
        while i < PUBKEY_BYTES
            invariant
                i <= PUBKEY_BYTES,
                forall|j: int| 0 <= j < i ==> self.bytes[j] == other.bytes[j],
            decreases PUBKEY_BYTES - i,
        {
            if self.bytes[i] != other.bytes[i] {
                return false;
            }
            i += 1;
        }
        assert(self.bytes =~= other.bytes);
        true
    }
}

impl Default for Pubkey {
    fn default() -> (r: Pubkey)
        ensures
            r == Pubkey::zero(),
    {
        Pubkey { bytes: [0u8; PUBKEY_BYTES] }
    }
}

impl PartialEq for Pubkey {
    fn eq(&self, other: &Pubkey) -> (r: bool) {
        self.equals(other)
    }
}

impl PartialEqSpecImpl for Pubkey {
    open spec fn obeys_eq_spec() -> bool {
        true
    }

    open spec fn eq_spec(&self, other: &Pubkey) -> bool {
        *self == *other
    }
}

} // verus!
