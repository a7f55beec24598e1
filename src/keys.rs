//! Account identities and 32-byte hashes.

use vstd::prelude::*;

verus! {

/// Every byte of `s` is zero.
pub open spec fn zero_bytes(s: Seq<u8>) -> bool {
    forall|i: int| 0 <= i < s.len() ==> s[i] == 0
}

/// The all-zero hash, as `[0u8; 32]` builds it.
pub open spec fn zero_hash() -> [u8; 32] {
    vstd::array::spec_array_fill_for_copy_type::<u8, 32>(0u8)
}

/// The default (all-zero) key.
pub open spec fn default_key() -> Pubkey {
    Pubkey { bytes: zero_hash() }
}

/// A 32-byte account identity. The all-zero key is the "default" key, which
/// stands for "no account".
#[derive(Clone, Copy, Debug)]
pub struct Pubkey {
    pub bytes: [u8; 32],
}

impl View for Pubkey {
    type V = Seq<u8>;

    open spec fn view(&self) -> Seq<u8> {
        self.bytes@
    }
}

impl Pubkey {
    /// The key made of the given bytes.
    pub fn new_from_array(bytes: [u8; 32]) -> (r: Pubkey)
        ensures
            r@ == bytes@,
    {
        Pubkey { bytes }
    }

    /// The default (all-zero) key.
    pub fn zero() -> (r: Pubkey)
        ensures
            r == default_key(),
            zero_bytes(r@),
    {
        Pubkey { bytes: [0u8; 32] }
    }

    /// The key's bytes.
    pub fn to_bytes(&self) -> (r: [u8; 32])
        ensures
            r@ == self@,
    {
        self.bytes
    }

    /// Whether this is the default (all-zero) key.
    pub fn is_default(&self) -> (r: bool)
        ensures
            r == zero_bytes(self@),
    {
        is_zero_hash(&self.bytes)
    }
}

impl PartialEq for Pubkey {
    fn eq(&self, o: &Pubkey) -> (r: bool) {
        let mut i: usize = 0;
        while i < 32
            invariant
                0 <= i <= 32,
                self@.len() == 32,
                o@.len() == 32,
                forall|j: int| 0 <= j < i ==> self@[j] == o@[j],
            decreases 32 - i,
        {
            if self.bytes[i] != o.bytes[i] {
                return false;
            }
            i = i + 1;
        }
        assert(self@ =~= o@);
        true
    }
}

impl vstd::std_specs::cmp::PartialEqSpecImpl for Pubkey {
    open spec fn obeys_eq_spec() -> bool {
        true
    }

    open spec fn eq_spec(&self, o: &Pubkey) -> bool {
        self@ == o@
    }
}

/// Whether every byte of the hash is zero.
pub fn is_zero_hash(hash: &[u8; 32]) -> (r: bool)
    ensures
        r == zero_bytes(hash@),
{
    let mut i: usize = 0;
    while i < 32
        invariant
            0 <= i <= 32,
            hash@.len() == 32,
            forall|j: int| 0 <= j < i ==> hash@[j] == 0,
        decreases 32 - i,
    {
        if hash[i] != 0 {
            return false;
        }
        i = i + 1;
    }
    true
}

} // verus!
