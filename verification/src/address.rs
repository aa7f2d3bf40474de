//! Fixed-width account addresses used as the sender of a compilation request.

use vstd::prelude::*;

verus! {

/// Number of bytes in an account address.
pub const ADDRESS_LENGTH: usize = 32;

/// A fixed-width identifier for the account a compilation is performed for.
#[derive(Clone, Copy, Debug, PartialEq, Eq)]
pub struct AccountAddress {
    bytes: [u8; 32],
}

impl View for AccountAddress {
    type V = Seq<u8>;

    closed spec fn view(&self) -> Seq<u8> {
        self.bytes@
    }
}

impl AccountAddress {
    /// Construct an address from its byte representation.
    pub fn new(bytes: [u8; 32]) -> (r: Self)
        ensures
            r@ == bytes@,
    {
        AccountAddress { bytes }
    }

    /// The all-zero address, the default sender.
    pub fn zero() -> (r: Self)
        ensures
            r@ == Seq::<u8>::new(32, |i: int| 0u8),
    {
        let bytes = [0u8; 32];
        proof {
            assert(bytes@ =~= Seq::<u8>::new(32, |i: int| 0u8));
        }
        AccountAddress { bytes }
    }

    /// The byte representation of the address.
    pub fn as_bytes(&self) -> (r: &[u8])
        ensures
            r@ == self@,
    {
        self.bytes.as_slice()
    }

    /// The address as a freshly allocated byte vector.
    pub fn to_vec(&self) -> (r: Vec<u8>)
        ensures
            r@ == self@,
    {
        vstd::slice::slice_to_vec(self.bytes.as_slice())
    }

    /// Addresses are equal exactly when their bytes are.
    pub fn eq_address(&self, other: &AccountAddress) -> (r: bool)
        ensures
            r == (self@ =~= other@),
    {
        let mut i: usize = 0;
        while i < 32
            invariant
                0 <= i <= 32,
                self@.len() == 32,
                other@.len() == 32,
                forall|j: int| 0 <= j < i ==> self@[j] == other@[j],
            decreases 32 - i,
        {
            if self.bytes[i] != other.bytes[i] {
                return false;
            }
            i += 1;
        }
        true
    }

    /// Every address has exactly `ADDRESS_LENGTH` bytes.
    pub proof fn lemma_len(&self)
        ensures
            self@.len() == 32,
    {
    }
}

impl Default for AccountAddress {
    /// The default sender is the zero address.
    fn default() -> (r: Self)
        ensures
            r@ == Seq::<u8>::new(32, |i: int| 0u8),
    {
        AccountAddress::zero()
    }
}

} // verus!
