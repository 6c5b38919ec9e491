//! Primitive identifiers and network parameters.

use vstd::prelude::*;

verus! {

/// Width in bytes of one block chunk of public data.
pub const CHUNK_BYTES: usize = 9;

/// Largest account id that the account tree can hold.
pub const MAX_ACCOUNT_ID: u32 = 16_777_215;

/// Number of token slots in an account's balance tree.
pub const TOTAL_TOKENS: u16 = 1024;

/// Largest token id that the balance tree can hold.
pub const MAX_TOKEN_ID: u16 = 1023;

/// Token id of the base-chain native coin; fees of disabled kinds are paid in it.
pub const ATP_TOKEN_ID: u16 = 0;

/// Unique identifier of an account.
#[derive(Clone, Copy, Debug, PartialEq, Eq, Hash, Structural)]
pub struct AccountId(pub u32);

/// Unique identifier of a token.
#[derive(Clone, Copy, Debug, PartialEq, Eq, Hash, Structural)]
pub struct TokenId(pub u16);

/// Account nonce.
#[derive(Clone, Copy, Debug, PartialEq, Eq, Hash, Structural)]
pub struct Nonce(pub u32);

/// Serial id of a priority operation.
#[derive(Clone, Copy, Debug, PartialEq, Eq, Hash, Structural)]
pub struct SerialId(pub u64);

/// A 20-byte address on the base chain.
#[derive(Clone, Copy, Debug, PartialEq, Eq, Hash)]
pub struct Address(pub [u8; 20]);

/// Hash of an account's signing key (20 bytes); all zero when no key is set.
#[derive(Clone, Copy, Debug, PartialEq, Eq, Hash)]
pub struct PubKeyHash(pub [u8; 20]);

/// Byte-wise equality of two 20-byte values.
pub fn eq20(a: &[u8; 20], b: &[u8; 20]) -> (r: bool)
    ensures
        r == (a@ == b@),
{
    let mut i: usize = 0;
    while i < 20
        invariant
            0 <= i <= 20,
            forall|j: int| 0 <= j < i ==> a@[j] == b@[j],
        decreases 20 - i,
    {
        if a[i] != b[i] {
            return false;
        }
        i = i + 1;
    }
    assert(a@ =~= b@);
    true
}

/// Whether every byte of a 20-byte value is zero.
pub fn is_zero20(a: &[u8; 20]) -> (r: bool)
    ensures
        r == (a@ == Seq::new(20, |i: int| 0u8)),
{
    let z = [0u8; 20];
    assert(z@ =~= Seq::new(20, |i: int| 0u8));
    eq20(a, &z)
}

impl Address {
    pub open spec fn view(&self) -> Seq<u8> {
        self.0@
    }

    /// The all-zero address.
    pub fn zero() -> (r: Address)
        ensures
            r@ == Seq::new(20, |i: int| 0u8),
    {
        let r = Address([0u8; 20]);
        assert(r@ =~= Seq::new(20, |i: int| 0u8));
        r
    }

    /// Whether every byte is zero.
    pub fn is_zero(&self) -> (r: bool)
        ensures
            r == (self@ == Seq::new(20, |i: int| 0u8)),
    {
        is_zero20(&self.0)
    }

    /// Byte-wise equality.
    pub fn equals(&self, other: &Address) -> (r: bool)
        ensures
            r == (self@ == other@),
    {
        eq20(&self.0, &other.0)
    }
}

impl PubKeyHash {
    /// Whether every byte is zero: no key is set.
    pub fn is_zero(&self) -> (r: bool)
        ensures
            r == (self.0@ == Seq::new(20, |i: int| 0u8)),
    {
        is_zero20(&self.0)
    }

    /// Byte-wise equality.
    pub fn equals(&self, other: &PubKeyHash) -> (r: bool)
        ensures
            r == (self.0@ == other.0@),
    {
        eq20(&self.0, &other.0)
    }
}

} // verus!
