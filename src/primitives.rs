//! Fixed-width hashes and unsigned integers, held as plain bytes and words.
use vstd::prelude::*;

verus! {

/// A 32-byte hash.
#[derive(Clone, Copy, Debug, Default)]
pub struct H256(pub [u8; 32]);

/// A 20-byte account address.
#[derive(Clone, Copy, Debug, Default, PartialEq, Eq)]
pub struct Address(pub [u8; 20]);

/// An 8-byte hash (a block's proof-of-work nonce).
#[derive(Clone, Copy, Debug, Default, PartialEq, Eq)]
pub struct H64(pub [u8; 8]);

/// A 2048-bit logs bloom filter.
#[derive(Clone, Copy, Debug, PartialEq, Eq)]
pub struct Bloom(pub [u8; 256]);

/// A 256-bit unsigned integer as four 64-bit words, least significant first.
#[derive(Clone, Copy, Debug, Default, PartialEq, Eq)]
pub struct U256(pub [u64; 4]);

impl View for H256 {
    type V = Seq<u8>;

    open spec fn view(&self) -> Seq<u8> {
        self.0@
    }
}

impl PartialEq for H256 {
    fn eq(&self, other: &H256) -> (r: bool) {
        let mut i: usize = 0;
        while i < 32
            invariant
                0 <= i <= 32,
                self.0@.len() == 32,
                other.0@.len() == 32,
                forall|j: int| 0 <= j < i ==> self.0@[j] == other.0@[j],
            decreases 32 - i,
        {
            if self.0[i] != other.0[i] {
                return false;
            }
            i = i + 1;
        }
        assert(self.0@ =~= other.0@);
        true
    }
}

impl vstd::std_specs::cmp::PartialEqSpecImpl for H256 {
    open spec fn obeys_eq_spec() -> bool {
        true
    }

    open spec fn eq_spec(&self, other: &H256) -> bool {
        self@ == other@
    }
}

impl Eq for H256 {
}

/// The lower-case hex digit of `d`, for `d < 16`.
pub open spec fn hex_digit(d: u8) -> char {
    if d < 10 {
        (d + 48) as char
    } else {
        (d + 87) as char
    }
}

/// Lower-case hex text of a byte string, two digits per byte, no prefix.
pub open spec fn lower_hex(b: Seq<u8>) -> Seq<char>
    decreases b.len(),
{
    if b.len() == 0 {
        Seq::empty()
    } else {
        lower_hex(b.drop_last()) + seq![hex_digit(b.last() / 16), hex_digit(b.last() % 16)]
    }
}

impl H256 {
    /// Lower-case hex text of the hash, 64 digits.
    ///
    /// Relies on the `LowerHex` formatting of web3's `H256` (from fixed-hash),
    /// which writes each byte as two lower-case hex digits.
    #[verifier::external_body]
    pub(crate) fn to_lower_hex(&self) -> (r: String)
        ensures
            r@ == lower_hex(self@),
    {
        format!("{:x}", web3::types::H256(self.0))
    }
}

impl Default for Bloom {
    /// The empty filter: all bits clear.
    fn default() -> (r: Bloom)
        ensures
            r.0@ == Seq::new(256, |_i: int| 0u8),
    {
        let r = Bloom([0u8; 256]);
        assert(r.0@ =~= Seq::new(256, |_i: int| 0u8));
        r
    }
}

impl U256 {
    /// The number the four words stand for.
    pub open spec fn value(self) -> nat {
        self.0[0] as nat + self.0[1] as nat * 0x1_0000_0000_0000_0000 + self.0[2] as nat
            * 0x1_0000_0000_0000_0000_0000_0000_0000_0000 + self.0[3] as nat
            * 0x1_0000_0000_0000_0000_0000_0000_0000_0000_0000_0000_0000_0000
    }

    /// Whether the value fits in 64 bits.
    pub open spec fn fits_u64(self) -> bool {
        self.0[1] == 0 && self.0[2] == 0 && self.0[3] == 0
    }

    /// The value as a `u64`, when it fits.
    pub fn as_u64(&self) -> (r: u64)
        requires
            self.fits_u64(),
        ensures
            r as nat == self.value(),
    {
        self.0[0]
    }
}

} // verus!
