//! 256-bit unsigned integers as four little-endian 64-bit words.
//!
//! The value of a `U256` is the natural number its words spell out. The
//! arithmetic that needs carries across words (multiplication, addition,
//! division, shifts) is done by `ethers_core::types::U256`; each such call
//! stands behind a wrapper below whose contract states the arithmetic over
//! the natural-number view.
use vstd::prelude::*;
use vstd::arithmetic::div_mod::*;

verus! {

/// 2^64, the weight of the second word.
pub open spec fn word_base() -> nat {
    0x1_0000_0000_0000_0000nat
}

/// 2^128.
pub open spec fn base_128() -> nat {
    0x1_0000_0000_0000_0000_0000_0000_0000_0000nat
}

/// 2^192.
pub open spec fn base_192() -> nat {
    0x1_0000_0000_0000_0000_0000_0000_0000_0000_0000_0000_0000_0000nat
}

/// 2^256, one more than the largest `U256`.
pub open spec fn u256_modulus() -> nat {
    0x1_0000_0000_0000_0000_0000_0000_0000_0000_0000_0000_0000_0000_0000_0000_0000_0000nat
}

/// The largest value a `U256` can hold: 2^256 - 1.
pub open spec fn u256_max() -> nat {
    (u256_modulus() - 1) as nat
}

/// A 256-bit unsigned integer; `w0` is the least significant word.
#[derive(Clone, Copy, Debug, PartialEq, Eq, Structural)]
pub struct U256 {
    pub w0: u64,
    pub w1: u64,
    pub w2: u64,
    pub w3: u64,
}

impl View for U256 {
    type V = nat;

    open spec fn view(&self) -> nat {
        (self.w0 + self.w1 * word_base() + self.w2 * base_128() + self.w3 * base_192()) as nat
    }
}

/// The value of an optional `U256`, as an optional natural number.
pub open spec fn opt_value(o: Option<U256>) -> Option<nat> {
    match o {
        Some(v) => Some(v@),
        None => None,
    }
}

/// The low 128 bits of a value.
pub open spec fn low_128(v: nat) -> nat {
    v % base_128()
}

impl U256 {
    /// Zero.
    pub fn zero() -> (r: U256)
        ensures
            r@ == 0,
    {
        U256 { w0: 0, w1: 0, w2: 0, w3: 0 }
    }

    /// One.
    pub fn one() -> (r: U256)
        ensures
            r@ == 1,
    {
        U256 { w0: 1, w1: 0, w2: 0, w3: 0 }
    }

    /// The largest value, 2^256 - 1.
    pub fn max_value() -> (r: U256)
        ensures
            r@ == u256_max(),
    {
        U256 { w0: u64::MAX, w1: u64::MAX, w2: u64::MAX, w3: u64::MAX }
    }

    /// 2^96, the fixed-point scale of a Uniswap V3 `sqrtPriceX96`.
    pub fn q96() -> (r: U256)
        ensures
            r@ == 0x1_0000_0000_0000_0000_0000_0000nat,
    {
        U256 { w0: 0, w1: 0x1_0000_0000, w2: 0, w3: 0 }
    }

    /// The value of a `u64`.
    pub fn from_u64(v: u64) -> (r: U256)
        ensures
            r@ == v,
    {
        U256 { w0: v, w1: 0, w2: 0, w3: 0 }
    }

    /// The value of a `u128`.
    pub fn from_u128(v: u128) -> (r: U256)
        ensures
            r@ == v,
    {
        let lo: u64 = v as u64;
        let hi: u64 = (v >> 64u32) as u64;
        assert(v == lo + hi * 0x1_0000_0000_0000_0000) by (bit_vector)
            requires
                lo == v as u64,
                hi == (v >> 64u32) as u64,
        ;
        U256 { w0: lo, w1: hi, w2: 0, w3: 0 }
    }

    /// Whether the value is zero.
    pub fn is_zero(&self) -> (r: bool)
        ensures
            r == (self@ == 0),
    {
        self.w0 == 0 && self.w1 == 0 && self.w2 == 0 && self.w3 == 0
    }

    /// The low 128 bits, as a `u128`.
    pub fn low_u128(&self) -> (r: u128)
        ensures
            r == low_128(self@),
    {
        let lo: u128 = self.w0 as u128;
        let hi: u128 = self.w1 as u128;
        let r: u128 = lo | (hi << 64u32);
        assert(r == lo + hi * 0x1_0000_0000_0000_0000) by (bit_vector)
            requires
                r == lo | (hi << 64u32),
                lo < 0x1_0000_0000_0000_0000,
                hi < 0x1_0000_0000_0000_0000,
        ;
        proof {
            let low = (self.w0 + self.w1 * word_base()) as int;
            let high = (self.w2 + self.w3 * word_base()) as int;
            assert(self@ == low + high * base_128());
            lemma_fundamental_div_mod_converse(self@ as int, base_128() as int, high, low);
        }
        r
    }

    /// The low 64 bits, as a `u64`.
    pub fn low_u64(&self) -> (r: u64)
        ensures
            r == self@ % word_base(),
    {
        proof {
            let high = (self.w1 + self.w2 * word_base() + self.w3 * base_128()) as int;
            assert(self@ == self.w0 + high * word_base());
            lemma_fundamental_div_mod_converse(self@ as int, word_base() as int, high, self.w0 as int);
        }
        self.w0
    }

    /// Product, or `None` when it exceeds 2^256 - 1.
    ///
    /// Calls `ethers_core::types::U256::checked_mul`, which multiplies with an
    /// overflow flag and returns `None` exactly when the flag is set.
    #[verifier::external_body]
    pub(crate) fn checked_mul(self, other: U256) -> (r: Option<U256>)
        ensures
            r is Some <==> self@ * other@ <= u256_max(),
            r matches Some(v) ==> v@ == self@ * other@,
    {
        let a = ethers_core::types::U256([self.w0, self.w1, self.w2, self.w3]);
        let b = ethers_core::types::U256([other.w0, other.w1, other.w2, other.w3]);
        match a.checked_mul(b) {
            Some(c) => Some(U256 { w0: c.0[0], w1: c.0[1], w2: c.0[2], w3: c.0[3] }),
            None => None,
        }
    }

    /// Sum, or `None` when it exceeds 2^256 - 1.
    ///
    /// Calls `ethers_core::types::U256::checked_add`, which returns `None`
    /// exactly when the word-wise addition carries out of the top word.
    #[verifier::external_body]
    pub(crate) fn checked_add(self, other: U256) -> (r: Option<U256>)
        ensures
            r is Some <==> self@ + other@ <= u256_max(),
            r matches Some(v) ==> v@ == self@ + other@,
    {
        let a = ethers_core::types::U256([self.w0, self.w1, self.w2, self.w3]);
        let b = ethers_core::types::U256([other.w0, other.w1, other.w2, other.w3]);
        match a.checked_add(b) {
            Some(c) => Some(U256 { w0: c.0[0], w1: c.0[1], w2: c.0[2], w3: c.0[3] }),
            None => None,
        }
    }

    /// Quotient rounded down, or `None` when the divisor is zero.
    ///
    /// Calls `ethers_core::types::U256::checked_div`, which returns `None` for a
    /// zero divisor and the truncating quotient otherwise.
    #[verifier::external_body]
    pub(crate) fn checked_div(self, other: U256) -> (r: Option<U256>)
        ensures
            r is Some <==> other@ != 0,
            r matches Some(v) ==> v@ == self@ / other@,
    {
        let a = ethers_core::types::U256([self.w0, self.w1, self.w2, self.w3]);
        let b = ethers_core::types::U256([other.w0, other.w1, other.w2, other.w3]);
        match a.checked_div(b) {
            Some(c) => Some(U256 { w0: c.0[0], w1: c.0[1], w2: c.0[2], w3: c.0[3] }),
            None => None,
        }
    }

    /// Product capped at 2^256 - 1.
    ///
    /// Calls `ethers_core::types::U256::saturating_mul`, which returns `MAX`
    /// when the multiplication overflows and the product otherwise.
    #[verifier::external_body]
    pub(crate) fn saturating_mul(self, other: U256) -> (r: U256)
        ensures
            r@ == if self@ * other@ <= u256_max() { self@ * other@ } else { u256_max() },
    {
        let a = ethers_core::types::U256([self.w0, self.w1, self.w2, self.w3]);
        let b = ethers_core::types::U256([other.w0, other.w1, other.w2, other.w3]);
        let c = a.saturating_mul(b);
        U256 { w0: c.0[0], w1: c.0[1], w2: c.0[2], w3: c.0[3] }
    }

    /// Sum capped at 2^256 - 1.
    ///
    /// Calls `ethers_core::types::U256::saturating_add`, which returns `MAX`
    /// when the addition overflows and the sum otherwise.
    #[verifier::external_body]
    pub(crate) fn saturating_add(self, other: U256) -> (r: U256)
        ensures
            r@ == if self@ + other@ <= u256_max() { self@ + other@ } else { u256_max() },
    {
        let a = ethers_core::types::U256([self.w0, self.w1, self.w2, self.w3]);
        let b = ethers_core::types::U256([other.w0, other.w1, other.w2, other.w3]);
        let c = a.saturating_add(b);
        U256 { w0: c.0[0], w1: c.0[1], w2: c.0[2], w3: c.0[3] }
    }

    /// Difference floored at zero.
    ///
    /// Calls `ethers_core::types::U256::saturating_sub`, which returns zero when
    /// the subtraction underflows and the difference otherwise.
    #[verifier::external_body]
    pub(crate) fn saturating_sub(self, other: U256) -> (r: U256)
        ensures
            r@ == if self@ >= other@ { (self@ - other@) as nat } else { 0 },
    {
        let a = ethers_core::types::U256([self.w0, self.w1, self.w2, self.w3]);
        let b = ethers_core::types::U256([other.w0, other.w1, other.w2, other.w3]);
        let c = a.saturating_sub(b);
        U256 { w0: c.0[0], w1: c.0[1], w2: c.0[2], w3: c.0[3] }
    }

    /// Right shift by `shift` bits: the value divided by 2^shift, rounded down.
    ///
    /// Calls the `Shr` operator of `ethers_core::types::U256`, which moves whole
    /// words and carries the remaining bits across word boundaries.
    #[verifier::external_body]
    pub(crate) fn shr(self, shift: u32) -> (r: U256)
        requires
            shift < 256,
        ensures
            r@ == self@ / vstd::arithmetic::power2::pow2(shift as nat),
    {
        let a = ethers_core::types::U256([self.w0, self.w1, self.w2, self.w3]);
        let c = a >> shift;
        U256 { w0: c.0[0], w1: c.0[1], w2: c.0[2], w3: c.0[3] }
    }
}

/// The number that bytes spell out read most significant first.
pub open spec fn be_value(bytes: Seq<u8>) -> nat
    decreases bytes.len(),
{
    if bytes.len() == 0 {
        0
    } else {
        be_value(bytes.drop_last()) * 256 + bytes.last() as nat
    }
}

/// The value of at most 32 big-endian bytes.
///
/// Calls `ethers_core::types::U256::from_big_endian`, which left-pads the
/// slice with zeros to 32 bytes and reads four big-endian words; it asserts
/// that the slice holds at most 32 bytes, which `requires` ensures.
#[verifier::external_body]
pub(crate) fn u256_from_be_bytes(bytes: &[u8]) -> (r: U256)
    requires
        bytes@.len() <= 32,
    ensures
        r@ == be_value(bytes@),
{
    let c = ethers_core::types::U256::from_big_endian(bytes);
    U256 { w0: c.0[0], w1: c.0[1], w2: c.0[2], w3: c.0[3] }
}

} // verus!
