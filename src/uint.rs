//! A 256-bit unsigned integer held as four little-endian 64-bit words.
use vstd::prelude::*;

verus! {

/// 2^64, the weight of the second word.
pub open spec fn w1() -> nat {
    0x1_0000_0000_0000_0000nat
}

/// 2^128, the weight of the third word.
pub open spec fn w2() -> nat {
    0x1_0000_0000_0000_0000_0000_0000_0000_0000nat
}

/// 2^192, the weight of the fourth word.
pub open spec fn w3() -> nat {
    0x1_0000_0000_0000_0000_0000_0000_0000_0000_0000_0000_0000_0000nat
}

/// 2^256, one more than the largest value.
pub open spec fn modulus() -> nat {
    0x1_0000_0000_0000_0000_0000_0000_0000_0000_0000_0000_0000_0000_0000_0000_0000_0000nat
}

/// An unsigned 256-bit quantity (token amount, nonce, gas, gas price).
/// `w0` is the least significant word.
#[derive(Clone, Copy, Debug, PartialEq, Eq, Structural)]
pub struct Uint256 {
    pub w0: u64,
    pub w1: u64,
    pub w2: u64,
    pub w3: u64,
}

impl Uint256 {
    /// The number this value stands for.
    pub open spec fn value(self) -> nat {
        self.w0 as nat + self.w1 as nat * w1() + self.w2 as nat * w2() + self.w3 as nat * w3()
    }

    pub fn zero() -> (r: Uint256)
        ensures
            r.value() == 0,
    {
        Uint256 { w0: 0, w1: 0, w2: 0, w3: 0 }
    }

    pub fn from_u64(x: u64) -> (r: Uint256)
        ensures
            r.value() == x,
    {
        Uint256 { w0: x, w1: 0, w2: 0, w3: 0 }
    }

    /// Builds a value from its four words, least significant first.
    pub fn from_words(words: [u64; 4]) -> (r: Uint256)
        ensures
            r.w0 == words[0],
            r.w1 == words[1],
            r.w2 == words[2],
            r.w3 == words[3],
    {
        Uint256 { w0: words[0], w1: words[1], w2: words[2], w3: words[3] }
    }

    /// The four words, least significant first.
    pub fn words(&self) -> (r: [u64; 4])
        ensures
            r@ == seq![self.w0, self.w1, self.w2, self.w3],
    {
        let r = [self.w0, self.w1, self.w2, self.w3];
        assert(r@ =~= seq![self.w0, self.w1, self.w2, self.w3]);
        r
    }

    pub fn is_zero(&self) -> (r: bool)
        ensures
            r == (self.value() == 0),
    {
        proof {
            lemma_value_bounds(*self);
        }
        self.w0 == 0 && self.w1 == 0 && self.w2 == 0 && self.w3 == 0
    }

    /// Strict order on the numbers.
    pub fn lt(&self, other: &Uint256) -> (r: bool)
        ensures
            r == (self.value() < other.value()),
    {
        proof {
            lemma_value_bounds(*self);
            lemma_value_bounds(*other);
        }
        if self.w3 != other.w3 {
            self.w3 < other.w3
        } else if self.w2 != other.w2 {
            self.w2 < other.w2
        } else if self.w1 != other.w1 {
            self.w1 < other.w1
        } else {
            self.w0 < other.w0
        }
    }

    /// The larger of two values.
    pub fn max(&self, other: &Uint256) -> (r: Uint256)
        ensures
            r.value() == if self.value() < other.value() { other.value() } else { self.value() },
            r.value() >= self.value(),
            r.value() >= other.value(),
    {
        if self.lt(other) {
            *other
        } else {
            *self
        }
    }

    /// The sum, or `None` where it does not fit in 256 bits.
    pub fn checked_add(&self, other: &Uint256) -> (r: Option<Uint256>)
        ensures
            r is Some <==> self.value() + other.value() < modulus(),
            r matches Some(s) ==> s.value() == self.value() + other.value(),
    {
        let (s0, c0) = add_word(self.w0, other.w0, 0);
        let (s1, c1) = add_word(self.w1, other.w1, c0);
        let (s2, c2) = add_word(self.w2, other.w2, c1);
        let (s3, c3) = add_word(self.w3, other.w3, c2);
        let s = Uint256 { w0: s0, w1: s1, w2: s2, w3: s3 };
        proof {
            lemma_value_bounds(s);
            assert(s.value() + c3 * modulus() == self.value() + other.value());
        }
        if c3 == 0 {
            Some(s)
        } else {
            None
        }
    }

    /// The successor, or `None` for the largest value.
    pub fn checked_inc(&self) -> (r: Option<Uint256>)
        ensures
            r is Some <==> self.value() + 1 < modulus(),
            r matches Some(s) ==> s.value() == self.value() + 1,
    {
        self.checked_add(&Uint256::from_u64(1))
    }
}

/// Adds two words and an incoming carry; returns the low word and the carry out.
fn add_word(a: u64, b: u64, c: u64) -> (r: (u64, u64))
    requires
        c <= 1,
    ensures
        r.1 <= 1,
        r.0 as nat + r.1 as nat * w1() == a as nat + b as nat + c as nat,
{
    let s: u128 = a as u128 + b as u128 + c as u128;
    if s >= 0x1_0000_0000_0000_0000u128 {
        ((s - 0x1_0000_0000_0000_0000u128) as u64, 1)
    } else {
        (s as u64, 0)
    }
}

/// Bounds on the value: each word's part lies below the next weight.
pub proof fn lemma_value_bounds(x: Uint256)
    ensures
        x.w0 as nat + x.w1 as nat * w1() < w2(),
        x.w0 as nat + x.w1 as nat * w1() + x.w2 as nat * w2() < w3(),
        x.value() < modulus(),
        x.value() == 0 <==> (x.w0 == 0 && x.w1 == 0 && x.w2 == 0 && x.w3 == 0),
{
}

} // verus!
