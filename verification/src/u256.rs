//! Unsigned 256-bit amounts with checked arithmetic.

use vstd::prelude::*;

verus! {

/// 2^64, the weight of the second limb.
pub open spec fn pow64() -> nat {
    0x1_0000_0000_0000_0000nat
}

/// 2^128, the weight of the third limb.
pub open spec fn pow128() -> nat {
    0x1_0000_0000_0000_0000_0000_0000_0000_0000nat
}

/// 2^192, the weight of the fourth limb.
pub open spec fn pow192() -> nat {
    0x1_0000_0000_0000_0000_0000_0000_0000_0000_0000_0000_0000_0000nat
}

/// 2^256, one more than the largest amount.
pub open spec fn pow256() -> nat {
    0x1_0000_0000_0000_0000_0000_0000_0000_0000_0000_0000_0000_0000_0000_0000_0000_0000nat
}

/// An unsigned 256-bit integer, held as four 64-bit limbs, least significant first.
#[derive(Clone, Copy, Debug, PartialEq, Eq, Structural)]
pub struct U256 {
    /// The least significant limb.
    pub w0: u64,
    /// The limb of weight 2^64.
    pub w1: u64,
    /// The limb of weight 2^128.
    pub w2: u64,
    /// The most significant limb, of weight 2^192.
    pub w3: u64,
}

impl View for U256 {
    type V = nat;

    /// The number that the four limbs stand for.
    open spec fn view(&self) -> nat {
        self.w0 as nat + self.w1 as nat * pow64() + self.w2 as nat * pow128() + self.w3 as nat
            * pow192()
    }
}

/// The decimal digit `d`, for `d` below ten.
pub open spec fn digit_char(d: nat) -> char {
    seq!['0', '1', '2', '3', '4', '5', '6', '7', '8', '9'][d as int]
}

/// The decimal numeral of `n`, without leading zeros; zero is written `0`.
pub open spec fn decimal(n: nat) -> Seq<char>
    decreases n,
{
    if n < 10 {
        seq![digit_char(n)]
    } else {
        decimal(n / 10).push(digit_char(n % 10))
    }
}

/// The bytes of `n`, least significant first, up to its last byte that is not zero.
pub open spec fn le_bytes(n: nat) -> Seq<u8>
    decreases n,
{
    if n == 0 {
        Seq::<u8>::empty()
    } else {
        seq![(n % 256) as u8] + le_bytes(n / 256)
    }
}

/// The serialised form of the amount `n`: the count of its bytes, then the bytes.
pub open spec fn amount_bytes(n: nat) -> Seq<u8> {
    seq![le_bytes(n).len() as u8] + le_bytes(n)
}

/// What a checked addition gives: the sum, if it is below 2^256.
pub open spec fn checked_sum(a: nat, b: nat) -> Option<nat> {
    if a + b < pow256() {
        Some(a + b)
    } else {
        None
    }
}

/// What a checked subtraction gives: the difference, if it is not negative.
pub open spec fn checked_difference(a: nat, b: nat) -> Option<nat> {
    if a >= b {
        Some((a - b) as nat)
    } else {
        None
    }
}

/// Calls `casper_types::U256::checked_add` on the two amounts, limb for limb.
/// Claims that it returns the sum where the sum is below 2^256 and `None` otherwise.
#[verifier::external_body]
fn outside_checked_add(a: U256, b: U256) -> (r: Option<U256>)
    ensures
        match r {
            Some(v) => checked_sum(a@, b@) == Some(v@),
            None => checked_sum(a@, b@) is None,
        },
{
    let x = casper_types::U256([a.w0, a.w1, a.w2, a.w3]);
    let y = casper_types::U256([b.w0, b.w1, b.w2, b.w3]);
    match x.checked_add(y) {
        Some(v) => Some(U256 { w0: v.0[0], w1: v.0[1], w2: v.0[2], w3: v.0[3] }),
        None => None,
    }
}

/// Calls `casper_types::U256::checked_sub` on the two amounts, limb for limb.
/// Claims that it returns the difference where `a` is at least `b` and `None` otherwise.
#[verifier::external_body]
fn outside_checked_sub(a: U256, b: U256) -> (r: Option<U256>)
    ensures
        match r {
            Some(v) => checked_difference(a@, b@) == Some(v@),
            None => checked_difference(a@, b@) is None,
        },
{
    let x = casper_types::U256([a.w0, a.w1, a.w2, a.w3]);
    let y = casper_types::U256([b.w0, b.w1, b.w2, b.w3]);
    match x.checked_sub(y) {
        Some(v) => Some(U256 { w0: v.0[0], w1: v.0[1], w2: v.0[2], w3: v.0[3] }),
        None => None,
    }
}

/// Compares two amounts with the `<` of `casper_types::U256`.
/// Claims that it orders them as the numbers they stand for.
#[verifier::external_body]
fn outside_less(a: U256, b: U256) -> (r: bool)
    ensures
        r == (a@ < b@),
{
    casper_types::U256([a.w0, a.w1, a.w2, a.w3]) < casper_types::U256([b.w0, b.w1, b.w2, b.w3])
}

/// Formats the amount with the `Display` of `casper_types::U256`.
/// Claims that the text is the decimal numeral of the amount.
#[verifier::external_body]
fn outside_decimal(a: U256) -> (r: String)
    ensures
        r@ == decimal(a@),
{
    casper_types::U256([a.w0, a.w1, a.w2, a.w3]).to_string()
}

impl U256 {
    /// The amount zero.
    pub fn zero() -> (r: U256)
        ensures
            r@ == 0,
    {
        U256 { w0: 0, w1: 0, w2: 0, w3: 0 }
    }

    /// The largest amount, 2^256 - 1.
    pub fn max_value() -> (r: U256)
        ensures
            r@ == pow256() - 1,
    {
        let r = U256 {
            w0: 0xffff_ffff_ffff_ffff,
            w1: 0xffff_ffff_ffff_ffff,
            w2: 0xffff_ffff_ffff_ffff,
            w3: 0xffff_ffff_ffff_ffff,
        };
        assert(r@ == pow256() - 1) by (nonlinear_arith)
            requires
                r@ == 0xffff_ffff_ffff_ffffnat + 0xffff_ffff_ffff_ffffnat * pow64()
                    + 0xffff_ffff_ffff_ffffnat * pow128() + 0xffff_ffff_ffff_ffffnat * pow192(),
                pow64() == 0x1_0000_0000_0000_0000nat,
                pow128() == pow64() * pow64(),
                pow192() == pow128() * pow64(),
                pow256() == pow192() * pow64(),
        ;
        r
    }

    /// The amount that a 64-bit number stands for.
    pub fn from_u64(v: u64) -> (r: U256)
        ensures
            r@ == v,
    {
        U256 { w0: v, w1: 0, w2: 0, w3: 0 }
    }

    /// Whether the amount is zero.
    pub fn is_zero(&self) -> (r: bool)
        ensures
            r == (self@ == 0),
    {
        proof {
            if self@ == 0 {
                lemma_u256_view_injective(*self, U256 { w0: 0, w1: 0, w2: 0, w3: 0 });
            }
        }
        self.w0 == 0 && self.w1 == 0 && self.w2 == 0 && self.w3 == 0
    }

    /// The sum of two amounts, or `None` where it does not fit in 256 bits.
    pub fn checked_add(self, other: U256) -> (r: Option<U256>)
        ensures
            match r {
                Some(v) => v@ == self@ + other@,
                None => self@ + other@ >= pow256(),
            },
    {
        outside_checked_add(self, other)
    }

    /// The difference of two amounts, or `None` where `other` is the larger.
    pub fn checked_sub(self, other: U256) -> (r: Option<U256>)
        ensures
            match r {
                Some(v) => v@ == self@ - other@,
                None => self@ < other@,
            },
    {
        outside_checked_sub(self, other)
    }

    /// Whether this amount is smaller than `other`.
    pub fn lt(&self, other: &U256) -> (r: bool)
        ensures
            r == (self@ < other@),
    {
        outside_less(*self, *other)
    }

    /// Whether this amount is at least `other`.
    pub fn ge(&self, other: &U256) -> (r: bool)
        ensures
            r == (self@ >= other@),
    {
        !outside_less(*self, *other)
    }

    /// The decimal numeral of the amount.
    pub fn to_string(&self) -> (r: String)
        ensures
            r@ == decimal(self@),
    {
        outside_decimal(*self)
    }
}

/// Two amounts that stand for the same number are the same value.
pub proof fn lemma_u256_view_injective(a: U256, b: U256)
    requires
        a@ == b@,
    ensures
        a == b,
{
    let p = pow64() as int;
    let lo_a = a.w0 as int;
    let lo_b = b.w0 as int;
    let hi_a = a.w1 as int + a.w2 as int * p + a.w3 as int * (p * p);
    let hi_b = b.w1 as int + b.w2 as int * p + b.w3 as int * (p * p);
    assert(p * p == pow128() && p * p * p == pow192()) by (nonlinear_arith)
        requires
            p == 0x1_0000_0000_0000_0000,
    ;
    assert(a@ == lo_a + p * hi_a) by (nonlinear_arith)
        requires
            a@ == lo_a + a.w1 as int * p + a.w2 as int * (p * p) + a.w3 as int * (p * p * p),
            hi_a == a.w1 as int + a.w2 as int * p + a.w3 as int * (p * p),
    ;
    assert(b@ == lo_b + p * hi_b) by (nonlinear_arith)
        requires
            b@ == lo_b + b.w1 as int * p + b.w2 as int * (p * p) + b.w3 as int * (p * p * p),
            hi_b == b.w1 as int + b.w2 as int * p + b.w3 as int * (p * p),
    ;
    lemma_split_unique(p, lo_a, hi_a, lo_b, hi_b);
    let mid_a = a.w2 as int + a.w3 as int * p;
    let mid_b = b.w2 as int + b.w3 as int * p;
    assert(hi_a == a.w1 as int + p * mid_a) by (nonlinear_arith)
        requires
            hi_a == a.w1 as int + a.w2 as int * p + a.w3 as int * (p * p),
            mid_a == a.w2 as int + a.w3 as int * p,
    ;
    assert(hi_b == b.w1 as int + p * mid_b) by (nonlinear_arith)
        requires
            hi_b == b.w1 as int + b.w2 as int * p + b.w3 as int * (p * p),
            mid_b == b.w2 as int + b.w3 as int * p,
    ;
    lemma_split_unique(p, a.w1 as int, mid_a, b.w1 as int, mid_b);
    assert(mid_a == a.w2 as int + p * a.w3 as int) by (nonlinear_arith)
        requires
            mid_a == a.w2 as int + a.w3 as int * p,
    ;
    assert(mid_b == b.w2 as int + p * b.w3 as int) by (nonlinear_arith)
        requires
            mid_b == b.w2 as int + b.w3 as int * p,
    ;
    lemma_split_unique(p, a.w2 as int, a.w3 as int, b.w2 as int, b.w3 as int);
}

/// A number splits in only one way into a digit below `p` and a multiple of `p`.
proof fn lemma_split_unique(p: int, lo_a: int, hi_a: int, lo_b: int, hi_b: int)
    requires
        p > 0,
        0 <= lo_a < p,
        0 <= lo_b < p,
        lo_a + p * hi_a == lo_b + p * hi_b,
    ensures
        lo_a == lo_b,
        hi_a == hi_b,
{
    assert(hi_a == hi_b) by (nonlinear_arith)
        requires
            p > 0,
            0 <= lo_a < p,
            0 <= lo_b < p,
            lo_a + p * hi_a == lo_b + p * hi_b,
    ;
    assert(p * hi_a == p * hi_b);
}

} // verus!
