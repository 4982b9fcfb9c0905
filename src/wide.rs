use vstd::prelude::*;
use primitive_types::U256;

use crate::error::PoolError;

verus! {

/// The weight of one 64-bit limb.
pub open spec fn limb_base() -> nat {
    0x1_0000_0000_0000_0000nat
}

/// One more than the largest value a `Wide` can hold (2^256).
pub open spec fn wide_limit() -> nat {
    limb_base() * limb_base() * limb_base() * limb_base()
}

/// An unsigned 256-bit integer, held as four 64-bit limbs, least significant first.
#[derive(Clone, Copy, Debug)]
pub struct Wide {
    pub limbs: [u64; 4],
}

impl Wide {
    /// The number the limbs stand for.
    pub open spec fn value(self) -> nat {
        self.limbs[0] as nat + limb_base() * (self.limbs[1] as nat + limb_base() * (
        self.limbs[2] as nat + limb_base() * (self.limbs[3] as nat)))
    }
}

/// The decimal digit character for `d` (below ten).
pub open spec fn digit_char(d: nat) -> char {
    seq!['0', '1', '2', '3', '4', '5', '6', '7', '8', '9'][d as int]
}

/// The decimal representation of `n`, without leading zeros.
pub open spec fn decimal_digits(n: nat) -> Seq<char>
    decreases n,
{
    if n < 10 {
        seq![digit_char(n)]
    } else {
        decimal_digits(n / 10).push(digit_char(n % 10))
    }
}

/// Relies on `From<u128> for primitive_types::U256`: the same number, 256 bits wide.
#[verifier::external_body]
pub(crate) fn widen(x: u128) -> (r: Wide)
    ensures
        r.value() == x,
{
    Wide { limbs: U256::from(x).0 }
}

/// Relies on `U256::checked_add`: the sum, or `None` when it needs more than 256 bits.
#[verifier::external_body]
pub(crate) fn wide_checked_add(a: Wide, b: Wide) -> (r: Option<Wide>)
    ensures
        match r {
            Some(s) => s.value() == a.value() + b.value(),
            None => a.value() + b.value() >= wide_limit(),
        },
{
    match U256(a.limbs).checked_add(U256(b.limbs)) {
        Some(s) => Some(Wide { limbs: s.0 }),
        None => None,
    }
}

/// Relies on `U256::checked_sub`: the difference, or `None` when it would be negative.
#[verifier::external_body]
pub(crate) fn wide_checked_sub(a: Wide, b: Wide) -> (r: Option<Wide>)
    ensures
        match r {
            Some(d) => d.value() == a.value() - b.value(),
            None => a.value() < b.value(),
        },
{
    match U256(a.limbs).checked_sub(U256(b.limbs)) {
        Some(d) => Some(Wide { limbs: d.0 }),
        None => None,
    }
}

/// Relies on `U256::checked_mul`: the product, or `None` when it needs more than 256 bits.
#[verifier::external_body]
pub(crate) fn wide_checked_mul(a: Wide, b: Wide) -> (r: Option<Wide>)
    ensures
        match r {
            Some(p) => p.value() == a.value() * b.value(),
            None => a.value() * b.value() >= wide_limit(),
        },
{
    match U256(a.limbs).checked_mul(U256(b.limbs)) {
        Some(p) => Some(Wide { limbs: p.0 }),
        None => None,
    }
}

/// Relies on `U256::checked_div`: the truncated quotient, or `None` for a zero divisor.
#[verifier::external_body]
pub(crate) fn wide_checked_div(a: Wide, b: Wide) -> (r: Option<Wide>)
    ensures
        match r {
            Some(q) => b.value() != 0 && q.value() == a.value() / b.value(),
            None => b.value() == 0,
        },
{
    match U256(a.limbs).checked_div(U256(b.limbs)) {
        Some(q) => Some(Wide { limbs: q.0 }),
        None => None,
    }
}

/// Relies on `TryFrom<U256> for u128`: the number, or `None` when it needs more than 128 bits.
#[verifier::external_body]
pub(crate) fn wide_to_u128(a: Wide) -> (r: Option<u128>)
    ensures
        match r {
            Some(x) => x == a.value(),
            None => a.value() > u128::MAX,
        },
{
    match u128::try_from(U256(a.limbs)) {
        Ok(x) => Some(x),
        Err(_) => None,
    }
}

/// Relies on the `Display` impl of `U256`: its decimal digits.
#[verifier::external_body]
pub(crate) fn wide_to_decimal(a: Wide) -> (r: String)
    ensures
        r@ == decimal_digits(a.value()),
{
    U256(a.limbs).to_string()
}

/// The product of two 128-bit amounts, computed at 256 bits.
///
/// The product always fits; the overflow check is still made and would
/// report `ComputationOverflow`.
pub fn compute_tokens_ratio(token1_amount: u128, token2_amount: u128) -> (r: Result<Wide, PoolError>)
    ensures
        r is Ok,
        r->Ok_0.value() == token1_amount * token2_amount,
{
    let a = widen(token1_amount);
    let b = widen(token2_amount);
    proof {
        lemma_product_fits(token1_amount as nat, token2_amount as nat);
    }
    match wide_checked_mul(a, b) {
        Some(p) => Ok(p),
        None => Err(PoolError::ComputationOverflow),
    }
}

/// Two numbers below 2^128 multiply to a number below 2^256.
pub proof fn lemma_product_fits(a: nat, b: nat)
    requires
        a <= u128::MAX,
        b <= u128::MAX,
    ensures
        a * b < wide_limit(),
{
    let m: nat = limb_base() * limb_base();
    assert(m == 0x1_0000_0000_0000_0000_0000_0000_0000_0000nat);
    assert(wide_limit() == m * m) by (nonlinear_arith)
        requires wide_limit() == limb_base() * limb_base() * limb_base() * limb_base(), m == limb_base() * limb_base();
    assert(a * b < m * m) by (nonlinear_arith)
        requires a < m, b < m;
}

/// The value of the 256-bit limit.
pub proof fn lemma_wide_limit()
    ensures
        wide_limit() == 0x1_0000_0000_0000_0000_0000_0000_0000_0000_0000_0000_0000_0000_0000_0000_0000_0000nat,
{
}

} // verus!
