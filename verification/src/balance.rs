//! The initial balance of the token bridge: an amount of ether, given as a
//! decimal string, turned into wei with rust_decimal's arithmetic.
//!
//! A decimal is handled here by its parts `(negative, mantissa, scale)`: its
//! value is the mantissa divided by ten to the scale, negated when the sign
//! flag is set. rust_decimal keeps the mantissa below 2^96 and the scale at
//! most 28.
use vstd::prelude::*;
use vstd::string::StringExecFns;

use crate::rpcs::error::labelled;

verus! {

/// A decimal as its sign flag, mantissa and scale.
pub type DecimalParts = (bool, u128, u32);

/// What `Decimal::from_str` gives for `s`, as parts, or the text of its error.
pub uninterp spec fn decimal_parsed(s: Seq<char>) -> Result<(bool, u128, u32), Seq<char>>;

/// What `Decimal::checked_mul` gives for two decimals, as parts.
pub uninterp spec fn decimal_product(a: (bool, u128, u32), b: (bool, u128, u32)) -> Option<
    (bool, u128, u32),
>;


/// Whether parts are those of a decimal rust_decimal can hold.
pub open spec fn decimal_parts_ok(p: (bool, u128, u32)) -> bool {
    p.1 < 0x1_0000_0000_0000_0000_0000_0000 && p.2 <= 28
}

/// Ten to the `n`.
pub open spec fn pow10(n: nat) -> nat
    decreases n,
{
    if n == 0 {
        1
    } else {
        10 * pow10((n - 1) as nat)
    }
}

/// What `Decimal::round` gives for a decimal: a whole number is kept as it
/// is; otherwise the mantissa is divided by ten to the scale, and the
/// quotient goes up by one when the remainder is above half the divisor, or
/// exactly half with an odd quotient (halves to even); zero keeps its sign
/// flag, a result that rounds to zero loses it.
pub open spec fn decimal_round_of(p: (bool, u128, u32)) -> (bool, u128, u32) {
    if p.2 == 0 {
        p
    } else if p.1 == 0 {
        (p.0, 0u128, 0u32)
    } else {
        let d = pow10(p.2 as nat);
        let q = p.1 as nat / d;
        let rem = p.1 as nat % d;
        let r = if rem > d / 2 || (rem == d / 2 && q % 2 == 1) {
            q + 1
        } else {
            q
        };
        (if r == 0 {
            false
        } else {
            p.0
        }, r as u128, 0u32)
    }
}

/// The product `Decimal::checked_mul` gives where it is exact: the
/// mantissas' product fits in 96 bits and the scales add up to at most 28.
/// A zero factor gives a plain zero.
pub open spec fn exact_product(a: (bool, u128, u32), b: (bool, u128, u32)) -> (bool, u128, u32) {
    if a.1 == 0 || b.1 == 0 {
        (false, 0u128, 0u32)
    } else {
        (a.0 != b.0, (a.1 * b.1) as u128, (a.2 + b.2) as u32)
    }
}

/// What `ToPrimitive::to_u128` gives for a decimal: nothing when its sign
/// flag is set, else its integer part.
pub open spec fn decimal_to_u128_of(p: (bool, u128, u32)) -> Option<u128> {
    if p.0 {
        None
    } else {
        Some(((p.1 as nat) / pow10(p.2 as nat)) as u128)
    }
}

/// Calls `Decimal::from_str` and hands out the parts of the decimal, or the
/// text of the error; what it parses is only named.
#[verifier::external_body]
fn decimal_from_str(s: &str) -> (r: Result<DecimalParts, String>)
    ensures
        match r {
            Ok(p) => decimal_parsed(s@) == Ok::<(bool, u128, u32), Seq<char>>(p)
                && decimal_parts_ok(p),
            Err(e) => decimal_parsed(s@) == Err::<(bool, u128, u32), Seq<char>>(e@),
        },
{
    <rust_decimal::Decimal as std::str::FromStr>::from_str(s).map(
        |d| (d.is_sign_negative(), d.mantissa().unsigned_abs(), d.scale()),
    ).map_err(|e| e.to_string())
}

/// Calls `Decimal::checked_mul` on two decimals rebuilt from their parts
/// and hands out the product's parts; `None` where the product overflows.
/// Where the product is exact it is stated; where it needs more than 96 bits
/// or a scale above 28, rust_decimal rounds it, and that result is only
/// named.
#[verifier::external_body]
fn decimal_mul(a: DecimalParts, b: DecimalParts) -> (r: Option<DecimalParts>)
    requires
        decimal_parts_ok(a),
        decimal_parts_ok(b),
    ensures
        r == decimal_product(a, b),
        r matches Some(p) ==> decimal_parts_ok(p),
        a.1 * b.1 < 0x1_0000_0000_0000_0000_0000_0000 && a.2 + b.2 <= 28 ==> r == Some(
            exact_product(a, b),
        ),
{
    let mut x = rust_decimal::Decimal::from_i128_with_scale(a.1 as i128, a.2);
    x.set_sign_negative(a.0);
    let mut y = rust_decimal::Decimal::from_i128_with_scale(b.1 as i128, b.2);
    y.set_sign_negative(b.0);
    x.checked_mul(y).map(|d| (d.is_sign_negative(), d.mantissa().unsigned_abs(), d.scale()))
}

/// Calls `Decimal::round` (to a whole number, halves to even) on a decimal
/// rebuilt from its parts and hands out the result's parts.
#[verifier::external_body]
fn decimal_round(a: DecimalParts) -> (r: DecimalParts)
    requires
        decimal_parts_ok(a),
    ensures
        r == decimal_round_of(a),
        decimal_parts_ok(r),
{
    let mut x = rust_decimal::Decimal::from_i128_with_scale(a.1 as i128, a.2);
    x.set_sign_negative(a.0);
    let d = x.round();
    (d.is_sign_negative(), d.mantissa().unsigned_abs(), d.scale())
}

/// Calls `ToPrimitive::to_u128` on a decimal rebuilt from its parts. Its
/// source gives nothing for a set sign flag and otherwise the truncated
/// value, which a 96-bit mantissa always fits.
#[verifier::external_body]
fn decimal_to_u128(a: DecimalParts) -> (r: Option<u128>)
    requires
        decimal_parts_ok(a),
    ensures
        r == decimal_to_u128_of(a),
{
    let mut x = rust_decimal::Decimal::from_i128_with_scale(a.1 as i128, a.2);
    x.set_sign_negative(a.0);
    rust_decimal::prelude::ToPrimitive::to_u128(&x)
}

/// Wei per ether, as decimal parts.
pub open spec fn wei_per_ether() -> (bool, u128, u32) {
    (false, 1_000_000_000_000_000_000u128, 0u32)
}

/// Whether scaling the ether amount `raw` to wei overflows rust_decimal:
/// `raw` parses, is not negative, and its product with 10^18 does not fit.
pub open spec fn balance_overflows(raw: Seq<char>) -> bool {
    match decimal_parsed(raw) {
        Ok(d) => !d.0 && decimal_product(d, wei_per_ether()) is None,
        Err(_) => false,
    }
}

/// The outcome of parsing an initial balance `raw` in ether into wei, where
/// the scaling does not overflow: the error text, or the wei amount.
pub open spec fn initial_balance_of(raw: Seq<char>) -> Result<u128, Seq<char>> {
    match decimal_parsed(raw) {
        Err(e) => Err("failed to parse decimal: "@ + e),
        Ok(d) => if d.0 {
            Err("initial balance must be non-negative"@)
        } else {
            match decimal_product(d, wei_per_ether()) {
                None => Err("initial balance too large"@),
                Some(p) => match decimal_to_u128_of(decimal_round_of(p)) {
                    None => Err("initial balance too large"@),
                    Some(w) => Ok(w),
                },
            }
        },
    }
}

/// Parses an initial balance given in ether into wei, rounding to the
/// nearest wei (halves to even). No balance gives `Ok(None)`; text that is
/// not a decimal, a negative amount, and an amount whose wei do not fit in
/// a `u128` are errors. Amounts whose scaling to wei overflows rust_decimal
/// stop the program and are excluded; `try_parse_initial_balance` tells them
/// apart.
pub fn parse_initial_balance(raw: Option<&str>) -> (r: Result<Option<u128>, String>)
    requires
        raw matches Some(s) ==> !balance_overflows(s@),
    ensures
        raw is None ==> r == Ok::<Option<u128>, String>(None),
        raw matches Some(s) ==> match initial_balance_of(s@) {
            Ok(w) => r == Ok::<Option<u128>, String>(Some(w)),
            Err(m) => r matches Err(e) && e@ == m,
        },
{
    let s = match raw {
        None => return Ok(None),
        Some(s) => s,
    };
    let d = match decimal_from_str(s) {
        Err(e) => return Err(labelled("failed to parse decimal: ", e.as_str())),
        Ok(d) => d,
    };
    if d.0 {
        return Err("initial balance must be non-negative".to_owned());
    }
    let p = match decimal_mul(d, (false, 1_000_000_000_000_000_000u128, 0u32)) {
        None => return Err("initial balance too large".to_owned()),
        Some(p) => p,
    };
    let q = decimal_round(p);
    match decimal_to_u128(q) {
        None => Err("initial balance too large".to_owned()),
        Some(w) => Ok(Some(w)),
    }
}

/// Whether scaling the ether amount `s` to wei overflows rust_decimal.
fn scaling_overflows(s: &str) -> (b: bool)
    ensures
        b == balance_overflows(s@),
{
    match decimal_from_str(s) {
        Err(_) => false,
        Ok(d) => !d.0 && decimal_mul(d, (false, 1_000_000_000_000_000_000u128, 0u32)).is_none(),
    }
}

/// `parse_initial_balance`, or `None` where scaling the amount to wei
/// overflows rust_decimal.
pub fn try_parse_initial_balance(raw: Option<&str>) -> (r: Option<Result<Option<u128>, String>>)
    ensures
        raw is None ==> r == Some(Ok::<Option<u128>, String>(None)),
        raw matches Some(s) ==> (r is None <==> balance_overflows(s@)),
        raw matches Some(s) ==> (r matches Some(x) ==> match initial_balance_of(s@) {
            Ok(w) => x == Ok::<Option<u128>, String>(Some(w)),
            Err(m) => x matches Err(e) && e@ == m,
        }),
{
    if let Some(s) = raw {
        if scaling_overflows(s) {
            return None;
        }
    }
    Some(parse_initial_balance(raw))
}

} // verus!
