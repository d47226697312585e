//! Values of VDBE registers and result columns.

use vstd::prelude::*;

use vstd::arithmetic::power2::{lemma2_to64, lemma2_to64_rest, lemma_pow2_strictly_increases, pow2};
use vstd::bits::{lemma_u64_shl_is_mul, lemma_u64_shr_is_div};
use crate::text::{decimal, hex_of, law_decimal_parses_back, parse_i64, parsed_i64, push_decimal, push_hex};

verus! {

/// A SQLite value that can be stored in a VDBE register or returned as a
/// result.
///
/// A `Real` is held as the IEEE-754 bit pattern of its 64-bit float
/// together with the float's `Display` rendering.
#[derive(Debug, Clone, PartialEq)]
pub enum Value {
    /// NULL value
    Null,
    /// 64-bit signed integer
    Integer(i64),
    /// 64-bit floating point, by bit pattern and rendering
    Real { bits: u64, text: String },
    /// UTF-8 text string
    Text(String),
    /// Binary blob
    Blob(Vec<u8>),
}

/// The biased exponent field of a 64-bit float's bit pattern.
pub open spec fn float_exponent(bits: u64) -> int {
    ((bits >> 52u64) & 0x7ffu64) as int
}

/// The fraction field of a 64-bit float's bit pattern.
pub open spec fn float_fraction(bits: u64) -> int {
    (bits & 0xf_ffff_ffff_ffffu64) as int
}

/// The sign bit of a 64-bit float's bit pattern.
pub open spec fn float_negative(bits: u64) -> bool {
    (bits >> 63u64) == 1u64
}

/// The magnitude of a finite float, rounded toward zero to an integer:
/// subnormals and zero give 0, a normal float is `(2^52 + fraction) *
/// 2^(exponent - 1075)`.
pub open spec fn float_truncated_magnitude(bits: u64) -> int {
    let e = float_exponent(bits);
    let m = float_fraction(bits) + pow2(52);
    if e == 0 {
        0
    } else if e >= 1075 {
        m * pow2((e - 1075) as nat)
    } else {
        m / (pow2((1075 - e) as nat) as int)
    }
}

/// What casting the float of bit pattern `bits` to `i64` gives: NaN is 0,
/// other values are rounded toward zero and saturate at `i64::MIN` and
/// `i64::MAX` (infinities included).
pub open spec fn float_to_i64(bits: u64) -> i64 {
    if float_exponent(bits) == 0x7ff {
        if float_fraction(bits) != 0 {
            0
        } else if float_negative(bits) {
            i64::MIN
        } else {
            i64::MAX
        }
    } else {
        let t = if float_negative(bits) {
            -float_truncated_magnitude(bits)
        } else {
            float_truncated_magnitude(bits)
        };
        if t > i64::MAX {
            i64::MAX
        } else if t < i64::MIN {
            i64::MIN
        } else {
            t as i64
        }
    }
}

/// Casts the 64-bit float of bit pattern `bits` to `i64`.
pub fn float_bits_to_i64(bits: u64) -> (r: i64)
    ensures
        r == float_to_i64(bits),
{
    let e: u64 = (bits >> 52u64) & 0x7ffu64;
    let frac: u64 = bits & 0xf_ffff_ffff_ffffu64;
    let negative: bool = (bits >> 63u64) == 1u64;
    if e == 0x7ff {
        if frac != 0 {
            return 0;
        } else if negative {
            return i64::MIN;
        } else {
            return i64::MAX;
        }
    }
    proof {
        lemma2_to64();
        lemma2_to64_rest();
        assert(frac <= 0xf_ffff_ffff_ffffu64) by (bit_vector)
            requires
                frac == bits & 0xf_ffff_ffff_ffffu64,
        ;
        assert(e <= 0x7ffu64) by (bit_vector)
            requires
                e == (bits >> 52u64) & 0x7ffu64,
        ;
    }
    let m: u64 = frac | 0x10_0000_0000_0000u64;
    proof {
        assert(m == frac + 0x10_0000_0000_0000u64) by (bit_vector)
            requires
                frac <= 0xf_ffff_ffff_ffffu64,
                m == frac | 0x10_0000_0000_0000u64,
        ;
    }
    if e < 1023 {
        proof {
            if e != 0 {
                let k = (1075 - e) as nat;
                if k > 53 {
                    lemma_pow2_strictly_increases(53, k);
                }
                assert(m < pow2(k));
                vstd::arithmetic::div_mod::lemma_basic_div(m as int, pow2(k) as int);
            }
        }
        return 0;
    }
    if e >= 1086 {
        proof {
            if e > 1086 {
                lemma_pow2_strictly_increases(11, (e - 1075) as nat);
            }
            vstd::arithmetic::mul::lemma_mul_inequality(
                pow2(52) as int,
                m as int,
                pow2((e - 1075) as nat) as int,
            );
            vstd::arithmetic::mul::lemma_mul_inequality(
                pow2(11) as int,
                pow2((e - 1075) as nat) as int,
                pow2(52) as int,
            );
            vstd::arithmetic::mul::lemma_mul_is_commutative(
                pow2(52) as int,
                pow2((e - 1075) as nat) as int,
            );
        }
        if negative {
            return i64::MIN;
        } else {
            return i64::MAX;
        }
    }
    let mag: u64 = if e >= 1075 {
        proof {
            let k = (e - 1075) as nat;
            if k < 10 {
                lemma_pow2_strictly_increases(k, 10);
            }
            vstd::arithmetic::mul::lemma_mul_inequality(
                pow2(k) as int,
                pow2(10) as int,
                m as int,
            );
            vstd::arithmetic::mul::lemma_mul_is_commutative(m as int, pow2(k) as int);
            lemma_u64_shl_is_mul(m, (e - 1075) as u64);
        }
        m << (e - 1075)
    } else {
        proof {
            lemma_u64_shr_is_div(m, (1075 - e) as u64);
            vstd::arithmetic::div_mod::lemma_div_is_ordered_by_denominator(
                m as int,
                1,
                pow2((1075 - e) as nat) as int,
            );
            vstd::arithmetic::power2::lemma_pow2_pos((1075 - e) as nat);
        }
        m >> (1075 - e)
    };
    if negative {
        -(mag as i64)
    } else {
        mag as i64
    }
}

/// The text a value converts to: `NULL`, an integer in decimal, a float by
/// its rendering, text as itself, a blob as `X'` + upper-case hex + `'`.
pub open spec fn lossy_text(v: Value) -> Seq<char> {
    match v {
        Value::Null => "NULL"@,
        Value::Integer(i) => decimal(i as int),
        Value::Real { text, .. } => text@,
        Value::Text(s) => s@,
        Value::Blob(b) => "X'"@ + hex_of(b@) + "'"@,
    }
}

/// The integer a value coerces to: an integer itself, a float rounded
/// toward zero (saturating), text that parses as an `i64`; nothing for
/// NULL, blobs and other text.
pub open spec fn integer_of(v: Value) -> Option<i64> {
    match v {
        Value::Integer(i) => Some(i),
        Value::Real { bits, .. } => Some(float_to_i64(bits)),
        Value::Text(s) => parsed_i64(s@),
        _ => None,
    }
}

impl Value {
    /// Check if the value is NULL
    pub fn is_null(&self) -> (b: bool)
        ensures
            b == (*self is Null),
    {
        matches!(self, Value::Null)
    }

    /// Check if the value is an integer
    pub fn is_integer(&self) -> (b: bool)
        ensures
            b == (*self is Integer),
    {
        matches!(self, Value::Integer(_))
    }

    /// Check if the value is a real (float)
    pub fn is_real(&self) -> (b: bool)
        ensures
            b == (*self is Real),
    {
        matches!(self, Value::Real { .. })
    }

    /// Check if the value is text
    pub fn is_text(&self) -> (b: bool)
        ensures
            b == (*self is Text),
    {
        matches!(self, Value::Text(_))
    }

    /// Check if the value is a blob
    pub fn is_blob(&self) -> (b: bool)
        ensures
            b == (*self is Blob),
    {
        matches!(self, Value::Blob(_))
    }

    /// Get the value as an integer, with type coercion
    ///
    /// - Integer: returns the value
    /// - Real: truncates to integer
    /// - Text: attempts to parse
    /// - Blob/Null: returns None
    pub fn as_integer(&self) -> (r: Option<i64>)
        ensures
            r == integer_of(*self),
    {
        match self {
            Value::Integer(i) => Some(*i),
            Value::Real { bits, .. } => Some(float_bits_to_i64(*bits)),
            Value::Text(s) => parse_i64(s.as_str()),
            Value::Null | Value::Blob(_) => None,
        }
    }

    /// Get the value as text
    ///
    /// Only returns Some for Text values (no coercion)
    pub fn as_text(&self) -> (r: Option<&str>)
        ensures
            r is Some <==> *self is Text,
            r matches Some(t) ==> *self matches Value::Text(s) && t@ == s@,
    {
        match self {
            Value::Text(s) => Some(s.as_str()),
            _ => None,
        }
    }

    /// Get the value as a blob
    ///
    /// Only returns Some for Blob values (no coercion)
    pub fn as_blob(&self) -> (r: Option<&[u8]>)
        ensures
            r is Some <==> *self is Blob,
            r matches Some(bs) ==> *self matches Value::Blob(b) && bs@ == b@,
    {
        match self {
            Value::Blob(b) => Some(b.as_slice()),
            _ => None,
        }
    }

    /// Convert to string representation
    pub fn to_string_lossy(&self) -> (s: String)
        ensures
            s@ == lossy_text(*self),
    {
        match self {
            Value::Null => String::from_str("NULL"),
            Value::Integer(i) => {
                let mut s = String::new();
                push_decimal(&mut s, *i);
                proof {
                    assert(s@ =~= lossy_text(*self));
                }
                s
            },
            Value::Real { text, .. } => text.clone(),
            Value::Text(t) => t.clone(),
            Value::Blob(b) => {
                let mut s = String::from_str("X'");
                push_hex(&mut s, b.as_slice());
                s.append("'");
                s
            },
        }
    }
}

/// An integer's text, read back as an integer, is that integer: the text
/// of `Value::Integer(i)` parses as `i`.
pub proof fn law_integer_text_roundtrip(i: i64)
    ensures
        parsed_i64(lossy_text(Value::Integer(i))) == Some(i),
        integer_of(Value::Integer(i)) == Some(i),
{
    law_decimal_parses_back(i);
}

/// Casting a float to an integer is symmetric in its sign: clearing the sign
/// bit gives a nonnegative integer, and setting it gives that integer
/// negated (or `i64::MIN` where the negation saturates). NaN is left out.
pub proof fn law_float_cast_sign(bits: u64)
    requires
        !(float_exponent(bits) == 0x7ff && float_fraction(bits) != 0),
    ensures
        ({
            let pos = bits & 0x7fff_ffff_ffff_ffffu64;
            let neg = bits | 0x8000_0000_0000_0000u64;
            &&& 0 <= float_to_i64(pos)
            &&& float_to_i64(neg) <= 0
            &&& float_to_i64(pos) < i64::MAX ==> float_to_i64(neg) == -float_to_i64(pos)
            &&& float_to_i64(neg) == i64::MIN || float_to_i64(neg) == -float_to_i64(pos)
            &&& float_to_i64(bits) == if float_negative(bits) {
                float_to_i64(neg)
            } else {
                float_to_i64(pos)
            }
        }),
{
    let pos = bits & 0x7fff_ffff_ffff_ffffu64;
    let neg = bits | 0x8000_0000_0000_0000u64;
    assert(((pos >> 52u64) & 0x7ffu64) == ((bits >> 52u64) & 0x7ffu64)) by (bit_vector)
        requires
            pos == bits & 0x7fff_ffff_ffff_ffffu64,
    ;
    assert(((neg >> 52u64) & 0x7ffu64) == ((bits >> 52u64) & 0x7ffu64)) by (bit_vector)
        requires
            neg == bits | 0x8000_0000_0000_0000u64,
    ;
    assert((pos & 0xf_ffff_ffff_ffffu64) == (bits & 0xf_ffff_ffff_ffffu64)) by (bit_vector)
        requires
            pos == bits & 0x7fff_ffff_ffff_ffffu64,
    ;
    assert((neg & 0xf_ffff_ffff_ffffu64) == (bits & 0xf_ffff_ffff_ffffu64)) by (bit_vector)
        requires
            neg == bits | 0x8000_0000_0000_0000u64,
    ;
    assert((pos >> 63u64) == 0u64) by (bit_vector)
        requires
            pos == bits & 0x7fff_ffff_ffff_ffffu64,
    ;
    assert((neg >> 63u64) == 1u64) by (bit_vector)
        requires
            neg == bits | 0x8000_0000_0000_0000u64,
    ;
    assert((bits >> 63u64) == 1u64 ==> bits == neg) by (bit_vector)
        requires
            neg == bits | 0x8000_0000_0000_0000u64,
    ;
    assert((bits >> 63u64) != 1u64 ==> bits == pos) by (bit_vector)
        requires
            pos == bits & 0x7fff_ffff_ffff_ffffu64,
    ;
    assert(float_truncated_magnitude(pos) == float_truncated_magnitude(bits));
    assert(float_truncated_magnitude(neg) == float_truncated_magnitude(bits));
    lemma_truncated_magnitude_nonneg(bits);
}

proof fn lemma_truncated_magnitude_nonneg(bits: u64)
    ensures
        float_truncated_magnitude(bits) >= 0,
{
    let e = float_exponent(bits);
    let m = float_fraction(bits) + pow2(52);
    vstd::arithmetic::power2::lemma_pow2_pos(52);
    assert(float_fraction(bits) >= 0);
    if e >= 1075 {
        vstd::arithmetic::power2::lemma_pow2_pos((e - 1075) as nat);
        vstd::arithmetic::mul::lemma_mul_nonnegative(m, pow2((e - 1075) as nat) as int);
    } else if e != 0 {
        vstd::arithmetic::power2::lemma_pow2_pos((1075 - e) as nat);
        vstd::arithmetic::div_mod::lemma_div_pos_is_pos(m, pow2((1075 - e) as nat) as int);
    }
}

/// Powers of two that fit in an `i64` cast exactly: the float `2^n`
/// (biased exponent `1023 + n`, no fraction) gives the integer `2^n`.
pub proof fn law_float_cast_powers_of_two(n: u64)
    requires
        n < 63,
    ensures
        float_to_i64(((1023 + n) as u64) << 52u64) == pow2(n as nat),
{
    let bits: u64 = ((1023 + n) as u64) << 52u64;
    assert(((bits >> 52u64) & 0x7ffu64) == 1023 + n) by (bit_vector)
        requires
            n < 63,
            bits == ((1023 + n) as u64) << 52u64,
    ;
    assert((bits & 0xf_ffff_ffff_ffffu64) == 0) by (bit_vector)
        requires
            n < 63,
            bits == ((1023 + n) as u64) << 52u64,
    ;
    assert((bits >> 63u64) == 0u64) by (bit_vector)
        requires
            n < 63,
            bits == ((1023 + n) as u64) << 52u64,
    ;
    let e = float_exponent(bits);
    assert(e == 1023 + n);
    if n >= 52 {
        vstd::arithmetic::power2::lemma_pow2_adds(52, (n - 52) as nat);
        assert(float_truncated_magnitude(bits) == pow2(n as nat));
    } else {
        vstd::arithmetic::power2::lemma_pow2_adds(n as nat, (52 - n) as nat);
        vstd::arithmetic::power2::lemma_pow2_pos((52 - n) as nat);
        vstd::arithmetic::div_mod::lemma_div_multiples_vanish(
            pow2(n as nat) as int,
            pow2((52 - n) as nat) as int,
        );
        vstd::arithmetic::mul::lemma_mul_is_commutative(
            pow2(n as nat) as int,
            pow2((52 - n) as nat) as int,
        );
        assert(float_truncated_magnitude(bits) == pow2(n as nat));
    }
    vstd::arithmetic::power2::lemma_pow2_strictly_increases(n as nat, 63);
    lemma2_to64_rest();
}

/// A float value coerces to an integer by the float's cast to `i64`
/// (rounding toward zero, saturating, NaN to 0), whatever its rendering; so
/// a negative float gives a nonpositive integer and a positive one a
/// nonnegative integer.
pub proof fn law_real_as_integer(bits: u64, text: String)
    ensures
        integer_of(Value::Real { bits, text }) == Some(float_to_i64(bits)),
        float_negative(bits) ==> float_to_i64(bits) <= 0,
        !float_negative(bits) ==> float_to_i64(bits) >= 0,
{
    if !(float_exponent(bits) == 0x7ff && float_fraction(bits) != 0) {
        law_float_cast_sign(bits);
    }
}

impl Default for Value {
    /// NULL.
    fn default() -> (v: Value)
        ensures
            v is Null,
    {
        Value::Null
    }
}

impl From<i64> for Value {
    fn from(v: i64) -> (r: Value) {
        Value::Integer(v)
    }
}

impl vstd::std_specs::convert::FromSpecImpl<i64> for Value {
    open spec fn obeys_from_spec() -> bool {
        true
    }

    open spec fn from_spec(v: i64) -> Value {
        Value::Integer(v)
    }
}

impl From<i32> for Value {
    fn from(v: i32) -> (r: Value) {
        Value::Integer(v as i64)
    }
}

impl vstd::std_specs::convert::FromSpecImpl<i32> for Value {
    open spec fn obeys_from_spec() -> bool {
        true
    }

    open spec fn from_spec(v: i32) -> Value {
        Value::Integer(v as i64)
    }
}

impl From<Vec<u8>> for Value {
    fn from(v: Vec<u8>) -> (r: Value) {
        Value::Blob(v)
    }
}

impl vstd::std_specs::convert::FromSpecImpl<Vec<u8>> for Value {
    open spec fn obeys_from_spec() -> bool {
        true
    }

    open spec fn from_spec(v: Vec<u8>) -> Value {
        Value::Blob(v)
    }
}

impl From<String> for Value {
    fn from(v: String) -> (r: Value) {
        Value::Text(v)
    }
}

impl vstd::std_specs::convert::FromSpecImpl<String> for Value {
    open spec fn obeys_from_spec() -> bool {
        true
    }

    open spec fn from_spec(v: String) -> Value {
        Value::Text(v)
    }
}

impl<'a> From<&'a str> for Value {
    /// Text holding a copy of `v`.
    fn from(v: &'a str) -> (r: Value)
        ensures
            r matches Value::Text(s) && s@ == v@,
    {
        Value::Text(String::from_str(v))
    }
}

impl<'a> vstd::std_specs::convert::FromSpecImpl<&'a str> for Value {
    /// Not claimed: no spec-level `String` is given by a `&str`'s
    /// characters, so the result is stated by the `from` of this impl
    /// instead (text whose characters are those of `v`).
    open spec fn obeys_from_spec() -> bool {
        false
    }

    open spec fn from_spec(v: &'a str) -> Value {
        Value::Text(choose|s: String| s@ == v@)
    }
}

impl<T: Into<Value>> From<Option<T>> for Value {
    /// The converted value for `Some`, NULL for `None`.
    fn from(v: Option<T>) -> (r: Value)
        ensures
            v is None ==> r is Null,
    {
        match v {
            Some(val) => val.into(),
            None => Value::Null,
        }
    }
}

impl<T: Into<Value>> vstd::std_specs::convert::FromSpecImpl<Option<T>> for Value {
    open spec fn obeys_from_spec() -> bool {
        <T as vstd::std_specs::convert::IntoSpec<Value>>::obeys_into_spec()
    }

    open spec fn from_spec(v: Option<T>) -> Value {
        match v {
            Some(val) => <T as vstd::std_specs::convert::IntoSpec<Value>>::into_spec(val),
            None => Value::Null,
        }
    }
}

} // verus!
