//! Reading values as numbers, converting time units, and writing numbers as text.
use vstd::prelude::*;
use vstd::string::StringExecFns;

use crate::dtype::TimeUnit;
use crate::value::{AnyValue, ValueView, F32, F64};

verus! {

/// What the numeric casts of one value give where floating-point arithmetic is involved.
///
/// The library holds no floating-point arithmetic: whoever adds a value to a buffer
/// works these out for that value and hands them over with it.
/// - `truncated`: for a `Float32` or `Float64` value, the value rounded toward zero, when
///   it is finite (and fits in `i128`); `None` otherwise.
/// - `to_f32` / `to_f64`: the value cast to `f32` / `f64` (for integers, booleans and the
///   other float width; a value of the same width is taken as it is).
/// - `text`: how a `Float64` value prints.
#[derive(Debug)]
pub struct FloatCasts {
    pub truncated: Option<i128>,
    pub to_f32: F32,
    pub to_f64: F64,
    pub text: String,
}

/// The model of [`FloatCasts`].
pub ghost struct FloatCastsView {
    pub truncated: Option<int>,
    pub to_f32: F32,
    pub to_f64: F64,
    pub text: Seq<char>,
}

impl View for FloatCasts {
    type V = FloatCastsView;

    open spec fn view(&self) -> FloatCastsView {
        FloatCastsView {
            truncated: match self.truncated {
                Some(t) => Some(t as int),
                None => None,
            },
            to_f32: self.to_f32,
            to_f64: self.to_f64,
            text: self.text@,
        }
    }
}

impl FloatCasts {
    /// Casts that no value of a matching type reads: nothing truncated, zero bits, no text.
    pub fn unused() -> (r: FloatCasts)
        ensures
            r@ == unused_casts(),
    {
        FloatCasts {
            truncated: None,
            to_f32: F32 { bits: 0 },
            to_f64: F64 { bits: 0 },
            text: String::new(),
        }
    }
}

pub open spec fn unused_casts() -> FloatCastsView {
    FloatCastsView {
        truncated: None,
        to_f32: F32 { bits: 0 },
        to_f64: F64 { bits: 0 },
        text: Seq::empty(),
    }
}

/// The integer that a value stands for when it is read as a number: integers, temporal
/// values by their stored integer, and booleans as 1 and 0.
pub open spec fn int_value(v: ValueView) -> Option<int> {
    match v {
        ValueView::Boolean(b) => Some(if b { 1int } else { 0int }),
        ValueView::UInt8(x) => Some(x as int),
        ValueView::UInt16(x) => Some(x as int),
        ValueView::UInt32(x) => Some(x as int),
        ValueView::UInt64(x) => Some(x as int),
        ValueView::Int8(x) => Some(x as int),
        ValueView::Int16(x) => Some(x as int),
        ValueView::Int32(x) => Some(x as int),
        ValueView::Int64(x) => Some(x as int),
        ValueView::Date(x) => Some(x as int),
        ValueView::Datetime(x, _, _) => Some(x as int),
        ValueView::Duration(x, _) => Some(x as int),
        ValueView::Time(x) => Some(x as int),
        _ => None,
    }
}

pub open spec fn is_float(v: ValueView) -> bool {
    v is Float32 || v is Float64
}

/// The integer a value gives when it is cast to an integer type, before the range check:
/// a float rounded toward zero, any other number as it is.
pub open spec fn numeric_int(v: ValueView, c: FloatCastsView) -> Option<int> {
    if is_float(v) {
        c.truncated
    } else {
        int_value(v)
    }
}

/// The value cast to an integer type whose range is `lo..=hi`; `None` when the value is
/// not a number or does not fit.
pub open spec fn extract_int(v: ValueView, c: FloatCastsView, lo: int, hi: int) -> Option<int> {
    match numeric_int(v, c) {
        Some(n) => if lo <= n <= hi {
            Some(n)
        } else {
            None
        },
        None => None,
    }
}

/// The value cast to `f32`.
pub open spec fn extract_f32(v: ValueView, c: FloatCastsView) -> Option<F32> {
    match v {
        ValueView::Float32(x) => Some(x),
        ValueView::Float64(_) => Some(c.to_f32),
        _ => if int_value(v) is Some {
            Some(c.to_f32)
        } else {
            None
        },
    }
}

/// The value cast to `f64`.
pub open spec fn extract_f64(v: ValueView, c: FloatCastsView) -> Option<F64> {
    match v {
        ValueView::Float64(x) => Some(x),
        ValueView::Float32(_) => Some(c.to_f64),
        _ => if int_value(v) is Some {
            Some(c.to_f64)
        } else {
            None
        },
    }
}

/// Computes [`numeric_int`].
pub fn numeric_int_of(v: &AnyValue, c: &FloatCasts) -> (r: Option<i128>)
    ensures
        match r {
            Some(n) => numeric_int(v@, c@) == Some(n as int),
            None => numeric_int(v@, c@) is None,
        },
{
    match v {
        AnyValue::Float32(_) | AnyValue::Float64(_) => c.truncated,
        AnyValue::Boolean(b) => if *b {
            Some(1)
        } else {
            Some(0)
        },
        AnyValue::UInt8(x) => Some(*x as i128),
        AnyValue::UInt16(x) => Some(*x as i128),
        AnyValue::UInt32(x) => Some(*x as i128),
        AnyValue::UInt64(x) => Some(*x as i128),
        AnyValue::Int8(x) => Some(*x as i128),
        AnyValue::Int16(x) => Some(*x as i128),
        AnyValue::Int32(x) => Some(*x as i128),
        AnyValue::Int64(x) => Some(*x as i128),
        AnyValue::Date(x) => Some(*x as i128),
        AnyValue::Datetime(x, _, _) => Some(*x as i128),
        AnyValue::Duration(x, _) => Some(*x as i128),
        AnyValue::Time(x) => Some(*x as i128),
        _ => None,
    }
}

/// Computes [`extract_f32`].
pub fn extract_f32_of(v: &AnyValue, c: &FloatCasts) -> (r: Option<F32>)
    ensures
        r == extract_f32(v@, c@),
{
    match v {
        AnyValue::Float32(x) => Some(*x),
        AnyValue::Float64(_) => Some(c.to_f32),
        _ => if numeric_int_of(v, c).is_some() {
            Some(c.to_f32)
        } else {
            None
        },
    }
}

/// Computes [`extract_f64`].
pub fn extract_f64_of(v: &AnyValue, c: &FloatCasts) -> (r: Option<F64>)
    ensures
        r == extract_f64(v@, c@),
{
    match v {
        AnyValue::Float64(x) => Some(*x),
        AnyValue::Float32(_) => Some(c.to_f64),
        _ => if numeric_int_of(v, c).is_some() {
            Some(c.to_f64)
        } else {
            None
        },
    }
}

/// Division that rounds toward zero, for a positive divisor.
pub open spec fn div_trunc(a: int, d: int) -> int {
    if a >= 0 {
        a / d
    } else {
        -((-a) / d)
    }
}

/// A count of `from` units expressed in `to` units; a conversion to a coarser unit
/// rounds toward zero.
pub open spec fn convert_time_units(v: int, from: TimeUnit, to: TimeUnit) -> int {
    match (from, to) {
        (TimeUnit::Nanoseconds, TimeUnit::Microseconds) => div_trunc(v, 1_000),
        (TimeUnit::Nanoseconds, TimeUnit::Milliseconds) => div_trunc(v, 1_000_000),
        (TimeUnit::Microseconds, TimeUnit::Nanoseconds) => v * 1_000,
        (TimeUnit::Microseconds, TimeUnit::Milliseconds) => div_trunc(v, 1_000),
        (TimeUnit::Milliseconds, TimeUnit::Microseconds) => v * 1_000,
        (TimeUnit::Milliseconds, TimeUnit::Nanoseconds) => v * 1_000_000,
        _ => v,
    }
}

/// Whether the conversion of `v` from `from` to `to` fits in `i64`.
pub open spec fn time_units_fit(v: i64, from: TimeUnit, to: TimeUnit) -> bool {
    i64::MIN <= convert_time_units(v as int, from, to) <= i64::MAX
}

fn div_trunc_i64(v: i64, d: u64) -> (r: i64)
    requires
        d >= 1000,
    ensures
        r == div_trunc(v as int, d as int),
{
    if v >= 0 {
        ((v as u64) / d) as i64
    } else {
        let m: u64 = (-(v as i128)) as u64;
        let q: u64 = m / d;
        proof {
            vstd::arithmetic::div_mod::lemma_div_is_ordered_by_denominator(m as int, 1000, d as int);
            vstd::arithmetic::div_mod::lemma_div_is_ordered(m as int, 0x8000_0000_0000_0000int, 1000);
        }
        assert(q <= 0x8000_0000_0000_0000u64 / 1000);
        -(q as i64)
    }
}

/// Computes [`time_units_fit`].
pub fn time_units_fit_exec(v: i64, from: TimeUnit, to: TimeUnit) -> (r: bool)
    ensures
        r == time_units_fit(v, from, to),
{
    match (from, to) {
        (TimeUnit::Microseconds, TimeUnit::Nanoseconds) => v.checked_mul(1_000).is_some(),
        (TimeUnit::Milliseconds, TimeUnit::Microseconds) => v.checked_mul(1_000).is_some(),
        (TimeUnit::Milliseconds, TimeUnit::Nanoseconds) => v.checked_mul(1_000_000).is_some(),
        (TimeUnit::Nanoseconds, TimeUnit::Microseconds) => {
            proof {
                lemma_div_trunc_shrinks(v as int, 1_000);
            }
            true
        },
        (TimeUnit::Nanoseconds, TimeUnit::Milliseconds) => {
            proof {
                lemma_div_trunc_shrinks(v as int, 1_000_000);
            }
            true
        },
        (TimeUnit::Microseconds, TimeUnit::Milliseconds) => {
            proof {
                lemma_div_trunc_shrinks(v as int, 1_000);
            }
            true
        },
        _ => true,
    }
}

proof fn lemma_div_trunc_shrinks(a: int, d: int)
    requires
        d >= 1,
    ensures
        a >= 0 ==> 0 <= div_trunc(a, d) <= a,
        a < 0 ==> a <= div_trunc(a, d) <= 0,
{
    if a >= 0 {
        vstd::arithmetic::div_mod::lemma_div_is_ordered_by_denominator(a, 1, d);
        vstd::arithmetic::div_mod::lemma_div_pos_is_pos(a, d);
    } else {
        vstd::arithmetic::div_mod::lemma_div_is_ordered_by_denominator(-a, 1, d);
        vstd::arithmetic::div_mod::lemma_div_pos_is_pos(-a, d);
    }
}

/// Computes [`convert_time_units`].
pub fn convert_time_units_exec(v: i64, from: TimeUnit, to: TimeUnit) -> (r: i64)
    requires
        time_units_fit(v, from, to),
    ensures
        r == convert_time_units(v as int, from, to),
{
    match (from, to) {
        (TimeUnit::Nanoseconds, TimeUnit::Microseconds) => div_trunc_i64(v, 1_000),
        (TimeUnit::Nanoseconds, TimeUnit::Milliseconds) => div_trunc_i64(v, 1_000_000),
        (TimeUnit::Microseconds, TimeUnit::Nanoseconds) => v * 1_000,
        (TimeUnit::Microseconds, TimeUnit::Milliseconds) => div_trunc_i64(v, 1_000),
        (TimeUnit::Milliseconds, TimeUnit::Microseconds) => v * 1_000,
        (TimeUnit::Milliseconds, TimeUnit::Nanoseconds) => v * 1_000_000,
        _ => v,
    }
}

/// The character of a decimal digit.
pub open spec fn digit_char(d: nat) -> char {
    (48 + d) as char
}

/// The decimal digits of `n`, most significant first, without leading zeros.
pub open spec fn digits(n: nat) -> Seq<char>
    decreases n,
{
    if n < 10 {
        seq![digit_char(n)]
    } else {
        digits(n / 10).push(digit_char(n % 10))
    }
}

/// How an integer prints: its decimal digits, after a `-` when it is negative.
pub open spec fn decimal(v: int) -> Seq<char> {
    if v < 0 {
        seq!['-'] + digits((-v) as nat)
    } else {
        digits(v as nat)
    }
}

/// The text of the decimal digit `d`.
fn digit_text(d: u64) -> (s: &'static str)
    requires
        d < 10,
    ensures
        s@ == seq![digit_char(d as nat)],
{
    proof {
        reveal_strlit("0");
        reveal_strlit("1");
        reveal_strlit("2");
        reveal_strlit("3");
        reveal_strlit("4");
        reveal_strlit("5");
        reveal_strlit("6");
        reveal_strlit("7");
        reveal_strlit("8");
        reveal_strlit("9");
    }
    match d {
        0 => "0",
        1 => "1",
        2 => "2",
        3 => "3",
        4 => "4",
        5 => "5",
        6 => "6",
        7 => "7",
        8 => "8",
        _ => "9",
    }
}

/// The decimal digits of `n` (see [`digits`]).
pub fn u64_to_text(n: u64) -> (s: String)
    ensures
        s@ == digits(n as nat),
    decreases n,
{
    if n < 10 {
        String::from_str(digit_text(n))
    } else {
        let mut s = u64_to_text(n / 10);
        s.append(digit_text(n % 10));
        s
    }
}

/// How `v` prints (see [`decimal`]).
pub fn i64_to_text(v: i64) -> (s: String)
    ensures
        s@ == decimal(v as int),
{
    if v < 0 {
        let magnitude: u64 = (-(v as i128)) as u64;
        let digits_text = u64_to_text(magnitude);
        let mut s = String::from_str("-");
        proof {
            reveal_strlit("-");
        }
        s.append(digits_text.as_str());
        s
    } else {
        u64_to_text(v as u64)
    }
}

/// The name of the `i`-th field of a struct column built from field buffers: `field_`
/// followed by [`decimal`] of `i`.
pub open spec fn field_name(i: int) -> Seq<char> {
    "field_"@ + decimal(i)
}

/// The name `field_i` (see [`field_name`]).
pub fn field_name_text(i: usize) -> (s: String)
    ensures
        s@ == field_name(i as int),
{
    let number = u64_to_text(i as u64);
    let mut s = String::from_str("field_");
    s.append(number.as_str());
    s
}

} // verus!
