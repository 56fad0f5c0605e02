//! The library's model of a generic JSON value.
//!
//! A number is kept exactly as a decimal mantissa, a sign and a decimal
//! exponent, so that integer extraction can be specified and verified
//! without floating point.

use vstd::arithmetic::div_mod::{lemma_div_denominator, lemma_mod_breakdown};
use vstd::prelude::*;

verus! {

/// An unsigned 64-bit protocol identifier (session, request, subscription,
/// registration or publication handle).
pub type WampId = u64;

/// A realm, topic or procedure name. The codec checks only that it is a
/// string, not that it follows any URI grammar.
pub type Uri = String;

/// Optional ordered array of positional arguments.
pub type Args = JsonVal;

/// Optional object of named arguments.
pub type Kwargs = JsonVal;

/// Message-specific metadata object.
pub type Details = JsonVal;

/// Message-specific metadata object.
pub type Options = JsonVal;

/// A JSON number: the value is `mantissa * 10^exponent`, negated when
/// `positive` is false.
#[derive(Debug, Clone, Copy, PartialEq, Eq, Structural)]
pub struct JsonNumber {
    pub positive: bool,
    pub mantissa: u64,
    pub exponent: i16,
}

/// A generic JSON value. Object entries keep insertion order.
#[derive(Debug, PartialEq, Eq)]
pub enum JsonVal {
    Null,
    Bool(bool),
    Number(JsonNumber),
    Str(String),
    Array(Vec<JsonVal>),
    Object(Vec<(String, JsonVal)>),
}

/// `10^e`.
pub open spec fn pow10(e: nat) -> int
    decreases e,
{
    if e == 0 {
        1
    } else {
        10 * pow10((e - 1) as nat)
    }
}

pub proof fn lemma_pow10_pos(e: nat)
    ensures
        pow10(e) >= 1,
    decreases e,
{
    if e > 0 {
        lemma_pow10_pos((e - 1) as nat);
    }
}

/// Outcome of reading `m * 10^e` as a 64-bit unsigned integer.
pub open spec fn scale_up_outcome(m: u64, e: nat) -> Option<u64> {
    if m * pow10(e) <= u64::MAX {
        Some((m * pow10(e)) as u64)
    } else {
        None
    }
}

/// Outcome of reading `m / 10^e` as an integer: defined only when the
/// division is exact.
pub open spec fn scale_down_outcome(m: u64, e: nat) -> Option<u64> {
    if m as int % pow10(e) == 0 {
        Some((m as int / pow10(e)) as u64)
    } else {
        None
    }
}

/// The number's value as a 64-bit unsigned integer: `Some` exactly when the
/// value is a non-negative integer representable in 64 bits.
pub open spec fn spec_u64_value(n: JsonNumber) -> Option<u64> {
    if n.mantissa == 0 {
        Some(0u64)
    } else if !n.positive {
        None
    } else if n.exponent >= 0 {
        scale_up_outcome(n.mantissa, n.exponent as nat)
    } else {
        scale_down_outcome(n.mantissa, (-(n.exponent as int)) as nat)
    }
}

/// The number's value as an 8-bit unsigned integer: `Some` exactly when the
/// value is a non-negative integer representable in 8 bits.
pub open spec fn spec_u8_value(n: JsonNumber) -> Option<u8> {
    match spec_u64_value(n) {
        Some(v) => if v <= 255 {
            Some(v as u8)
        } else {
            None
        },
        None => None,
    }
}

proof fn lemma_scale_up_step(m: u64, e: nat)
    requires
        e >= 1,
        m <= u64::MAX / 10,
    ensures
        scale_up_outcome(m, e) == scale_up_outcome((m * 10) as u64, (e - 1) as nat),
{
    assert(m * pow10(e) == (m * 10) * pow10((e - 1) as nat)) by (nonlinear_arith)
        requires
            e >= 1,
            pow10(e) == 10 * pow10((e - 1) as nat),
    {}
}

proof fn lemma_scale_up_overflow(m: u64, e: nat)
    requires
        e >= 1,
        m > u64::MAX / 10,
    ensures
        scale_up_outcome(m, e) == None::<u64>,
{
    lemma_pow10_pos((e - 1) as nat);
    assert(m * pow10(e) >= m * 10) by (nonlinear_arith)
        requires
            pow10(e) == 10 * pow10((e - 1) as nat),
            pow10((e - 1) as nat) >= 1,
            m >= 0,
    {}
}

proof fn lemma_scale_down_inexact(m: u64, e: nat)
    requires
        e >= 1,
        m % 10 != 0,
    ensures
        scale_down_outcome(m, e) == None::<u64>,
{
    let mi = m as int;
    let p = pow10((e - 1) as nat);
    lemma_pow10_pos((e - 1) as nat);
    lemma_mod_breakdown(mi, 10, p);
    assert(mi % pow10(e) == 10 * ((mi / 10) % p) + mi % 10);
}

proof fn lemma_scale_down_step(m: u64, e: nat)
    requires
        e >= 1,
        m % 10 == 0,
    ensures
        scale_down_outcome(m, e) == scale_down_outcome((m / 10) as u64, (e - 1) as nat),
{
    let mi = m as int;
    let p = pow10((e - 1) as nat);
    lemma_pow10_pos((e - 1) as nat);
    lemma_mod_breakdown(mi, 10, p);
    assert(mi % pow10(e) == 10 * ((mi / 10) % p));
    lemma_div_denominator(mi, 10, p);
    assert(mi / pow10(e) == (mi / 10) / p);
}

impl JsonNumber {
    /// The value as a non-negative 64-bit integer, when it is one.
    pub fn as_u64(&self) -> (r: Option<u64>)
        ensures
            r == spec_u64_value(*self),
    {
        if self.mantissa == 0 {
            return Some(0);
        }
        if !self.positive {
            return None;
        }
        if self.exponent >= 0 {
            let mut m: u64 = self.mantissa;
            let mut e: u16 = self.exponent as u16;
            while e > 0
                invariant
                    spec_u64_value(*self) == scale_up_outcome(m, e as nat),
                decreases e,
            {
                if m > u64::MAX / 10 {
                    proof {
                        lemma_scale_up_overflow(m, e as nat);
                    }
                    return None;
                }
                proof {
                    lemma_scale_up_step(m, e as nat);
                }
                m = m * 10;
                e = e - 1;
            }
            Some(m)
        } else {
            let mut m: u64 = self.mantissa;
            let mut e: u32 = (-(self.exponent as i32)) as u32;
            while e > 0
                invariant
                    spec_u64_value(*self) == scale_down_outcome(m, e as nat),
                decreases e,
            {
                if m % 10 != 0 {
                    proof {
                        lemma_scale_down_inexact(m, e as nat);
                    }
                    return None;
                }
                proof {
                    lemma_scale_down_step(m, e as nat);
                }
                m = m / 10;
                e = e - 1;
            }
            Some(m)
        }
    }

    /// The value as a non-negative 8-bit integer, when it is one.
    pub fn as_u8(&self) -> (r: Option<u8>)
        ensures
            r == spec_u8_value(*self),
    {
        match self.as_u64() {
            Some(v) => if v <= 255 {
                Some(v as u8)
            } else {
                None
            },
            None => None,
        }
    }

    /// The number representing the given 64-bit integer.
    pub fn from_u64(v: u64) -> (r: JsonNumber)
        ensures
            r == spec_number(v),
            spec_u64_value(r) == Some(v),
    {
        JsonNumber { positive: true, mantissa: v, exponent: 0 }
    }
}

/// The canonical number representation of a 64-bit integer.
pub open spec fn spec_number(v: u64) -> JsonNumber {
    JsonNumber { positive: true, mantissa: v, exponent: 0 }
}

impl JsonVal {
    pub fn is_null(&self) -> (r: bool)
        ensures
            r == (*self is Null),
    {
        match self {
            JsonVal::Null => true,
            _ => false,
        }
    }

    pub fn is_object(&self) -> (r: bool)
        ensures
            r == (*self is Object),
    {
        match self {
            JsonVal::Object(_) => true,
            _ => false,
        }
    }

    pub fn is_array(&self) -> (r: bool)
        ensures
            r == (*self is Array),
    {
        match self {
            JsonVal::Array(_) => true,
            _ => false,
        }
    }

    /// The array value holding the given 64-bit integer.
    pub fn number_u64(v: u64) -> (r: JsonVal)
        ensures
            r == JsonVal::Number(spec_number(v)),
    {
        JsonVal::Number(JsonNumber::from_u64(v))
    }
}

/// The keys of an object's entries, as character sequences.
pub open spec fn entries_keys(s: Seq<(String, JsonVal)>) -> Seq<Seq<char>> {
    Seq::new(s.len(), |i: int| s[i].0@)
}

/// Sets a key in an object's entries: replaces the value of the first entry
/// whose key matches, or appends a new entry.
pub fn set_object_entry(entries: &mut Vec<(String, JsonVal)>, key: String, value: JsonVal)
    ensures
        (forall|j: int| 0 <= j < old(entries)@.len() ==> old(entries)@[j].0@ != key@)
            ==> final(entries)@ == old(entries)@.push((key, value)),
        forall|j: int|
            (0 <= j < old(entries)@.len() && old(entries)@[j].0@ == key@ && (forall|l: int|
                0 <= l < j ==> old(entries)@[l].0@ != key@))
                ==> final(entries)@ == old(entries)@.update(j, (old(entries)@[j].0, value)),
        (exists|j: int| 0 <= j < old(entries)@.len() && old(entries)@[j].0@ == key@)
            ==> (final(entries)@.len() == old(entries)@.len() && (forall|l: int|
                0 <= l < old(entries)@.len()
                    ==> (final(entries)@[l].0 == old(entries)@[l].0 && (final(entries)@[l].1 == old(
                    entries)@[l].1 || final(entries)@[l].1 == value)))),
{
    let n = entries.len();
    let mut j: usize = 0;
    while j < n
        invariant
            n == entries.len(),
            j <= n,
            entries@ == old(entries)@,
            forall|l: int| 0 <= l < j ==> entries@[l].0@ != key@,
        decreases n - j,
    {
        if entries[j].0 == key {
            let kept = entries[j].0.clone();
            entries.set(j, (kept, value));
            return ;
        }
        j += 1;
    }
    entries.push((key, value));
}

/// The elements of a frame: the array's members, or no elements at all when
/// the value is not an array.
pub open spec fn items_of(v: JsonVal) -> Seq<JsonVal> {
    match v {
        JsonVal::Array(a) => a@,
        _ => Seq::empty(),
    }
}

/// The element of a frame at position `i`, or `Null` when the frame has no
/// such position. Decoding consumes elements from the front one at a time,
/// and a missing element reads as `Null`.
pub open spec fn elem_seq(s: Seq<JsonVal>, i: int) -> JsonVal {
    if 0 <= i < s.len() {
        s[i]
    } else {
        JsonVal::Null
    }
}

/// The elements after the first one; a sequence without elements is left as
/// it is.
pub open spec fn tail1(s: Seq<JsonVal>) -> Seq<JsonVal> {
    if s.len() > 0 {
        s.drop_first()
    } else {
        s
    }
}

pub proof fn lemma_tail1_elem(s: Seq<JsonVal>, i: int)
    requires
        i >= 0,
    ensures
        elem_seq(tail1(s), i) == elem_seq(s, i + 1),
{
}

/// Removes and returns the front element; a missing element reads as `Null`.
pub fn take_front(items: &mut Vec<JsonVal>) -> (r: JsonVal)
    ensures
        r == elem_seq(old(items)@, 0),
        final(items)@ == tail1(old(items)@),
{
    if items.len() > 0 {
        let v = items.remove(0);
        proof {
            assert(items@ =~= tail1(old(items)@));
        }
        v
    } else {
        JsonVal::Null
    }
}

/// Takes a frame apart into its elements; a value that is not an array has
/// no elements.
pub fn into_items(v: JsonVal) -> (r: Vec<JsonVal>)
    ensures
        r@ == items_of(v),
{
    match v {
        JsonVal::Array(a) => a,
        _ => {
            let r: Vec<JsonVal> = Vec::new();
            proof {
                assert(r@ =~= items_of(v));
            }
            r
        },
    }
}

} // verus!
