//! Atoms: values read from a node's text alone.
use vstd::prelude::*;
use vstd::utf8::encode_utf8;

use crate::error::{DeserializeError, ErrorView};
use crate::shape::{AtomKind, IntKind, Value, ValueView};

verus! {

pub open spec fn is_digit(c: char) -> bool {
    '0' <= c && c <= '9'
}

/// `s` is one or more decimal digits.
pub open spec fn all_digits(s: Seq<char>) -> bool {
    s.len() > 0 && forall|i: int| 0 <= i < s.len() ==> is_digit(#[trigger] s[i])
}

pub open spec fn digit_value(c: char) -> int {
    (c as u32) as int - ('0' as u32) as int
}

/// The number that the digits `s` write in base ten.
pub open spec fn digits_value(s: Seq<char>) -> int
    decreases s.len(),
{
    if s.len() == 0 {
        0
    } else {
        digits_value(s.drop_last()) * 10 + digit_value(s.last())
    }
}

pub open spec fn is_signed(k: IntKind) -> bool {
    match k {
        IntKind::I8 | IntKind::I16 | IntKind::I32 | IntKind::I64 => true,
        _ => false,
    }
}

pub open spec fn int_min(k: IntKind) -> int {
    match k {
        IntKind::I8 => i8::MIN as int,
        IntKind::I16 => i16::MIN as int,
        IntKind::I32 => i32::MIN as int,
        IntKind::I64 => i64::MIN as int,
        _ => 0,
    }
}

pub open spec fn int_max(k: IntKind) -> int {
    match k {
        IntKind::U8 => u8::MAX as int,
        IntKind::U16 => u16::MAX as int,
        IntKind::U32 => u32::MAX as int,
        IntKind::U64 => u64::MAX as int,
        IntKind::I8 => i8::MAX as int,
        IntKind::I16 => i16::MAX as int,
        IntKind::I32 => i32::MAX as int,
        IntKind::I64 => i64::MAX as int,
    }
}

/// The integer that `s` writes: an optional sign, then one or more decimal
/// digits. A `-` is allowed only where `signed` holds.
pub open spec fn decimal_value(s: Seq<char>, signed: bool) -> Option<int> {
    if s.len() > 0 && s[0] == '+' && all_digits(s.drop_first()) {
        Some(digits_value(s.drop_first()))
    } else if signed && s.len() > 0 && s[0] == '-' && all_digits(s.drop_first()) {
        Some(-digits_value(s.drop_first()))
    } else if all_digits(s) {
        Some(digits_value(s))
    } else {
        None
    }
}

/// The integer of kind `k` that `s` writes, if it writes one in range.
pub open spec fn int_of_text(s: Seq<char>, k: IntKind) -> Option<int> {
    match decimal_value(s, is_signed(k)) {
        Some(v) => if int_min(k) <= v <= int_max(k) {
            Some(v)
        } else {
            None
        },
        None => None,
    }
}

/// `true` and `false`, and nothing else.
pub open spec fn bool_of_text(s: Seq<char>) -> Option<bool> {
    if s == seq!['t', 'r', 'u', 'e'] {
        Some(true)
    } else if s == seq!['f', 'a', 'l', 's', 'e'] {
        Some(false)
    } else {
        None
    }
}

pub open spec fn char_unsupported() -> Seq<char> {
    "Data type `char` is not supported"@
}

pub open spec fn byte_buf_unsupported() -> Seq<char> {
    "Data type `byte_buf` is not supported"@
}

/// What an atom of kind `k` read from the text `t` gives.
pub open spec fn atom_of_text(t: Seq<char>, k: AtomKind) -> Result<ValueView, ErrorView> {
    match k {
        AtomKind::Bool => match bool_of_text(t) {
            Some(b) => Ok(ValueView::Bool(b)),
            None => Err(ErrorView::ParseBool),
        },
        AtomKind::Int(ik) => match int_of_text(t, ik) {
            Some(v) => Ok(ValueView::Int(ik, v)),
            None => Err(ErrorView::ParseInt),
        },
        AtomKind::Str | AtomKind::String => Ok(ValueView::Str(t)),
        AtomKind::Bytes => Ok(ValueView::Bytes(encode_utf8(t))),
        AtomKind::Unit => Ok(ValueView::Unit),
        AtomKind::Char => Err(ErrorView::DataTypeNotSupported(char_unsupported())),
        AtomKind::ByteBuf => Err(ErrorView::DataTypeNotSupported(byte_buf_unsupported())),
    }
}

/// Relies on `<u8 as FromStr>::from_str`: an optional `+` and decimal digits, in range.
#[verifier::external_body]
fn parse_u8(s: &str) -> (r: Result<u8, std::num::ParseIntError>)
    ensures
        r matches Ok(v) ==> int_of_text(s@, IntKind::U8) == Some(v as int),
        r is Err ==> int_of_text(s@, IntKind::U8) is None,
{
    s.parse::<u8>()
}

/// Relies on `<u16 as FromStr>::from_str`: an optional `+` and decimal digits, in range.
#[verifier::external_body]
fn parse_u16(s: &str) -> (r: Result<u16, std::num::ParseIntError>)
    ensures
        r matches Ok(v) ==> int_of_text(s@, IntKind::U16) == Some(v as int),
        r is Err ==> int_of_text(s@, IntKind::U16) is None,
{
    s.parse::<u16>()
}

/// Relies on `<u32 as FromStr>::from_str`: an optional `+` and decimal digits, in range.
#[verifier::external_body]
fn parse_u32(s: &str) -> (r: Result<u32, std::num::ParseIntError>)
    ensures
        r matches Ok(v) ==> int_of_text(s@, IntKind::U32) == Some(v as int),
        r is Err ==> int_of_text(s@, IntKind::U32) is None,
{
    s.parse::<u32>()
}

/// Relies on `<u64 as FromStr>::from_str`: an optional `+` and decimal digits, in range.
#[verifier::external_body]
fn parse_u64(s: &str) -> (r: Result<u64, std::num::ParseIntError>)
    ensures
        r matches Ok(v) ==> int_of_text(s@, IntKind::U64) == Some(v as int),
        r is Err ==> int_of_text(s@, IntKind::U64) is None,
{
    s.parse::<u64>()
}

/// Relies on `<i8 as FromStr>::from_str`: an optional `+` or `-` and decimal digits, in range.
#[verifier::external_body]
fn parse_i8(s: &str) -> (r: Result<i8, std::num::ParseIntError>)
    ensures
        r matches Ok(v) ==> int_of_text(s@, IntKind::I8) == Some(v as int),
        r is Err ==> int_of_text(s@, IntKind::I8) is None,
{
    s.parse::<i8>()
}

/// Relies on `<i16 as FromStr>::from_str`: an optional `+` or `-` and decimal digits, in range.
#[verifier::external_body]
fn parse_i16(s: &str) -> (r: Result<i16, std::num::ParseIntError>)
    ensures
        r matches Ok(v) ==> int_of_text(s@, IntKind::I16) == Some(v as int),
        r is Err ==> int_of_text(s@, IntKind::I16) is None,
{
    s.parse::<i16>()
}

/// Relies on `<i32 as FromStr>::from_str`: an optional `+` or `-` and decimal digits, in range.
#[verifier::external_body]
fn parse_i32(s: &str) -> (r: Result<i32, std::num::ParseIntError>)
    ensures
        r matches Ok(v) ==> int_of_text(s@, IntKind::I32) == Some(v as int),
        r is Err ==> int_of_text(s@, IntKind::I32) is None,
{
    s.parse::<i32>()
}

/// Relies on `<i64 as FromStr>::from_str`: an optional `+` or `-` and decimal digits, in range.
#[verifier::external_body]
fn parse_i64(s: &str) -> (r: Result<i64, std::num::ParseIntError>)
    ensures
        r matches Ok(v) ==> int_of_text(s@, IntKind::I64) == Some(v as int),
        r is Err ==> int_of_text(s@, IntKind::I64) is None,
{
    s.parse::<i64>()
}

/// Relies on `<bool as FromStr>::from_str`: exactly `true` or `false`.
#[verifier::external_body]
fn parse_bool_text(s: &str) -> (r: Result<bool, std::str::ParseBoolError>)
    ensures
        r matches Ok(b) ==> bool_of_text(s@) == Some(b),
        r is Err ==> bool_of_text(s@) is None,
{
    s.parse::<bool>()
}

/// Reads an integer of kind `k` from `text`.
pub fn int_from_text(text: &str, k: IntKind) -> (r: Result<Value, DeserializeError>)
    ensures
        match r {
            Ok(v) => atom_of_text(text@, AtomKind::Int(k)) == Ok::<ValueView, ErrorView>(v@),
            Err(e) => atom_of_text(text@, AtomKind::Int(k)) == Err::<ValueView, ErrorView>(e@),
        },
{
    match k {
        IntKind::U8 => match parse_u8(text) {
            Ok(v) => Ok(Value::U8(v)),
            Err(e) => Err(DeserializeError::ParseIntError(e)),
        },
        IntKind::U16 => match parse_u16(text) {
            Ok(v) => Ok(Value::U16(v)),
            Err(e) => Err(DeserializeError::ParseIntError(e)),
        },
        IntKind::U32 => match parse_u32(text) {
            Ok(v) => Ok(Value::U32(v)),
            Err(e) => Err(DeserializeError::ParseIntError(e)),
        },
        IntKind::U64 => match parse_u64(text) {
            Ok(v) => Ok(Value::U64(v)),
            Err(e) => Err(DeserializeError::ParseIntError(e)),
        },
        IntKind::I8 => match parse_i8(text) {
            Ok(v) => Ok(Value::I8(v)),
            Err(e) => Err(DeserializeError::ParseIntError(e)),
        },
        IntKind::I16 => match parse_i16(text) {
            Ok(v) => Ok(Value::I16(v)),
            Err(e) => Err(DeserializeError::ParseIntError(e)),
        },
        IntKind::I32 => match parse_i32(text) {
            Ok(v) => Ok(Value::I32(v)),
            Err(e) => Err(DeserializeError::ParseIntError(e)),
        },
        IntKind::I64 => match parse_i64(text) {
            Ok(v) => Ok(Value::I64(v)),
            Err(e) => Err(DeserializeError::ParseIntError(e)),
        },
    }
}

/// Reads `true` or `false` from `text`.
pub fn bool_from_text(text: &str) -> (r: Result<Value, DeserializeError>)
    ensures
        match r {
            Ok(v) => atom_of_text(text@, AtomKind::Bool) == Ok::<ValueView, ErrorView>(v@),
            Err(e) => atom_of_text(text@, AtomKind::Bool) == Err::<ValueView, ErrorView>(e@),
        },
{
    match parse_bool_text(text) {
        Ok(b) => Ok(Value::Bool(b)),
        Err(e) => Err(DeserializeError::ParseBoolError(e)),
    }
}

/// The UTF-8 encoding of `text`, as an owned buffer.
pub fn bytes_of(text: &str) -> (r: Vec<u8>)
    ensures
        r@ == encode_utf8(text@),
{
    let b = text.as_bytes();
    let mut r: Vec<u8> = Vec::new();
    let mut i: usize = 0;
    while i < b.len()
        invariant
            i <= b@.len(),
            b@ == encode_utf8(text@),
            r@ == b@.subrange(0, i as int),
        decreases b@.len() - i,
    {
        r.push(b[i]);
        i = i + 1;
        assert(r@ =~= b@.subrange(0, i as int));
    }
    assert(b@.subrange(0, b@.len() as int) =~= b@);
    r
}

/// Reads an atom of kind `k` from `text`.
pub fn atom_from_text(text: &str, k: AtomKind) -> (r: Result<Value, DeserializeError>)
    ensures
        match r {
            Ok(v) => atom_of_text(text@, k) == Ok::<ValueView, ErrorView>(v@),
            Err(e) => atom_of_text(text@, k) == Err::<ValueView, ErrorView>(e@),
        },
{
    match k {
        AtomKind::Bool => bool_from_text(text),
        AtomKind::Int(ik) => int_from_text(text, ik),
        AtomKind::Str | AtomKind::String => Ok(Value::Str(text.to_owned())),
        AtomKind::Bytes => Ok(Value::Bytes(bytes_of(text))),
        AtomKind::Unit => Ok(Value::Unit),
        AtomKind::Char => Err(
            DeserializeError::DataTypeNotSupported("Data type `char` is not supported".to_owned()),
        ),
        AtomKind::ByteBuf => Err(
            DeserializeError::DataTypeNotSupported(
                "Data type `byte_buf` is not supported".to_owned(),
            ),
        ),
    }
}

} // verus!
