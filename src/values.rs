//! Raw column values as the storage driver hands them over, and their
//! conversion to the typed fields of a record.
use vstd::prelude::*;
use vstd::utf8::{decode_utf8, valid_utf8};

use crate::text::{decimal_text, padded_text};

verus! {

/// One column value of a fetched row, as the driver yields it.
#[derive(Debug, Clone, PartialEq, Eq)]
pub enum ColumnValue {
    Null,
    Bytes(Vec<u8>),
    Int(i64),
    UInt(u64),
    /// A single or double precision number; no mapped column reads one.
    Fractional,
    /// year, month, day, hour, minutes, seconds, micro seconds
    Date(u16, u8, u8, u8, u8, u8, u32),
    /// is negative, days, hours, minutes, seconds, micro seconds
    Time(bool, u32, u8, u8, u8, u32),
}

/// A fetched row: one entry per column position, `None` where the driver
/// holds no value for it.
#[derive(Debug, Clone, PartialEq, Eq)]
pub struct RawRow {
    pub values: Vec<Option<ColumnValue>>,
}

/// The value at column `i`, if the row has one there.
pub open spec fn column_at(row: RawRow, i: int) -> Option<ColumnValue> {
    if 0 <= i < row.values@.len() {
        row.values@[i]
    } else {
        None
    }
}

pub open spec fn is_digit_byte(b: u8) -> bool {
    48 <= b <= 57
}

/// The number that a string of ASCII decimal digits denotes.
pub open spec fn digits_value(s: Seq<u8>) -> nat
    decreases s.len(),
{
    if s.len() == 0 {
        0
    } else {
        digits_value(s.drop_last()) * 10 + (s.last() - 48) as nat
    }
}

/// A non-empty run of decimal digits whose value fits in `u32`.
pub open spec fn unsigned_u32(s: Seq<u8>) -> Option<u32> {
    if s.len() > 0 && (forall|i: int| 0 <= i < s.len() ==> is_digit_byte(#[trigger] s[i]))
        && digits_value(s) <= u32::MAX {
        Some(digits_value(s) as u32)
    } else {
        None
    }
}

/// Text read as a `u32`: decimal digits with an optional `+` sign; a `-`
/// sign is accepted only in front of a zero value.
pub open spec fn text_u32(b: Seq<u8>) -> Option<u32> {
    if b.len() > 0 && b[0] == 43 {
        unsigned_u32(b.drop_first())
    } else if b.len() > 0 && b[0] == 45 {
        match unsigned_u32(b.drop_first()) {
            Some(v) => if v == 0 {
                Some(0u32)
            } else {
                None
            },
            None => None,
        }
    } else {
        unsigned_u32(b)
    }
}

/// What a column value reads as when a `u32` is required.
pub open spec fn value_u32(v: ColumnValue) -> Option<u32> {
    match v {
        ColumnValue::Int(x) => if 0 <= x <= u32::MAX {
            Some(x as u32)
        } else {
            None
        },
        ColumnValue::UInt(x) => if x <= u32::MAX {
            Some(x as u32)
        } else {
            None
        },
        ColumnValue::Bytes(b) => text_u32(b@),
        _ => None,
    }
}

/// Text decoded from bytes with each invalid UTF-8 sequence replaced.
pub uninterp spec fn lossy_utf8(b: Seq<u8>) -> Seq<char>;

/// Bytes decoded leniently: valid UTF-8 as it is, anything else with
/// replacement characters.
pub open spec fn lenient_text(b: Seq<u8>) -> Seq<char> {
    if valid_utf8(b) {
        decode_utf8(b)
    } else {
        lossy_utf8(b)
    }
}

pub open spec fn is_leap_year(y: int) -> bool {
    (y % 4 == 0 && y % 100 != 0) || y % 400 == 0
}

pub open spec fn days_in_month(y: int, m: int) -> int {
    if m == 2 {
        if is_leap_year(y) {
            29
        } else {
            28
        }
    } else if m == 4 || m == 6 || m == 9 || m == 11 {
        30
    } else {
        31
    }
}

/// A calendar date and time of day that exist.
pub open spec fn valid_datetime(y: u16, mo: u8, d: u8, h: u8, mi: u8, s: u8) -> bool {
    &&& 1 <= mo <= 12
    &&& 1 <= d <= days_in_month(y as int, mo as int)
    &&& h < 24
    &&& mi < 60
    &&& s < 60
}

/// The year as four digits; a longer year is written with a `+` sign.
pub open spec fn year_text(y: u16) -> Seq<char> {
    if y <= 9999 {
        padded_text(y as nat, 4)
    } else {
        seq!['+'] + decimal_text(y as nat)
    }
}

/// `YYYY-MM-DD HH:MM:SS`.
pub open spec fn datetime_text(y: u16, mo: u8, d: u8, h: u8, mi: u8, s: u8) -> Seq<char> {
    year_text(y) + seq!['-'] + padded_text(mo as nat, 2) + seq!['-'] + padded_text(d as nat, 2)
        + seq![' '] + padded_text(h as nat, 2) + seq![':'] + padded_text(mi as nat, 2) + seq![':']
        + padded_text(s as nat, 2)
}

/// Relies on mysql's `from_value_opt::<u32>` on a byte value, which parses
/// the bytes with `btoi::btoi`.
#[verifier::external_body]
fn text_to_u32(b: &Vec<u8>) -> (r: Option<u32>)
    ensures
        r == text_u32(b@),
{
    mysql::from_value_opt::<u32>(mysql::Value::Bytes(b.clone())).ok()
}

/// Relies on mysql's `from_value_opt::<String>` on a byte value, which
/// accepts exactly the valid UTF-8 byte strings.
#[verifier::external_body]
fn utf8_to_text(b: &Vec<u8>) -> (r: Option<String>)
    ensures
        r is Some <==> valid_utf8(b@),
        r matches Some(s) ==> s@ == decode_utf8(b@),
{
    mysql::from_value_opt::<String>(mysql::Value::Bytes(b.clone())).ok()
}

/// Relies on `String::from_utf8_lossy`: valid UTF-8 is decoded as it is.
#[verifier::external_body]
fn lossy_to_text(b: &Vec<u8>) -> (r: String)
    ensures
        r@ == lenient_text(b@),
        !valid_utf8(b@) ==> r@ == lossy_utf8(b@),
{
    String::from_utf8_lossy(b.as_slice()).into_owned()
}

/// Relies on chrono's `NaiveDate::from_ymd_opt`, `NaiveTime::from_hms_opt`
/// and the `%Y-%m-%d %H:%M:%S` format of `NaiveDateTime`.
#[verifier::external_body]
fn format_datetime(y: u16, mo: u8, d: u8, h: u8, mi: u8, s: u8) -> (r: Option<String>)
    ensures
        r is Some <==> valid_datetime(y, mo, d, h, mi, s),
        r matches Some(t) ==> t@ == datetime_text(y, mo, d, h, mi, s),
{
    let date = chrono::NaiveDate::from_ymd_opt(y as i32, mo as u32, d as u32)?;
    let time = chrono::NaiveTime::from_hms_opt(h as u32, mi as u32, s as u32)?;
    Some(chrono::NaiveDateTime::new(date, time).format("%Y-%m-%d %H:%M:%S").to_string())
}

/// The value behind an optional reference.
pub open spec fn owned(v: Option<&ColumnValue>) -> Option<ColumnValue> {
    match v {
        Some(c) => Some(*c),
        None => None,
    }
}

/// A column read as a `u32`.
pub fn column_u32(v: Option<&ColumnValue>) -> (r: Option<u32>)
    ensures
        r == (match v {
            Some(c) => value_u32(*c),
            None => None,
        }),
{
    match v {
        Some(ColumnValue::Int(x)) => {
            if 0 <= *x && *x <= 0xffff_ffff {
                Some(*x as u32)
            } else {
                None
            }
        },
        Some(ColumnValue::UInt(x)) => {
            if *x <= 0xffff_ffff {
                Some(*x as u32)
            } else {
                None
            }
        },
        Some(ColumnValue::Bytes(b)) => text_to_u32(b),
        _ => None,
    }
}

/// What the name column reads as: bytes decoded leniently, nothing else.
pub open spec fn name_text(v: Option<ColumnValue>) -> Option<Seq<char>> {
    match v {
        Some(ColumnValue::Bytes(b)) => Some(lenient_text(b@)),
        _ => None,
    }
}

/// What the order time column reads as: a date formatted as text, or
/// bytes that are valid UTF-8.
pub open spec fn datetime_value_text(v: Option<ColumnValue>) -> Option<Seq<char>> {
    match v {
        Some(ColumnValue::Date(y, mo, d, h, mi, s, _)) => if valid_datetime(y, mo, d, h, mi, s) {
            Some(datetime_text(y, mo, d, h, mi, s))
        } else {
            None
        },
        Some(ColumnValue::Bytes(b)) => if valid_utf8(b@) {
            Some(decode_utf8(b@))
        } else {
            None
        },
        _ => None,
    }
}

/// The name column read as text.
pub fn column_name_text(v: Option<&ColumnValue>) -> (r: Option<String>)
    ensures
        r is Some <==> name_text(owned(v)) is Some,
        r matches Some(t) ==> name_text(owned(v)) == Some(t@),
{
    match v {
        Some(ColumnValue::Bytes(b)) => Some(lossy_to_text(b)),
        _ => None,
    }
}

/// The order time column read as text.
pub fn column_datetime_text(v: Option<&ColumnValue>) -> (r: Option<String>)
    ensures
        r is Some <==> datetime_value_text(owned(v)) is Some,
        r matches Some(t) ==> datetime_value_text(owned(v)) == Some(t@),
{
    match v {
        Some(ColumnValue::Date(y, mo, d, h, mi, s, _)) => format_datetime(*y, *mo, *d, *h, *mi, *s),
        Some(ColumnValue::Bytes(b)) => utf8_to_text(b),
        _ => None,
    }
}

} // verus!
