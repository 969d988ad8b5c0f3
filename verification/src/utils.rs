//! Field converters and the generic fixed-width field extractor.
//!
//! Each converter turns a raw text slice into a typed value, or fails with a
//! [`ConversionError`] naming the expected type and the offending text.  The
//! extractor [`parse_field`] slices a line by a half-open column range and
//! applies a converter, failing distinctly when the range does not fit on
//! the line.

use vstd::prelude::*;
use vstd::pervasive::arbitrary;
use core::ops::Range;
use crate::date::{Date, spec_date_ok, spec_date_of, days_in_month, is_leap_year};
use crate::digits::{
    all_digits, digits_val, is_digit, lemma_digits_val_prefix_le,
    lemma_digits_val_take_succ,
};
use crate::errors::{ConversionError, ConversionErrorView, FieldError, FieldErrorView};

verus! {

/// The converter a field layout names: one per field type.
#[derive(Clone, Copy, Debug, PartialEq, Eq, Structural)]
pub enum ConvKind {
    Date,
    Str,
    U8,
    U64,
    Duplicate,
}

/// True when the half-open column range `start..end` fits on the line `l`.
pub open spec fn range_fits(l: Seq<char>, start: int, end: int) -> bool {
    0 <= start <= end <= l.len()
}

/// True when the slice `s` converts under converter kind `k`.
pub open spec fn spec_conv_ok(k: ConvKind, s: Seq<char>) -> bool {
    match k {
        ConvKind::Date => spec_date_ok(s),
        ConvKind::Str => true,
        ConvKind::U8 => spec_uint_ok(s, 255),
        ConvKind::U64 => spec_uint_ok(s, u64::MAX as int),
        ConvKind::Duplicate => spec_duplicate_ok(s),
    }
}

/// The conversion error that converter kind `k` reports on a slice `s` it
/// rejects.  A string conversion never fails, so its branch is vacuous.
pub open spec fn spec_conv_err(k: ConvKind, s: Seq<char>) -> ConversionErrorView {
    match k {
        ConvKind::Date => ConversionErrorView::BadDate { text: s },
        ConvKind::Str => arbitrary(),
        ConvKind::U8 => ConversionErrorView::BadU8 { text: s },
        ConvKind::U64 => ConversionErrorView::BadU64 { text: s },
        ConvKind::Duplicate => ConversionErrorView::BadDuplicate { text: s },
    }
}

/// True when extracting the field `start..end` of line `l` with converter
/// kind `k` succeeds: the range fits and the slice converts.
pub open spec fn spec_field_ok(l: Seq<char>, start: int, end: int, k: ConvKind) -> bool {
    range_fits(l, start, end) && spec_conv_ok(k, l.subrange(start, end))
}

/// The error that extracting the field `start..end` of line `l` with
/// converter kind `k` reports when it fails: a range error when the range
/// does not fit, else the converter's own error tagged with the range.
pub open spec fn spec_field_err(l: Seq<char>, start: int, end: int, k: ConvKind) -> FieldErrorView {
    if !range_fits(l, start, end) {
        FieldErrorView::Range { start, end }
    } else {
        FieldErrorView::Conversion { start, end, cause: spec_conv_err(k, l.subrange(start, end)) }
    }
}

/// True when `s` is the text of a duplicate-file flag: the letter `D` or a
/// single space.
pub open spec fn spec_duplicate_ok(s: Seq<char>) -> bool {
    s.len() == 1 && (s[0] == 'D' || s[0] == ' ')
}

/// True when `s` is a nonempty digit string whose value is at most `bound`.
pub open spec fn spec_uint_ok(s: Seq<char>, bound: int) -> bool {
    s.len() > 0 && all_digits(s) && digits_val(s) <= bound
}

/// Returns the slice verbatim as an owned value; never fails.
pub fn parse_str(s: &str) -> (r: Result<String, ConversionError>)
    ensures
        r matches Ok(v) && v@ == s@,
{
    Ok(s.to_owned())
}

/// Maps the duplicate-file flag `D` to true and a single space to false;
/// any other text fails.
pub fn parse_duplicate(s: &str) -> (r: Result<bool, ConversionError>)
    ensures
        spec_duplicate_ok(s@) ==> (r matches Ok(b) && b == (s@[0] == 'D')),
        !spec_duplicate_ok(s@) ==> (r matches Err(e) && e@ == (ConversionErrorView::BadDuplicate {
            text: s@,
        })),
{
    if s.unicode_len() == 1 {
        let c = s.get_char(0);
        if c == 'D' {
            return Ok(true);
        }
        if c == ' ' {
            return Ok(false);
        }
    }
    Err(ConversionError::BadDuplicate { text: s.to_owned() })
}

/// Reads a nonempty decimal digit string as a number, or reports that the
/// text is not such a string or that its value exceeds `u64`.
fn parse_digits(s: &str) -> (r: Option<u64>)
    ensures
        (r matches Some(v)) <==> spec_uint_ok(s@, u64::MAX as int),
        r matches Some(v) ==> v as int == digits_val(s@),
{
    let n = s.unicode_len();
    if n == 0 {
        return None;
    }
    let mut acc: u64 = 0;
    let mut i: usize = 0;
    while i < n
        invariant
            n == s@.len(),
            0 < n,
            0 <= i <= n,
            all_digits(s@.take(i as int)),
            acc as int == digits_val(s@.take(i as int)),
        decreases n - i,
    {
        let c = s.get_char(i);
        if c < '0' || c > '9' {
            assert(!is_digit(s@[i as int]));
            return None;
        }
        let d: u64 = (c as u32 - 48) as u64;
        proof {
            lemma_digits_val_take_succ(s@, i as int);
        }
        let acc10 = match acc.checked_mul(10) {
            Some(x) => x,
            None => {
                proof {
                    if all_digits(s@) {
                        lemma_digits_val_prefix_le(s@, i as int + 1);
                    }
                }
                return None;
            },
        };
        acc = match acc10.checked_add(d) {
            Some(x) => x,
            None => {
                proof {
                    if all_digits(s@) {
                        lemma_digits_val_prefix_le(s@, i as int + 1);
                    }
                }
                return None;
            },
        };
        proof {
            assert(s@.take(i + 1 as int) =~= s@.take(i as int).push(s@[i as int]));
        }
        i = i + 1;
    }
    proof {
        assert(s@.take(n as int) =~= s@);
    }
    Some(acc)
}

/// Parses digits into an unsigned 8-bit integer; fails if the text is not
/// numeric or its value exceeds 255.
pub fn parse_u8(s: &str) -> (r: Result<u8, ConversionError>)
    ensures
        spec_uint_ok(s@, 255) ==> (r matches Ok(v) && v as int == digits_val(s@)),
        !spec_uint_ok(s@, 255) ==> (r matches Err(e) && e@ == (ConversionErrorView::BadU8 {
            text: s@,
        })),
{
    match parse_digits(s) {
        Some(v) => {
            if v <= 255 {
                Ok(v as u8)
            } else {
                Err(ConversionError::BadU8 { text: s.to_owned() })
            }
        },
        None => Err(ConversionError::BadU8 { text: s.to_owned() }),
    }
}

/// Parses digits into an unsigned 64-bit integer; fails if the text is not
/// numeric or its value overflows.
pub fn parse_u64(s: &str) -> (r: Result<u64, ConversionError>)
    ensures
        spec_uint_ok(s@, u64::MAX as int) ==> (r matches Ok(v) && v as int == digits_val(s@)),
        !spec_uint_ok(s@, u64::MAX as int) ==> (r matches Err(e) && e@ == (
        ConversionErrorView::BadU64 { text: s@ }
        )),
{
    match parse_digits(s) {
        Some(v) => Ok(v),
        None => Err(ConversionError::BadU64 { text: s.to_owned() }),
    }
}

/// Parses exactly six digits `DDMMYY` into a calendar date; fails if the
/// text is not six digits or does not name a real day of the calendar.
pub fn parse_date(s: &str) -> (r: Result<Date, ConversionError>)
    ensures
        spec_date_ok(s@) ==> (r matches Ok(d) && d == spec_date_of(s@) && d.wf()),
        !spec_date_ok(s@) ==> (r matches Err(e) && e@ == (ConversionErrorView::BadDate {
            text: s@,
        })),
{
    if s.unicode_len() != 6 {
        return Err(ConversionError::BadDate { text: s.to_owned() });
    }
    let c0 = s.get_char(0);
    let c1 = s.get_char(1);
    let c2 = s.get_char(2);
    let c3 = s.get_char(3);
    let c4 = s.get_char(4);
    let c5 = s.get_char(5);
    if c0 < '0' || c0 > '9' || c1 < '0' || c1 > '9' || c2 < '0' || c2 > '9' || c3 < '0' || c3 > '9'
        || c4 < '0' || c4 > '9' || c5 < '0' || c5 > '9' {
        return Err(ConversionError::BadDate { text: s.to_owned() });
    }
    assert(all_digits(s@));
    let day: u32 = (c0 as u32 - 48) * 10 + (c1 as u32 - 48);
    let month: u32 = (c2 as u32 - 48) * 10 + (c3 as u32 - 48);
    let yy: u32 = (c4 as u32 - 48) * 10 + (c5 as u32 - 48);
    let year: u32 = if yy >= 69 {
        1900 + yy
    } else {
        2000 + yy
    };
    if month < 1 || month > 12 {
        return Err(ConversionError::BadDate { text: s.to_owned() });
    }
    let dim = days_in_month_of(year as u16, month as u8);
    if day < 1 || day > dim as u32 {
        return Err(ConversionError::BadDate { text: s.to_owned() });
    }
    Ok(Date { year: year as u16, month: month as u8, day: day as u8 })
}

/// Number of days of month `month` in year `year`.
fn days_in_month_of(year: u16, month: u8) -> (d: u8)
    requires
        1 <= month <= 12,
    ensures
        d as int == days_in_month(year as int, month as int),
{
    if month == 2 {
        let leap = (year % 4 == 0 && year % 100 != 0) || year % 400 == 0;
        proof {
            assert(leap == is_leap_year(year as int));
        }
        if leap {
            29
        } else {
            28
        }
    } else if month == 4 || month == 6 || month == 9 || month == 11 {
        30
    } else {
        31
    }
}

/// Slices `line` by the half-open column range `range` and applies
/// `convert` to the slice.  When the line is shorter than the range (or the
/// range is reversed) the result is a range error carrying the range; when
/// the converter fails its error is carried with the range attached.
pub fn parse_field<T, F: Fn(&str) -> Result<T, ConversionError>>(
    line: &str,
    range: Range<usize>,
    convert: F,
) -> (r: Result<T, FieldError>)
    requires
        forall|s: &str|
            s@ == line@.subrange(range.start as int, range.end as int) ==> call_requires(
                convert,
                (s,),
            ),
    ensures
        !(range.start <= range.end && range.end <= line@.len()) ==> (r matches Err(e) && e@ == (
        FieldErrorView::Range { start: range.start as int, end: range.end as int }
        )),
        range.start <= range.end && range.end <= line@.len() ==> (match r {
            Ok(v) => exists|s: &str|
                s@ == line@.subrange(range.start as int, range.end as int) && call_ensures(
                    convert,
                    (s,),
                    Ok(v),
                ),
            Err(e) => e matches FieldError::Conversion { start, end, cause }
                && start == range.start && end == range.end && exists|s: &str|
                s@ == line@.subrange(range.start as int, range.end as int) && call_ensures(
                    convert,
                    (s,),
                    Err(cause),
                ),
        }),
{
    let start = range.start;
    let end = range.end;
    if start > end || end > line.unicode_len() {
        return Err(FieldError::Range { start, end });
    }
    let part = line.substring_char(start, end);
    match convert(part) {
        Ok(v) => Ok(v),
        Err(e) => Err(FieldError::Conversion { start, end, cause: e }),
    }
}

/// Extracts the field `start..end` of `line` as a calendar date.
pub(crate) fn extract_date(line: &str, start: usize, end: usize) -> (r: Result<Date, FieldError>)
    ensures
        spec_field_ok(line@, start as int, end as int, ConvKind::Date) ==> (r matches Ok(d) && d
            == spec_date_of(line@.subrange(start as int, end as int))),
        !spec_field_ok(line@, start as int, end as int, ConvKind::Date) ==> (r matches Err(e) && e@
            == spec_field_err(line@, start as int, end as int, ConvKind::Date)),
{
    let r = parse_field(line, start..end, parse_date);
    proof {
        let sub = line@.subrange(start as int, end as int);
        if range_fits(line@, start as int, end as int) {
            match &r {
                Ok(d) => {
                    let s = choose|s: &str|
                        s@ == sub && call_ensures(parse_date, (s,), Ok::<
                            Date,
                            ConversionError,
                        >(*d));
                    assert(spec_date_ok(sub) && *d == spec_date_of(sub));
                },
                Err(e) => {
                    let cause = e->Conversion_cause;
                    let s = choose|s: &str|
                        s@ == sub && call_ensures(parse_date, (s,), Err::<
                            Date,
                            ConversionError,
                        >(cause));
                    assert(!spec_date_ok(sub));
                    assert(cause@ == spec_conv_err(ConvKind::Date, sub));
                },
            }
        }
    }
    r
}

/// Extracts the field `start..end` of `line` verbatim as an owned string.
pub(crate) fn extract_str(line: &str, start: usize, end: usize) -> (r: Result<String, FieldError>)
    ensures
        spec_field_ok(line@, start as int, end as int, ConvKind::Str) ==> (r matches Ok(v) && v@
            == line@.subrange(start as int, end as int)),
        !spec_field_ok(line@, start as int, end as int, ConvKind::Str) ==> (r matches Err(e) && e@
            == spec_field_err(line@, start as int, end as int, ConvKind::Str)),
{
    let r = parse_field(line, start..end, parse_str);
    proof {
        let sub = line@.subrange(start as int, end as int);
        if range_fits(line@, start as int, end as int) {
            match &r {
                Ok(v) => {
                    let s = choose|s: &str|
                        s@ == sub && call_ensures(parse_str, (s,), Ok::<
                            String,
                            ConversionError,
                        >(*v));
                    assert(v@ == sub);
                },
                Err(e) => {
                    let cause = e->Conversion_cause;
                    let s = choose|s: &str|
                        s@ == sub && call_ensures(parse_str, (s,), Err::<
                            String,
                            ConversionError,
                        >(cause));
                    assert(false);
                },
            }
        }
    }
    r
}

/// Extracts the field `start..end` of `line` as an unsigned 8-bit integer.
pub(crate) fn extract_u8(line: &str, start: usize, end: usize) -> (r: Result<u8, FieldError>)
    ensures
        spec_field_ok(line@, start as int, end as int, ConvKind::U8) ==> (r matches Ok(v)
            && v as int == digits_val(line@.subrange(start as int, end as int))),
        !spec_field_ok(line@, start as int, end as int, ConvKind::U8) ==> (r matches Err(e) && e@
            == spec_field_err(line@, start as int, end as int, ConvKind::U8)),
{
    let r = parse_field(line, start..end, parse_u8);
    proof {
        let sub = line@.subrange(start as int, end as int);
        if range_fits(line@, start as int, end as int) {
            match &r {
                Ok(v) => {
                    let s = choose|s: &str|
                        s@ == sub && call_ensures(parse_u8, (s,), Ok::<u8, ConversionError>(*v));
                    assert(spec_uint_ok(sub, 255) && *v as int == digits_val(sub));
                },
                Err(e) => {
                    let cause = e->Conversion_cause;
                    let s = choose|s: &str|
                        s@ == sub && call_ensures(parse_u8, (s,), Err::<u8, ConversionError>(cause));
                    assert(!spec_uint_ok(sub, 255));
                    assert(cause@ == spec_conv_err(ConvKind::U8, sub));
                },
            }
        }
    }
    r
}

/// Extracts the field `start..end` of `line` as an unsigned 64-bit integer.
pub(crate) fn extract_u64(line: &str, start: usize, end: usize) -> (r: Result<u64, FieldError>)
    ensures
        spec_field_ok(line@, start as int, end as int, ConvKind::U64) ==> (r matches Ok(v)
            && v as int == digits_val(line@.subrange(start as int, end as int))),
        !spec_field_ok(line@, start as int, end as int, ConvKind::U64) ==> (r matches Err(e) && e@
            == spec_field_err(line@, start as int, end as int, ConvKind::U64)),
{
    let r = parse_field(line, start..end, parse_u64);
    proof {
        let sub = line@.subrange(start as int, end as int);
        if range_fits(line@, start as int, end as int) {
            match &r {
                Ok(v) => {
                    let s = choose|s: &str|
                        s@ == sub && call_ensures(parse_u64, (s,), Ok::<u64, ConversionError>(*v));
                    assert(spec_uint_ok(sub, u64::MAX as int) && *v as int == digits_val(sub));
                },
                Err(e) => {
                    let cause = e->Conversion_cause;
                    let s = choose|s: &str|
                        s@ == sub && call_ensures(parse_u64, (s,), Err::<
                            u64,
                            ConversionError,
                        >(cause));
                    assert(!spec_uint_ok(sub, u64::MAX as int));
                    assert(cause@ == spec_conv_err(ConvKind::U64, sub));
                },
            }
        }
    }
    r
}

/// Extracts the field `start..end` of `line` as a duplicate-file flag.
pub(crate) fn extract_duplicate(line: &str, start: usize, end: usize) -> (r: Result<
    bool,
    FieldError,
>)
    ensures
        spec_field_ok(line@, start as int, end as int, ConvKind::Duplicate) ==> (r matches Ok(b)
            && b == (line@.subrange(start as int, end as int)[0] == 'D')),
        !spec_field_ok(line@, start as int, end as int, ConvKind::Duplicate) ==> (r matches Err(e)
            && e@ == spec_field_err(line@, start as int, end as int, ConvKind::Duplicate)),
{
    let r = parse_field(line, start..end, parse_duplicate);
    proof {
        let sub = line@.subrange(start as int, end as int);
        if range_fits(line@, start as int, end as int) {
            match &r {
                Ok(b) => {
                    let s = choose|s: &str|
                        s@ == sub && call_ensures(parse_duplicate, (s,), Ok::<
                            bool,
                            ConversionError,
                        >(*b));
                    assert(spec_duplicate_ok(sub) && *b == (sub[0] == 'D'));
                },
                Err(e) => {
                    let cause = e->Conversion_cause;
                    let s = choose|s: &str|
                        s@ == sub && call_ensures(parse_duplicate, (s,), Err::<
                            bool,
                            ConversionError,
                        >(cause));
                    assert(!spec_duplicate_ok(sub));
                    assert(cause@ == spec_conv_err(ConvKind::Duplicate, sub));
                },
            }
        }
    }
    r
}

} // verus!
