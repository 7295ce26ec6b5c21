//! The values that go into and come out of the engine, and their decoding
//! into the types of the caller.
//!
//! Text and blobs are either borrowed from a buffer of the engine, which is
//! valid until the statement is stepped or reset, or owned. A value that is
//! to outlive the current step has to be decoded, which copies it.

use crate::error::{Error, ErrorKind, Result};
use chrono::{NaiveDate, NaiveDateTime, NaiveTime, ParseError};
use mown::Mown;
use std::fmt::Write;
use vstd::prelude::*;
use vstd::std_specs::convert::FromSpecImpl;

verus! {

/// A text that is borrowed or owned: `Mown<str>` of the `mown` crate.
#[verifier::external_body]
pub struct Text<'a> {
    inner: Mown<'a, str>,
}

/// Bytes that are borrowed or owned: `Mown<[u8]>` of the `mown` crate.
#[verifier::external_body]
pub struct Blob<'a> {
    inner: Mown<'a, [u8]>,
}

/// The characters of a text.
pub uninterp spec fn text_of(text: Text) -> Seq<char>;

/// Whether a text is an owned copy.
pub uninterp spec fn text_is_owned(text: Text) -> bool;

/// The bytes of a blob.
pub uninterp spec fn blob_of(blob: Blob) -> Seq<u8>;

/// Whether a blob is an owned copy.
pub uninterp spec fn blob_is_owned(blob: Blob) -> bool;

/// `Mown::Borrowed` on a string slice: the text is the slice, not a copy.
#[verifier::external_body]
fn text_borrowed<'a>(s: &'a str) -> (text: Text<'a>)
    ensures
        text_of(text) == s@,
        !text_is_owned(text),
{
    Text { inner: Mown::Borrowed(s) }
}

/// `Mown::Owned` on a `String`: the text is the string, owned.
#[verifier::external_body]
fn text_owned<'a>(s: String) -> (text: Text<'a>)
    ensures
        text_of(text) == s@,
        text_is_owned(text),
{
    Text { inner: Mown::Owned(s) }
}

/// `Mown::as_ref`: the text as a slice.
#[verifier::external_body]
fn text_as_str<'b, 'a>(text: &'b Text<'a>) -> (s: &'b str)
    ensures
        s@ == text_of(*text),
{
    text.inner.as_ref()
}

/// `Mown::into_owned`: the owned string, or a copy of the borrowed slice.
#[verifier::external_body]
fn text_into_string<'a>(text: Text<'a>) -> (s: String)
    ensures
        s@ == text_of(text),
{
    text.inner.into_owned()
}

/// `Mown::is_owned` on a text.
#[verifier::external_body]
fn text_owns<'a>(text: &Text<'a>) -> (owned: bool)
    ensures
        owned == text_is_owned(*text),
{
    text.inner.is_owned()
}

/// `Mown::Borrowed` on a byte slice: the blob is the slice, not a copy.
#[verifier::external_body]
fn blob_borrowed<'a>(bytes: &'a [u8]) -> (blob: Blob<'a>)
    ensures
        blob_of(blob) == bytes@,
        !blob_is_owned(blob),
{
    Blob { inner: Mown::Borrowed(bytes) }
}

/// `Mown::Owned` on a vector of bytes: the blob is the vector, owned.
#[verifier::external_body]
fn blob_owned<'a>(bytes: Vec<u8>) -> (blob: Blob<'a>)
    ensures
        blob_of(blob) == bytes@,
        blob_is_owned(blob),
{
    Blob { inner: Mown::Owned(bytes) }
}

/// `Mown::as_ref`: the blob as a slice.
#[verifier::external_body]
fn blob_as_slice<'b, 'a>(blob: &'b Blob<'a>) -> (bytes: &'b [u8])
    ensures
        bytes@ == blob_of(*blob),
{
    blob.inner.as_ref()
}

/// `Mown::is_owned` on a blob.
#[verifier::external_body]
fn blob_owns<'a>(blob: &Blob<'a>) -> (owned: bool)
    ensures
        owned == blob_is_owned(*blob),
{
    blob.inner.is_owned()
}

impl<'a> View for Text<'a> {
    type V = Seq<char>;

    open spec fn view(&self) -> Seq<char> {
        text_of(*self)
    }
}

impl<'a> View for Blob<'a> {
    type V = Seq<u8>;

    open spec fn view(&self) -> Seq<u8> {
        blob_of(*self)
    }
}

impl<'a> Text<'a> {
    /// A text that borrows `s`.
    pub fn borrowed(s: &'a str) -> (text: Text<'a>)
        ensures
            text@ == s@,
            !text_is_owned(text),
    {
        text_borrowed(s)
    }

    /// A text that owns `s`.
    pub fn owned(s: String) -> (text: Text<'a>)
        ensures
            text@ == s@,
            text_is_owned(text),
    {
        text_owned(s)
    }

    pub fn as_str(&self) -> (s: &str)
        ensures
            s@ == self@,
    {
        text_as_str(self)
    }

    /// The text as an owned string; a borrowed text is copied.
    pub fn into_string(self) -> (s: String)
        ensures
            s@ == self@,
    {
        text_into_string(self)
    }

    pub fn is_owned(&self) -> (owned: bool)
        ensures
            owned == text_is_owned(*self),
    {
        text_owns(self)
    }
}

impl<'a> Blob<'a> {
    /// A blob that borrows `bytes`.
    pub fn borrowed(bytes: &'a [u8]) -> (blob: Blob<'a>)
        ensures
            blob@ == bytes@,
            !blob_is_owned(blob),
    {
        blob_borrowed(bytes)
    }

    /// A blob that owns `bytes`.
    pub fn owned(bytes: Vec<u8>) -> (blob: Blob<'a>)
        ensures
            blob@ == bytes@,
            blob_is_owned(blob),
    {
        blob_owned(bytes)
    }

    pub fn as_slice(&self) -> (bytes: &[u8])
        ensures
            bytes@ == self@,
    {
        blob_as_slice(self)
    }

    pub fn is_owned(&self) -> (owned: bool)
        ensures
            owned == blob_is_owned(*self),
    {
        blob_owns(self)
    }
}

/// A 64-bit floating point number, held as its IEEE 754 bit pattern.
#[derive(Clone, Copy, Debug, PartialEq, Eq, Structural)]
pub struct Float {
    pub bits: u64,
}

/// A value of one column, or of one parameter.
pub enum Value<'a> {
    Integer(i64),
    Float(Float),
    Text(Text<'a>),
    Blob(Blob<'a>),
    Null,
}

/// The error of a value that does not fit the type asked for.
pub open spec fn conversion_failed() -> Error {
    Error { kind: ErrorKind::ConversionFailed, source: None }
}

/// The integer of a value, if the value is an integer between `low` and
/// `high`.
pub open spec fn integer_within(value: Value, low: int, high: int) -> Option<int> {
    match value {
        Value::Integer(i) => if low <= i <= high {
            Some(i as int)
        } else {
            None
        },
        _ => None,
    }
}

/// Types that a column value can be decoded into.
///
/// A value of the wrong kind, or out of the range of the type, is a failed
/// conversion. What each type takes is stated with its implementation.
pub trait FromValue: Sized {
    fn from_value<'a>(value: Value<'a>) -> Result<Self>;
}

/// Any value decodes to the unit.
impl FromValue for () {
    fn from_value<'a>(_value: Value<'a>) -> (r: Result<()>)
        ensures
            r == Ok::<(), Error>(()),
    {
        Ok(())
    }
}

/// An integer that is not negative and fits the machine word.
impl FromValue for usize {
    fn from_value<'a>(value: Value<'a>) -> (r: Result<usize>)
        ensures
            match integer_within(value, 0, usize::MAX as int) {
                Some(i) => r == Ok::<usize, Error>(i as usize),
                None => r == Err::<usize, Error>(conversion_failed()),
            },
    {
        match value {
            Value::Integer(i) => {
                if i >= 0 && i as u64 <= usize::MAX as u64 {
                    Ok(i as usize)
                } else {
                    Err(ErrorKind::ConversionFailed.err())
                }
            },
            _ => Err(ErrorKind::ConversionFailed.err()),
        }
    }
}

/// An integer from 0 to 4294967295.
impl FromValue for u32 {
    fn from_value<'a>(value: Value<'a>) -> (r: Result<u32>)
        ensures
            match integer_within(value, 0, u32::MAX as int) {
                Some(i) => r == Ok::<u32, Error>(i as u32),
                None => r == Err::<u32, Error>(conversion_failed()),
            },
    {
        match value {
            Value::Integer(i) => {
                if i >= 0 && i <= 0xffff_ffff {
                    Ok(i as u32)
                } else {
                    Err(ErrorKind::ConversionFailed.err())
                }
            },
            _ => Err(ErrorKind::ConversionFailed.err()),
        }
    }
}

/// An integer from -2147483648 to 2147483647.
impl FromValue for i32 {
    fn from_value<'a>(value: Value<'a>) -> (r: Result<i32>)
        ensures
            match integer_within(value, i32::MIN as int, i32::MAX as int) {
                Some(i) => r == Ok::<i32, Error>(i as i32),
                None => r == Err::<i32, Error>(conversion_failed()),
            },
    {
        match value {
            Value::Integer(i) => {
                if i >= -0x8000_0000 && i <= 0x7fff_ffff {
                    Ok(i as i32)
                } else {
                    Err(ErrorKind::ConversionFailed.err())
                }
            },
            _ => Err(ErrorKind::ConversionFailed.err()),
        }
    }
}

/// An integer that is not negative.
impl FromValue for u64 {
    fn from_value<'a>(value: Value<'a>) -> (r: Result<u64>)
        ensures
            match integer_within(value, 0, i64::MAX as int) {
                Some(i) => r == Ok::<u64, Error>(i as u64),
                None => r == Err::<u64, Error>(conversion_failed()),
            },
    {
        match value {
            Value::Integer(i) => {
                if i >= 0 {
                    Ok(i as u64)
                } else {
                    Err(ErrorKind::ConversionFailed.err())
                }
            },
            _ => Err(ErrorKind::ConversionFailed.err()),
        }
    }
}

/// Any integer.
impl FromValue for i64 {
    fn from_value<'a>(value: Value<'a>) -> (r: Result<i64>)
        ensures
            match integer_within(value, i64::MIN as int, i64::MAX as int) {
                Some(i) => r == Ok::<i64, Error>(i as i64),
                None => r == Err::<i64, Error>(conversion_failed()),
            },
    {
        match value {
            Value::Integer(i) => Ok(i),
            _ => Err(ErrorKind::ConversionFailed.err()),
        }
    }
}

/// A text, as an owned copy.
impl FromValue for String {
    fn from_value<'a>(value: Value<'a>) -> (r: Result<String>)
        ensures
            value matches Value::Text(text) ==> r matches Ok(s) && s@ == text@,
            !(value is Text) ==> r == Err::<String, Error>(conversion_failed()),
    {
        match value {
            Value::Text(text) => Ok(text.into_string()),
            _ => Err(ErrorKind::ConversionFailed.err()),
        }
    }
}

/// Null decodes to `None`; any other value decodes as it does for `T`, to
/// `Some` of what it gives or to its error.
impl<T: FromValue> FromValue for Option<T> {
    fn from_value<'a>(value: Value<'a>) -> (r: Result<Option<T>>)
        ensures
            value is Null ==> r == Ok::<Option<T>, Error>(None),
            !(value is Null) ==> match r {
                Ok(Some(inner)) => call_ensures(<T as FromValue>::from_value, (value,), Ok(inner)),
                Ok(None) => false,
                Err(e) => call_ensures(<T as FromValue>::from_value, (value,), Err::<T, Error>(e)),
            },
    {
        match value {
            Value::Null => Ok(None),
            some => match T::from_value(some) {
                Ok(inner) => Ok(Some(inner)),
                Err(e) => Err(e),
            },
        }
    }
}

/// An unsigned word as an integer. The engine's integers are signed and 64
/// bits wide: a number beyond their range keeps its bits and reads as
/// negative.
impl<'a> From<usize> for Value<'a> {
    fn from(i: usize) -> (value: Value<'a>) {
        Value::Integer(#[verifier::truncate] (i as i64))
    }
}

impl<'a> FromSpecImpl<usize> for Value<'a> {
    open spec fn obeys_from_spec() -> bool {
        true
    }

    open spec fn from_spec(i: usize) -> Value<'a> {
        Value::Integer(i as i64)
    }
}

/// An unsigned 64-bit number as an integer. A number beyond the signed
/// range keeps its bits and reads as negative.
impl<'a> From<u64> for Value<'a> {
    fn from(i: u64) -> (value: Value<'a>) {
        Value::Integer(#[verifier::truncate] (i as i64))
    }
}

impl<'a> FromSpecImpl<u64> for Value<'a> {
    open spec fn obeys_from_spec() -> bool {
        true
    }

    open spec fn from_spec(i: u64) -> Value<'a> {
        Value::Integer(i as i64)
    }
}

impl<'a> From<i64> for Value<'a> {
    fn from(i: i64) -> (value: Value<'a>) {
        Value::Integer(i)
    }
}

impl<'a> FromSpecImpl<i64> for Value<'a> {
    open spec fn obeys_from_spec() -> bool {
        true
    }

    open spec fn from_spec(i: i64) -> Value<'a> {
        Value::Integer(i)
    }
}

impl<'a> From<u32> for Value<'a> {
    fn from(i: u32) -> (value: Value<'a>) {
        Value::Integer(i as i64)
    }
}

impl<'a> FromSpecImpl<u32> for Value<'a> {
    open spec fn obeys_from_spec() -> bool {
        true
    }

    open spec fn from_spec(i: u32) -> Value<'a> {
        Value::Integer(i as i64)
    }
}

impl<'a> From<i32> for Value<'a> {
    fn from(i: i32) -> (value: Value<'a>) {
        Value::Integer(i as i64)
    }
}

impl<'a> FromSpecImpl<i32> for Value<'a> {
    open spec fn obeys_from_spec() -> bool {
        true
    }

    open spec fn from_spec(i: i32) -> Value<'a> {
        Value::Integer(i as i64)
    }
}

impl<'a> Value<'a> {
    /// The value of an owned string: a text that owns it.
    pub fn text(s: String) -> (value: Value<'a>)
        ensures
            value matches Value::Text(text) && text@ == s@ && text_is_owned(text),
    {
        Value::Text(Text::owned(s))
    }

    /// The value of a string slice: a text that borrows it.
    pub fn borrowed_text(s: &'a str) -> (value: Value<'a>)
        ensures
            value matches Value::Text(text) && text@ == s@ && !text_is_owned(text),
    {
        Value::Text(Text::borrowed(s))
    }
}

/// An owned string as a text that owns it.
impl<'a> From<String> for Value<'a> {
    fn from(s: String) -> (value: Value<'a>)
        ensures
            value matches Value::Text(text) && text@ == s@ && text_is_owned(text),
    {
        Value::text(s)
    }
}

impl<'a> FromSpecImpl<String> for Value<'a> {
    /// The result is told by the contract of `from`: no value of the model
    /// stands for a text.
    open spec fn obeys_from_spec() -> bool {
        false
    }

    open spec fn from_spec(s: String) -> Value<'a> {
        Value::Null
    }
}

/// A string slice as a text that borrows it.
impl<'a> From<&'a str> for Value<'a> {
    fn from(s: &'a str) -> (value: Value<'a>)
        ensures
            value matches Value::Text(text) && text@ == s@ && !text_is_owned(text),
    {
        Value::borrowed_text(s)
    }
}

impl<'a> FromSpecImpl<&'a str> for Value<'a> {
    /// The result is told by the contract of `from`: no value of the model
    /// stands for a text.
    open spec fn obeys_from_spec() -> bool {
        false
    }

    open spec fn from_spec(s: &'a str) -> Value<'a> {
        Value::Null
    }
}

/// A calendar date of the `chrono` crate.
#[verifier::external_type_specification]
#[verifier::external_body]
pub struct ExNaiveDate(NaiveDate);

/// A time of day of the `chrono` crate.
#[verifier::external_type_specification]
#[verifier::external_body]
pub struct ExNaiveTime(NaiveTime);

/// A date with a time of day of the `chrono` crate.
#[verifier::external_type_specification]
#[verifier::external_body]
pub struct ExNaiveDateTime(NaiveDateTime);

/// The error of a text that `chrono` cannot parse.
#[verifier::external_type_specification]
#[verifier::external_body]
pub struct ExParseError(ParseError);

/// The date that `chrono` reads from a text under a format, if any.
pub uninterp spec fn parsed_date(text: Seq<char>, format: Seq<char>) -> Option<NaiveDate>;

/// The time that `chrono` reads from a text under a format, if any.
pub uninterp spec fn parsed_time(text: Seq<char>, format: Seq<char>) -> Option<NaiveTime>;

/// The date and time that `chrono` reads from a text under a format, if any.
pub uninterp spec fn parsed_datetime(text: Seq<char>, format: Seq<char>) -> Option<NaiveDateTime>;

/// The text that `chrono` writes for a date under a format, if it can.
pub uninterp spec fn formatted_date(date: NaiveDate, format: Seq<char>) -> Option<Seq<char>>;

/// The text that `chrono` writes for a time under a format, if it can.
pub uninterp spec fn formatted_time(time: NaiveTime, format: Seq<char>) -> Option<Seq<char>>;

/// The text that `chrono` writes for a date and time under a format, if it
/// can.
pub uninterp spec fn formatted_datetime(datetime: NaiveDateTime, format: Seq<char>) -> Option<
    Seq<char>,
>;

/// `NaiveDate::parse_from_str` of `chrono`: what it returns is a function of
/// the text and the format alone.
#[verifier::external_body]
fn parse_date(text: &str, format: &str) -> (r: std::result::Result<NaiveDate, ParseError>)
    ensures
        r matches Ok(date) ==> parsed_date(text@, format@) == Some(date),
        r is Err ==> parsed_date(text@, format@) is None,
{
    NaiveDate::parse_from_str(text, format)
}

/// `NaiveTime::parse_from_str` of `chrono`: what it returns is a function of
/// the text and the format alone.
#[verifier::external_body]
fn parse_time(text: &str, format: &str) -> (r: std::result::Result<NaiveTime, ParseError>)
    ensures
        r matches Ok(time) ==> parsed_time(text@, format@) == Some(time),
        r is Err ==> parsed_time(text@, format@) is None,
{
    NaiveTime::parse_from_str(text, format)
}

/// `NaiveDateTime::parse_from_str` of `chrono`: what it returns is a
/// function of the text and the format alone.
#[verifier::external_body]
fn parse_datetime(text: &str, format: &str) -> (r: std::result::Result<NaiveDateTime, ParseError>)
    ensures
        r matches Ok(datetime) ==> parsed_datetime(text@, format@) == Some(datetime),
        r is Err ==> parsed_datetime(text@, format@) is None,
{
    NaiveDateTime::parse_from_str(text, format)
}

/// `NaiveDate::format` of `chrono`, written out: the text is a function of
/// the date and the format alone, and there is none where the format asks
/// for what a date does not hold.
#[verifier::external_body]
fn format_date(date: &NaiveDate, format: &str) -> (r: Option<String>)
    ensures
        r matches Some(text) ==> formatted_date(*date, format@) == Some(text@),
        r is None ==> formatted_date(*date, format@) is None,
{
    let mut text = String::new();
    match write!(text, "{}", date.format(format)) {
        Ok(()) => Some(text),
        Err(_) => None,
    }
}

/// `NaiveTime::format` of `chrono`, written out: the text is a function of
/// the time and the format alone, and there is none where the format asks
/// for what a time of day does not hold.
#[verifier::external_body]
fn format_time(time: &NaiveTime, format: &str) -> (r: Option<String>)
    ensures
        r matches Some(text) ==> formatted_time(*time, format@) == Some(text@),
        r is None ==> formatted_time(*time, format@) is None,
{
    let mut text = String::new();
    match write!(text, "{}", time.format(format)) {
        Ok(()) => Some(text),
        Err(_) => None,
    }
}

/// `NaiveDateTime::format` of `chrono`, written out: the text is a function
/// of the date and time and the format alone, and there is none where the
/// format asks for what they do not hold, such as an offset.
#[verifier::external_body]
fn format_datetime(datetime: &NaiveDateTime, format: &str) -> (r: Option<String>)
    ensures
        r matches Some(text) ==> formatted_datetime(*datetime, format@) == Some(text@),
        r is None ==> formatted_datetime(*datetime, format@) is None,
{
    let mut text = String::new();
    match write!(text, "{}", datetime.format(format)) {
        Ok(()) => Some(text),
        Err(_) => None,
    }
}

/// The format in which a date is stored as text.
pub open spec fn date_format() -> Seq<char> {
    "%Y-%m-%d"@
}

/// The format in which a time of day is stored as text.
pub open spec fn time_format() -> Seq<char> {
    "%H:%M:%S%.f"@
}

/// The format in which a date with a time is stored as text.
pub open spec fn datetime_format() -> Seq<char> {
    "%+"@
}

/// The date, time or date with time that a value decodes to: a text
/// decodes to what `chrono` reads from it, if anything; everything else is
/// a failed conversion.
pub open spec fn parsed_value<T>(value: Value, parsed: spec_fn(Seq<char>) -> Option<T>) -> Result<
    T,
> {
    match value {
        Value::Text(text) => match parsed(text@) {
            Some(out) => Ok(out),
            None => Err(conversion_failed()),
        },
        _ => Err(conversion_failed()),
    }
}

/// A text in the form year, month, day.
impl FromValue for NaiveDate {
    fn from_value<'a>(value: Value<'a>) -> (r: Result<NaiveDate>)
        ensures
            r == parsed_value(value, |text: Seq<char>| parsed_date(text, date_format())),
    {
        match value {
            Value::Text(text) => match parse_date(text.as_str(), "%Y-%m-%d") {
                Ok(date) => Ok(date),
                Err(_) => Err(ErrorKind::ConversionFailed.err()),
            },
            _ => Err(ErrorKind::ConversionFailed.err()),
        }
    }
}

/// A text in the form hour, minute, second, with or without a fraction.
impl FromValue for NaiveTime {
    fn from_value<'a>(value: Value<'a>) -> (r: Result<NaiveTime>)
        ensures
            r == parsed_value(value, |text: Seq<char>| parsed_time(text, time_format())),
    {
        match value {
            Value::Text(text) => match parse_time(text.as_str(), "%H:%M:%S%.f") {
                Ok(time) => Ok(time),
                Err(_) => Err(ErrorKind::ConversionFailed.err()),
            },
            _ => Err(ErrorKind::ConversionFailed.err()),
        }
    }
}

/// A text in the combined format of date, time and offset.
impl FromValue for NaiveDateTime {
    fn from_value<'a>(value: Value<'a>) -> (r: Result<NaiveDateTime>)
        ensures
            r == parsed_value(value, |text: Seq<char>| parsed_datetime(text, datetime_format())),
    {
        match value {
            Value::Text(text) => match parse_datetime(text.as_str(), "%+") {
                Ok(datetime) => Ok(datetime),
                Err(_) => Err(ErrorKind::ConversionFailed.err()),
            },
            _ => Err(ErrorKind::ConversionFailed.err()),
        }
    }
}

/// The value that a formatted text gives: an owned text, or a failed
/// conversion where there is no text.
pub open spec fn text_value_of(formatted: Option<Seq<char>>, r: Result<Value>) -> bool {
    match formatted {
        Some(written) => r matches Ok(Value::Text(text)) && text@ == written && text_is_owned(
            text,
        ),
        None => r matches Err(e) && e == conversion_failed(),
    }
}

/// The value of a text that may be missing.
pub fn text_value<'a>(formatted: Option<String>) -> (r: Result<Value<'a>>)
    ensures
        text_value_of(
            match formatted {
                Some(s) => Some(s@),
                None => None,
            },
            r,
        ),
{
    match formatted {
        Some(s) => Ok(Value::text(s)),
        None => Err(ErrorKind::ConversionFailed.err()),
    }
}

impl<'a> Value<'a> {
    /// The value of a date: its text as year, month and day.
    pub fn date(date: NaiveDate) -> (r: Result<Value<'a>>)
        ensures
            text_value_of(formatted_date(date, date_format()), r),
    {
        text_value(format_date(&date, "%Y-%m-%d"))
    }

    /// The value of a time of day: its text as hour, minute and second with
    /// the fraction of the second.
    pub fn time(time: NaiveTime) -> (r: Result<Value<'a>>)
        ensures
            text_value_of(formatted_time(time, time_format()), r),
    {
        text_value(format_time(&time, "%H:%M:%S%.f"))
    }

    /// The value of a date with a time: its text in the combined format.
    pub fn datetime(datetime: NaiveDateTime) -> (r: Result<Value<'a>>)
        ensures
            text_value_of(formatted_datetime(datetime, datetime_format()), r),
    {
        text_value(format_datetime(&datetime, "%+"))
    }
}

} // verus!
