//! Decoding a row into a type of the caller.
//!
//! A row is handed over as the values of its columns, first column first. A
//! scalar type takes the first column; a tuple takes one column for each of
//! its parts, in order, and stops at the first that fails. Columns beyond
//! those are not looked at. A column that is not there is a failed
//! conversion.

use crate::error::{Error, ErrorKind, Result};
use crate::value::{conversion_failed, FromValue, Value};
use vstd::prelude::*;

verus! {

/// Types that a row can be decoded into.
pub trait FromRow: Sized {
    fn from_row<'a>(row: Vec<Value<'a>>) -> Result<Self>;
}

/// Whether decoding the column at `i` of `row` into `T` can come to `r`:
/// what decoding its value comes to, or a failed conversion where the row
/// has no such column.
pub open spec fn column_gives<T: FromValue>(row: Seq<Value>, i: int, r: Result<T>) -> bool {
    if 0 <= i < row.len() {
        call_ensures(<T as FromValue>::from_value, (row[i],), r)
    } else {
        r == Err::<T, Error>(conversion_failed())
    }
}

/// Whether the column at `i` of `row` can be decoded into `T`.
pub open spec fn column_fits<T: FromValue>(row: Seq<Value>, i: int) -> bool {
    exists|out: T| #[trigger] column_gives::<T>(row, i, Ok(out))
}

/// Takes the first column off a row and decodes it.
fn column<'a, T: FromValue>(row: &mut Vec<Value<'a>>) -> (r: Result<T>)
    ensures
        column_gives::<T>(old(row)@, 0, r),
        old(row)@.len() > 0 ==> final(row)@ == old(row)@.skip(1),
        old(row)@.len() == 0 ==> final(row)@ == old(row)@,
{
    if row.len() == 0 {
        return Err(ErrorKind::ConversionFailed.err());
    }
    let value = row.remove(0);
    assert(row@ =~= old(row)@.skip(1));
    T::from_value(value)
}

/// A single column decodes into any type that a value decodes into.
impl<T: FromValue> FromRow for T {
    fn from_row<'a>(row: Vec<Value<'a>>) -> (r: Result<T>)
        ensures
            column_gives::<T>(row@, 0, r),
    {
        let mut row = row;
        column::<T>(&mut row)
    }
}

/// A row of two columns decodes into a tuple of two.
impl<T1: FromValue, T2: FromValue> FromRow for (T1, T2) {
    fn from_row<'a>(row: Vec<Value<'a>>) -> (r: Result<(T1, T2)>)
        ensures
            match r {
                Ok(out) => {
                    &&& column_gives::<T1>(row@, 0, Ok(out.0))
                    &&& column_gives::<T2>(row@, 1, Ok(out.1))
                },
                Err(e) => {
                    ||| column_gives::<T1>(row@, 0, Err::<T1, Error>(e))
                    ||| column_fits::<T1>(row@, 0)
                        && column_gives::<T2>(row@, 1, Err::<T2, Error>(e))
                },
            },
    {
        let mut rest = row;
        assert(rest@.skip(0) =~= rest@);
        let c0 = match column::<T1>(&mut rest) {
            Ok(c) => c,
            Err(e) => {
                return Err(e);
            },
        };
        assert(column_gives::<T1>(row@, 0, Ok(c0)));
        assert(rest@ =~= row@.skip(1));
        let c1 = match column::<T2>(&mut rest) {
            Ok(c) => c,
            Err(e) => {
                return Err(e);
            },
        };
        assert(column_gives::<T2>(row@, 1, Ok(c1)));
        Ok((c0, c1))
    }
}

/// A row of three columns decodes into a tuple of three.
impl<T1: FromValue, T2: FromValue, T3: FromValue> FromRow for (T1, T2, T3) {
    fn from_row<'a>(row: Vec<Value<'a>>) -> (r: Result<(T1, T2, T3)>)
        ensures
            match r {
                Ok(out) => {
                    &&& column_gives::<T1>(row@, 0, Ok(out.0))
                    &&& column_gives::<T2>(row@, 1, Ok(out.1))
                    &&& column_gives::<T3>(row@, 2, Ok(out.2))
                },
                Err(e) => {
                    ||| column_gives::<T1>(row@, 0, Err::<T1, Error>(e))
                    ||| column_fits::<T1>(row@, 0)
                        && column_gives::<T2>(row@, 1, Err::<T2, Error>(e))
                    ||| column_fits::<T1>(row@, 0)
                        && column_fits::<T2>(row@, 1)
                        && column_gives::<T3>(row@, 2, Err::<T3, Error>(e))
                },
            },
    {
        let mut rest = row;
        assert(rest@.skip(0) =~= rest@);
        let c0 = match column::<T1>(&mut rest) {
            Ok(c) => c,
            Err(e) => {
                return Err(e);
            },
        };
        assert(column_gives::<T1>(row@, 0, Ok(c0)));
        assert(rest@ =~= row@.skip(1));
        let c1 = match column::<T2>(&mut rest) {
            Ok(c) => c,
            Err(e) => {
                return Err(e);
            },
        };
        assert(column_gives::<T2>(row@, 1, Ok(c1)));
        assert(rest@ =~= row@.skip(2));
        let c2 = match column::<T3>(&mut rest) {
            Ok(c) => c,
            Err(e) => {
                return Err(e);
            },
        };
        assert(column_gives::<T3>(row@, 2, Ok(c2)));
        Ok((c0, c1, c2))
    }
}

/// A row of four columns decodes into a tuple of four.
impl<T1: FromValue, T2: FromValue, T3: FromValue, T4: FromValue> FromRow for (T1, T2, T3, T4) {
    fn from_row<'a>(row: Vec<Value<'a>>) -> (r: Result<(T1, T2, T3, T4)>)
        ensures
            match r {
                Ok(out) => {
                    &&& column_gives::<T1>(row@, 0, Ok(out.0))
                    &&& column_gives::<T2>(row@, 1, Ok(out.1))
                    &&& column_gives::<T3>(row@, 2, Ok(out.2))
                    &&& column_gives::<T4>(row@, 3, Ok(out.3))
                },
                Err(e) => {
                    ||| column_gives::<T1>(row@, 0, Err::<T1, Error>(e))
                    ||| column_fits::<T1>(row@, 0)
                        && column_gives::<T2>(row@, 1, Err::<T2, Error>(e))
                    ||| column_fits::<T1>(row@, 0)
                        && column_fits::<T2>(row@, 1)
                        && column_gives::<T3>(row@, 2, Err::<T3, Error>(e))
                    ||| column_fits::<T1>(row@, 0)
                        && column_fits::<T2>(row@, 1)
                        && column_fits::<T3>(row@, 2)
                        && column_gives::<T4>(row@, 3, Err::<T4, Error>(e))
                },
            },
    {
        let mut rest = row;
        assert(rest@.skip(0) =~= rest@);
        let c0 = match column::<T1>(&mut rest) {
            Ok(c) => c,
            Err(e) => {
                return Err(e);
            },
        };
        assert(column_gives::<T1>(row@, 0, Ok(c0)));
        assert(rest@ =~= row@.skip(1));
        let c1 = match column::<T2>(&mut rest) {
            Ok(c) => c,
            Err(e) => {
                return Err(e);
            },
        };
        assert(column_gives::<T2>(row@, 1, Ok(c1)));
        assert(rest@ =~= row@.skip(2));
        let c2 = match column::<T3>(&mut rest) {
            Ok(c) => c,
            Err(e) => {
                return Err(e);
            },
        };
        assert(column_gives::<T3>(row@, 2, Ok(c2)));
        assert(rest@ =~= row@.skip(3));
        let c3 = match column::<T4>(&mut rest) {
            Ok(c) => c,
            Err(e) => {
                return Err(e);
            },
        };
        assert(column_gives::<T4>(row@, 3, Ok(c3)));
        Ok((c0, c1, c2, c3))
    }
}

/// A row of five columns decodes into a tuple of five.
impl<T1: FromValue, T2: FromValue, T3: FromValue, T4: FromValue, T5: FromValue> FromRow for (T1, T2, T3, T4, T5) {
    fn from_row<'a>(row: Vec<Value<'a>>) -> (r: Result<(T1, T2, T3, T4, T5)>)
        ensures
            match r {
                Ok(out) => {
                    &&& column_gives::<T1>(row@, 0, Ok(out.0))
                    &&& column_gives::<T2>(row@, 1, Ok(out.1))
                    &&& column_gives::<T3>(row@, 2, Ok(out.2))
                    &&& column_gives::<T4>(row@, 3, Ok(out.3))
                    &&& column_gives::<T5>(row@, 4, Ok(out.4))
                },
                Err(e) => {
                    ||| column_gives::<T1>(row@, 0, Err::<T1, Error>(e))
                    ||| column_fits::<T1>(row@, 0)
                        && column_gives::<T2>(row@, 1, Err::<T2, Error>(e))
                    ||| column_fits::<T1>(row@, 0)
                        && column_fits::<T2>(row@, 1)
                        && column_gives::<T3>(row@, 2, Err::<T3, Error>(e))
                    ||| column_fits::<T1>(row@, 0)
                        && column_fits::<T2>(row@, 1)
                        && column_fits::<T3>(row@, 2)
                        && column_gives::<T4>(row@, 3, Err::<T4, Error>(e))
                    ||| column_fits::<T1>(row@, 0)
                        && column_fits::<T2>(row@, 1)
                        && column_fits::<T3>(row@, 2)
                        && column_fits::<T4>(row@, 3)
                        && column_gives::<T5>(row@, 4, Err::<T5, Error>(e))
                },
            },
    {
        let mut rest = row;
        assert(rest@.skip(0) =~= rest@);
        let c0 = match column::<T1>(&mut rest) {
            Ok(c) => c,
            Err(e) => {
                return Err(e);
            },
        };
        assert(column_gives::<T1>(row@, 0, Ok(c0)));
        assert(rest@ =~= row@.skip(1));
        let c1 = match column::<T2>(&mut rest) {
            Ok(c) => c,
            Err(e) => {
                return Err(e);
            },
        };
        assert(column_gives::<T2>(row@, 1, Ok(c1)));
        assert(rest@ =~= row@.skip(2));
        let c2 = match column::<T3>(&mut rest) {
            Ok(c) => c,
            Err(e) => {
                return Err(e);
            },
        };
        assert(column_gives::<T3>(row@, 2, Ok(c2)));
        assert(rest@ =~= row@.skip(3));
        let c3 = match column::<T4>(&mut rest) {
            Ok(c) => c,
            Err(e) => {
                return Err(e);
            },
        };
        assert(column_gives::<T4>(row@, 3, Ok(c3)));
        assert(rest@ =~= row@.skip(4));
        let c4 = match column::<T5>(&mut rest) {
            Ok(c) => c,
            Err(e) => {
                return Err(e);
            },
        };
        assert(column_gives::<T5>(row@, 4, Ok(c4)));
        Ok((c0, c1, c2, c3, c4))
    }
}

/// A row of six columns decodes into a tuple of six.
impl<T1: FromValue, T2: FromValue, T3: FromValue, T4: FromValue, T5: FromValue, T6: FromValue> FromRow for (T1, T2, T3, T4, T5, T6) {
    fn from_row<'a>(row: Vec<Value<'a>>) -> (r: Result<(T1, T2, T3, T4, T5, T6)>)
        ensures
            match r {
                Ok(out) => {
                    &&& column_gives::<T1>(row@, 0, Ok(out.0))
                    &&& column_gives::<T2>(row@, 1, Ok(out.1))
                    &&& column_gives::<T3>(row@, 2, Ok(out.2))
                    &&& column_gives::<T4>(row@, 3, Ok(out.3))
                    &&& column_gives::<T5>(row@, 4, Ok(out.4))
                    &&& column_gives::<T6>(row@, 5, Ok(out.5))
                },
                Err(e) => {
                    ||| column_gives::<T1>(row@, 0, Err::<T1, Error>(e))
                    ||| column_fits::<T1>(row@, 0)
                        && column_gives::<T2>(row@, 1, Err::<T2, Error>(e))
                    ||| column_fits::<T1>(row@, 0)
                        && column_fits::<T2>(row@, 1)
                        && column_gives::<T3>(row@, 2, Err::<T3, Error>(e))
                    ||| column_fits::<T1>(row@, 0)
                        && column_fits::<T2>(row@, 1)
                        && column_fits::<T3>(row@, 2)
                        && column_gives::<T4>(row@, 3, Err::<T4, Error>(e))
                    ||| column_fits::<T1>(row@, 0)
                        && column_fits::<T2>(row@, 1)
                        && column_fits::<T3>(row@, 2)
                        && column_fits::<T4>(row@, 3)
                        && column_gives::<T5>(row@, 4, Err::<T5, Error>(e))
                    ||| column_fits::<T1>(row@, 0)
                        && column_fits::<T2>(row@, 1)
                        && column_fits::<T3>(row@, 2)
                        && column_fits::<T4>(row@, 3)
                        && column_fits::<T5>(row@, 4)
                        && column_gives::<T6>(row@, 5, Err::<T6, Error>(e))
                },
            },
    {
        let mut rest = row;
        assert(rest@.skip(0) =~= rest@);
        let c0 = match column::<T1>(&mut rest) {
            Ok(c) => c,
            Err(e) => {
                return Err(e);
            },
        };
        assert(column_gives::<T1>(row@, 0, Ok(c0)));
        assert(rest@ =~= row@.skip(1));
        let c1 = match column::<T2>(&mut rest) {
            Ok(c) => c,
            Err(e) => {
                return Err(e);
            },
        };
        assert(column_gives::<T2>(row@, 1, Ok(c1)));
        assert(rest@ =~= row@.skip(2));
        let c2 = match column::<T3>(&mut rest) {
            Ok(c) => c,
            Err(e) => {
                return Err(e);
            },
        };
        assert(column_gives::<T3>(row@, 2, Ok(c2)));
        assert(rest@ =~= row@.skip(3));
        let c3 = match column::<T4>(&mut rest) {
            Ok(c) => c,
            Err(e) => {
                return Err(e);
            },
        };
        assert(column_gives::<T4>(row@, 3, Ok(c3)));
        assert(rest@ =~= row@.skip(4));
        let c4 = match column::<T5>(&mut rest) {
            Ok(c) => c,
            Err(e) => {
                return Err(e);
            },
        };
        assert(column_gives::<T5>(row@, 4, Ok(c4)));
        assert(rest@ =~= row@.skip(5));
        let c5 = match column::<T6>(&mut rest) {
            Ok(c) => c,
            Err(e) => {
                return Err(e);
            },
        };
        assert(column_gives::<T6>(row@, 5, Ok(c5)));
        Ok((c0, c1, c2, c3, c4, c5))
    }
}

/// A row of seven columns decodes into a tuple of seven.
impl<T1: FromValue, T2: FromValue, T3: FromValue, T4: FromValue, T5: FromValue, T6: FromValue, T7: FromValue> FromRow for (T1, T2, T3, T4, T5, T6, T7) {
    fn from_row<'a>(row: Vec<Value<'a>>) -> (r: Result<(T1, T2, T3, T4, T5, T6, T7)>)
        ensures
            match r {
                Ok(out) => {
                    &&& column_gives::<T1>(row@, 0, Ok(out.0))
                    &&& column_gives::<T2>(row@, 1, Ok(out.1))
                    &&& column_gives::<T3>(row@, 2, Ok(out.2))
                    &&& column_gives::<T4>(row@, 3, Ok(out.3))
                    &&& column_gives::<T5>(row@, 4, Ok(out.4))
                    &&& column_gives::<T6>(row@, 5, Ok(out.5))
                    &&& column_gives::<T7>(row@, 6, Ok(out.6))
                },
                Err(e) => {
                    ||| column_gives::<T1>(row@, 0, Err::<T1, Error>(e))
                    ||| column_fits::<T1>(row@, 0)
                        && column_gives::<T2>(row@, 1, Err::<T2, Error>(e))
                    ||| column_fits::<T1>(row@, 0)
                        && column_fits::<T2>(row@, 1)
                        && column_gives::<T3>(row@, 2, Err::<T3, Error>(e))
                    ||| column_fits::<T1>(row@, 0)
                        && column_fits::<T2>(row@, 1)
                        && column_fits::<T3>(row@, 2)
                        && column_gives::<T4>(row@, 3, Err::<T4, Error>(e))
                    ||| column_fits::<T1>(row@, 0)
                        && column_fits::<T2>(row@, 1)
                        && column_fits::<T3>(row@, 2)
                        && column_fits::<T4>(row@, 3)
                        && column_gives::<T5>(row@, 4, Err::<T5, Error>(e))
                    ||| column_fits::<T1>(row@, 0)
                        && column_fits::<T2>(row@, 1)
                        && column_fits::<T3>(row@, 2)
                        && column_fits::<T4>(row@, 3)
                        && column_fits::<T5>(row@, 4)
                        && column_gives::<T6>(row@, 5, Err::<T6, Error>(e))
                    ||| column_fits::<T1>(row@, 0)
                        && column_fits::<T2>(row@, 1)
                        && column_fits::<T3>(row@, 2)
                        && column_fits::<T4>(row@, 3)
                        && column_fits::<T5>(row@, 4)
                        && column_fits::<T6>(row@, 5)
                        && column_gives::<T7>(row@, 6, Err::<T7, Error>(e))
                },
            },
    {
        let mut rest = row;
        assert(rest@.skip(0) =~= rest@);
        let c0 = match column::<T1>(&mut rest) {
            Ok(c) => c,
            Err(e) => {
                return Err(e);
            },
        };
        assert(column_gives::<T1>(row@, 0, Ok(c0)));
        assert(rest@ =~= row@.skip(1));
        let c1 = match column::<T2>(&mut rest) {
            Ok(c) => c,
            Err(e) => {
                return Err(e);
            },
        };
        assert(column_gives::<T2>(row@, 1, Ok(c1)));
        assert(rest@ =~= row@.skip(2));
        let c2 = match column::<T3>(&mut rest) {
            Ok(c) => c,
            Err(e) => {
                return Err(e);
            },
        };
        assert(column_gives::<T3>(row@, 2, Ok(c2)));
        assert(rest@ =~= row@.skip(3));
        let c3 = match column::<T4>(&mut rest) {
            Ok(c) => c,
            Err(e) => {
                return Err(e);
            },
        };
        assert(column_gives::<T4>(row@, 3, Ok(c3)));
        assert(rest@ =~= row@.skip(4));
        let c4 = match column::<T5>(&mut rest) {
            Ok(c) => c,
            Err(e) => {
                return Err(e);
            },
        };
        assert(column_gives::<T5>(row@, 4, Ok(c4)));
        assert(rest@ =~= row@.skip(5));
        let c5 = match column::<T6>(&mut rest) {
            Ok(c) => c,
            Err(e) => {
                return Err(e);
            },
        };
        assert(column_gives::<T6>(row@, 5, Ok(c5)));
        assert(rest@ =~= row@.skip(6));
        let c6 = match column::<T7>(&mut rest) {
            Ok(c) => c,
            Err(e) => {
                return Err(e);
            },
        };
        assert(column_gives::<T7>(row@, 6, Ok(c6)));
        Ok((c0, c1, c2, c3, c4, c5, c6))
    }
}

/// A row of eight columns decodes into a tuple of eight.
impl<T1: FromValue, T2: FromValue, T3: FromValue, T4: FromValue, T5: FromValue, T6: FromValue, T7: FromValue, T8: FromValue> FromRow for (T1, T2, T3, T4, T5, T6, T7, T8) {
    fn from_row<'a>(row: Vec<Value<'a>>) -> (r: Result<(T1, T2, T3, T4, T5, T6, T7, T8)>)
        ensures
            match r {
                Ok(out) => {
                    &&& column_gives::<T1>(row@, 0, Ok(out.0))
                    &&& column_gives::<T2>(row@, 1, Ok(out.1))
                    &&& column_gives::<T3>(row@, 2, Ok(out.2))
                    &&& column_gives::<T4>(row@, 3, Ok(out.3))
                    &&& column_gives::<T5>(row@, 4, Ok(out.4))
                    &&& column_gives::<T6>(row@, 5, Ok(out.5))
                    &&& column_gives::<T7>(row@, 6, Ok(out.6))
                    &&& column_gives::<T8>(row@, 7, Ok(out.7))
                },
                Err(e) => {
                    ||| column_gives::<T1>(row@, 0, Err::<T1, Error>(e))
                    ||| column_fits::<T1>(row@, 0)
                        && column_gives::<T2>(row@, 1, Err::<T2, Error>(e))
                    ||| column_fits::<T1>(row@, 0)
                        && column_fits::<T2>(row@, 1)
                        && column_gives::<T3>(row@, 2, Err::<T3, Error>(e))
                    ||| column_fits::<T1>(row@, 0)
                        && column_fits::<T2>(row@, 1)
                        && column_fits::<T3>(row@, 2)
                        && column_gives::<T4>(row@, 3, Err::<T4, Error>(e))
                    ||| column_fits::<T1>(row@, 0)
                        && column_fits::<T2>(row@, 1)
                        && column_fits::<T3>(row@, 2)
                        && column_fits::<T4>(row@, 3)
                        && column_gives::<T5>(row@, 4, Err::<T5, Error>(e))
                    ||| column_fits::<T1>(row@, 0)
                        && column_fits::<T2>(row@, 1)
                        && column_fits::<T3>(row@, 2)
                        && column_fits::<T4>(row@, 3)
                        && column_fits::<T5>(row@, 4)
                        && column_gives::<T6>(row@, 5, Err::<T6, Error>(e))
                    ||| column_fits::<T1>(row@, 0)
                        && column_fits::<T2>(row@, 1)
                        && column_fits::<T3>(row@, 2)
                        && column_fits::<T4>(row@, 3)
                        && column_fits::<T5>(row@, 4)
                        && column_fits::<T6>(row@, 5)
                        && column_gives::<T7>(row@, 6, Err::<T7, Error>(e))
                    ||| column_fits::<T1>(row@, 0)
                        && column_fits::<T2>(row@, 1)
                        && column_fits::<T3>(row@, 2)
                        && column_fits::<T4>(row@, 3)
                        && column_fits::<T5>(row@, 4)
                        && column_fits::<T6>(row@, 5)
                        && column_fits::<T7>(row@, 6)
                        && column_gives::<T8>(row@, 7, Err::<T8, Error>(e))
                },
            },
    {
        let mut rest = row;
        assert(rest@.skip(0) =~= rest@);
        let c0 = match column::<T1>(&mut rest) {
            Ok(c) => c,
            Err(e) => {
                return Err(e);
            },
        };
        assert(column_gives::<T1>(row@, 0, Ok(c0)));
        assert(rest@ =~= row@.skip(1));
        let c1 = match column::<T2>(&mut rest) {
            Ok(c) => c,
            Err(e) => {
                return Err(e);
            },
        };
        assert(column_gives::<T2>(row@, 1, Ok(c1)));
        assert(rest@ =~= row@.skip(2));
        let c2 = match column::<T3>(&mut rest) {
            Ok(c) => c,
            Err(e) => {
                return Err(e);
            },
        };
        assert(column_gives::<T3>(row@, 2, Ok(c2)));
        assert(rest@ =~= row@.skip(3));
        let c3 = match column::<T4>(&mut rest) {
            Ok(c) => c,
            Err(e) => {
                return Err(e);
            },
        };
        assert(column_gives::<T4>(row@, 3, Ok(c3)));
        assert(rest@ =~= row@.skip(4));
        let c4 = match column::<T5>(&mut rest) {
            Ok(c) => c,
            Err(e) => {
                return Err(e);
            },
        };
        assert(column_gives::<T5>(row@, 4, Ok(c4)));
        assert(rest@ =~= row@.skip(5));
        let c5 = match column::<T6>(&mut rest) {
            Ok(c) => c,
            Err(e) => {
                return Err(e);
            },
        };
        assert(column_gives::<T6>(row@, 5, Ok(c5)));
        assert(rest@ =~= row@.skip(6));
        let c6 = match column::<T7>(&mut rest) {
            Ok(c) => c,
            Err(e) => {
                return Err(e);
            },
        };
        assert(column_gives::<T7>(row@, 6, Ok(c6)));
        assert(rest@ =~= row@.skip(7));
        let c7 = match column::<T8>(&mut rest) {
            Ok(c) => c,
            Err(e) => {
                return Err(e);
            },
        };
        assert(column_gives::<T8>(row@, 7, Ok(c7)));
        Ok((c0, c1, c2, c3, c4, c5, c6, c7))
    }
}

} // verus!
