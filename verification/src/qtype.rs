//! Type indicators of the record model.
//!
//! A negative tag `-t` marks a scalar of the kind whose positive code is `t`;
//! a tag in `0..=19` marks a list whose element kind is the tag itself.  The
//! remaining codes mark aggregates: a table, a dictionary, an error carrying a
//! message, and the general null.

use vstd::prelude::*;

verus! {

/// Mixed (compound) list: every element is itself a record.
pub const COMPOUND: i8 = 0;

/// Boolean; the scalar value lives in the byte slot.
pub const BOOL: i8 = 1;

/// 16-byte globally unique identifier.
pub const GUID: i8 = 2;

/// Byte.
pub const BYTE: i8 = 4;

/// 16-bit integer.
pub const SHORT: i8 = 5;

/// 32-bit integer.
pub const INT: i8 = 6;

/// 64-bit integer.
pub const LONG: i8 = 7;

/// 32-bit floating point value, held as its bit pattern.
pub const REAL: i8 = 8;

/// 64-bit floating point value, held as its bit pattern.
pub const FLOAT: i8 = 9;

/// 8-bit character; the scalar value lives in the byte slot.
pub const CHAR: i8 = 10;

/// Interned symbol handle.
pub const SYMBOL: i8 = 11;

/// Timestamp: nanoseconds since the epoch; shares the 64-bit integer slot.
pub const TIMESTAMP: i8 = 12;

/// Month count; shares the 32-bit integer slot.
pub const MONTH: i8 = 13;

/// Date: days since the epoch; shares the 32-bit integer slot.
pub const DATE: i8 = 14;

/// Datetime; shares the 64-bit floating point slot.
pub const DATETIME: i8 = 15;

/// Timespan in nanoseconds; shares the 64-bit integer slot.
pub const TIMESPAN: i8 = 16;

/// Minute of the day; shares the 32-bit integer slot.
pub const MINUTE: i8 = 17;

/// Second of the day; shares the 32-bit integer slot.
pub const SECOND: i8 = 18;

/// Time: milliseconds; shares the 32-bit integer slot.
pub const TIME: i8 = 19;

/// Table: the payload is a single nested dictionary record.
pub const TABLE: i8 = 98;

/// Dictionary: a two-element record list holding keys and values.
pub const DICTIONARY: i8 = 99;

/// Dictionary whose keys are sorted.
pub const SORTED_DICTIONARY: i8 = 127;

/// Error: the payload is a message.
pub const ERROR: i8 = -128;

/// General null.
pub const NULL: i8 = 101;

} // verus!
