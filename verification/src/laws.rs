//! Laws of the typed accessor layer.
//!
//! Each lemma below holds a scalar record of one kind against every accessor:
//! the accessor of the record's own kind returns the constructed value, and
//! every other accessor returns a mismatch error.  Together with
//! [`lemma_accessor_tags`], which states for an arbitrary well-formed record
//! exactly which tags each accessor accepts, the pairwise behaviour of every
//! constructor/accessor combination is pinned down.

use vstd::prelude::*;

use crate::qtype;
use crate::record::{byte_kind, float_kind, int_kind, long_kind, k0, k0_inner};

verus! {

/// Law: each scalar accessor succeeds on exactly the tags of its own slot,
/// and on no others.
pub proof fn lemma_accessor_tags(r: k0)
    requires
        r.wf(),
    ensures
        r.spec_get_byte() is Ok <==> r.qtype as int == -(qtype::BYTE as int),
        r.spec_get_short() is Ok <==> r.qtype as int == -(qtype::SHORT as int),
        r.spec_get_int() is Ok <==> int_kind(-(r.qtype as int)),
        r.spec_get_long() is Ok <==> long_kind(-(r.qtype as int)),
        r.spec_get_real() is Ok <==> r.qtype as int == -(qtype::REAL as int),
        r.spec_get_float() is Ok <==> float_kind(-(r.qtype as int)),
        r.spec_get_char() is Ok <==> r.qtype as int == -(qtype::CHAR as int),
        r.spec_get_symbol() is Ok <==> r.qtype as int == -(qtype::SYMBOL as int),
        r.is_string() <==> r.qtype == qtype::CHAR,
{
}

/// Law: a boolean record answers no scalar accessor; its value lives in the
/// byte slot, but `get_byte` accepts the byte kind alone.
pub proof fn lemma_bool_accessors(r: k0, v: u8)
    requires
        r.wf(),
        r.qtype as int == -(qtype::BOOL as int),
        r.value == k0_inner::Byte(v),
    ensures
        r.spec_get_byte() is Err,
        r.spec_get_short() is Err,
        r.spec_get_int() is Err,
        r.spec_get_long() is Err,
        r.spec_get_real() is Err,
        r.spec_get_float() is Err,
        r.spec_get_char() is Err,
        r.spec_get_symbol() is Err,
        !r.is_string(),
{
}

/// Law: a byte record round-trips through `get_byte` and mismatches
/// everywhere else.
pub proof fn lemma_byte_round_trip(r: k0, v: u8)
    requires
        r.wf(),
        r.qtype as int == -(qtype::BYTE as int),
        r.value == k0_inner::Byte(v),
    ensures
        r.spec_get_byte() == Ok::<u8, &'static str>(v),
        r.spec_get_short() is Err,
        r.spec_get_int() is Err,
        r.spec_get_long() is Err,
        r.spec_get_real() is Err,
        r.spec_get_float() is Err,
        r.spec_get_char() is Err,
        r.spec_get_symbol() is Err,
        !r.is_string(),
{
}

/// Law: a short record round-trips through `get_short` and mismatches
/// everywhere else.
pub proof fn lemma_short_round_trip(r: k0, v: i16)
    requires
        r.wf(),
        r.qtype as int == -(qtype::SHORT as int),
        r.value == k0_inner::Short(v),
    ensures
        r.spec_get_short() == Ok::<i16, &'static str>(v),
        r.spec_get_byte() is Err,
        r.spec_get_int() is Err,
        r.spec_get_long() is Err,
        r.spec_get_real() is Err,
        r.spec_get_float() is Err,
        r.spec_get_char() is Err,
        r.spec_get_symbol() is Err,
        !r.is_string(),
{
}

/// Law: a record of any kind sharing the 32-bit integer slot — int, month,
/// date, minute, second, time — round-trips through `get_int` and mismatches
/// everywhere else.
pub proof fn lemma_int_round_trip(r: k0, v: i32)
    requires
        r.wf(),
        int_kind(-(r.qtype as int)),
        r.value == k0_inner::Int(v),
    ensures
        r.spec_get_int() == Ok::<i32, &'static str>(v),
        r.spec_get_byte() is Err,
        r.spec_get_short() is Err,
        r.spec_get_long() is Err,
        r.spec_get_real() is Err,
        r.spec_get_float() is Err,
        r.spec_get_char() is Err,
        r.spec_get_symbol() is Err,
        !r.is_string(),
{
}

/// Law: a record of any kind sharing the 64-bit integer slot — long,
/// timestamp, timespan — round-trips through `get_long` and mismatches
/// everywhere else.
pub proof fn lemma_long_round_trip(r: k0, v: i64)
    requires
        r.wf(),
        long_kind(-(r.qtype as int)),
        r.value == k0_inner::Long(v),
    ensures
        r.spec_get_long() == Ok::<i64, &'static str>(v),
        r.spec_get_byte() is Err,
        r.spec_get_short() is Err,
        r.spec_get_int() is Err,
        r.spec_get_real() is Err,
        r.spec_get_float() is Err,
        r.spec_get_char() is Err,
        r.spec_get_symbol() is Err,
        !r.is_string(),
{
}

/// Law: a real record round-trips through `get_real` and mismatches
/// everywhere else.
pub proof fn lemma_real_round_trip(r: k0, v: u32)
    requires
        r.wf(),
        r.qtype as int == -(qtype::REAL as int),
        r.value == k0_inner::Real(v),
    ensures
        r.spec_get_real() == Ok::<u32, &'static str>(v),
        r.spec_get_byte() is Err,
        r.spec_get_short() is Err,
        r.spec_get_int() is Err,
        r.spec_get_long() is Err,
        r.spec_get_float() is Err,
        r.spec_get_char() is Err,
        r.spec_get_symbol() is Err,
        !r.is_string(),
{
}

/// Law: a record of either kind sharing the 64-bit float slot — float,
/// datetime — round-trips through `get_float` and mismatches everywhere else.
pub proof fn lemma_float_round_trip(r: k0, v: u64)
    requires
        r.wf(),
        float_kind(-(r.qtype as int)),
        r.value == k0_inner::Float(v),
    ensures
        r.spec_get_float() == Ok::<u64, &'static str>(v),
        r.spec_get_byte() is Err,
        r.spec_get_short() is Err,
        r.spec_get_int() is Err,
        r.spec_get_long() is Err,
        r.spec_get_real() is Err,
        r.spec_get_char() is Err,
        r.spec_get_symbol() is Err,
        !r.is_string(),
{
}

/// Law: a character record round-trips through `get_char` and mismatches
/// everywhere else — in particular `get_byte` rejects it even though the
/// character lives in the byte slot.
pub proof fn lemma_char_round_trip(r: k0, v: u8)
    requires
        r.wf(),
        r.qtype as int == -(qtype::CHAR as int),
        r.value == k0_inner::Byte(v),
    ensures
        r.spec_get_char() == Ok::<char, &'static str>(v as char),
        r.spec_get_byte() is Err,
        r.spec_get_short() is Err,
        r.spec_get_int() is Err,
        r.spec_get_long() is Err,
        r.spec_get_real() is Err,
        r.spec_get_float() is Err,
        r.spec_get_symbol() is Err,
        !r.is_string(),
{
}

/// Law: a symbol record round-trips through `get_symbol` and mismatches
/// everywhere else.
pub proof fn lemma_symbol_round_trip(r: k0, v: usize)
    requires
        r.wf(),
        r.qtype as int == -(qtype::SYMBOL as int),
        r.value == k0_inner::Symbol(v),
    ensures
        r.spec_get_symbol() == Ok::<usize, &'static str>(v),
        r.spec_get_byte() is Err,
        r.spec_get_short() is Err,
        r.spec_get_int() is Err,
        r.spec_get_long() is Err,
        r.spec_get_real() is Err,
        r.spec_get_float() is Err,
        r.spec_get_char() is Err,
        !r.is_string(),
{
}

/// Law: `len` reports 1 for every scalar record and for the general null,
/// the element count for every list record, and 2 for every table record.
pub proof fn lemma_len(r: k0)
    requires
        r.wf(),
    ensures
        r.qtype < 0 || r.qtype == qtype::NULL ==> r.spec_len() == 1,
        r.value matches k0_inner::List(storage) ==> r.spec_len() == storage.count(),
        r.qtype == qtype::TABLE ==> r.spec_len() == 2,
{
    if r.qtype >= 0 && r.qtype != qtype::NULL && r.qtype != qtype::TABLE {
        assert(r.value is List);
    }
}

} // verus!
