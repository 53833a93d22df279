//! Constructors of records.
//!
//! Every constructor returns a fresh record: internal bytes, attribute and
//! reference count are zero, the tag names the requested kind, and the payload
//! holds exactly the given value.  List constructors allocate the requested
//! element count, zero-filled, ready to be written through the element
//! setters.

use vstd::prelude::*;
use vstd::string::{StrSliceExecFns, StringSliceAdditionalSpecFns};

use crate::qtype;
use crate::record::{byte_kind, float_kind, int_kind, long_kind, k0, k0_inner, k0_list_info, U};

verus! {

/// The tag of the scalar whose kind code is `t`.
pub open spec fn atom_tag(t: i8) -> i8 {
    (-(t as int)) as i8
}

/// Header fields of a freshly constructed record: the internal bytes, the
/// attribute and the reference count are all zero.
pub open spec fn fresh_header(r: k0) -> bool {
    r.m == 0 && r.a == 0 && r.attribute == 0 && r.refcount == 0
}

/// The valid element kinds of a list record.
pub open spec fn list_kind(t: int) -> bool {
    t == qtype::COMPOUND || byte_kind(t) || t == qtype::SHORT || int_kind(t) || long_kind(t)
        || t == qtype::REAL || float_kind(t) || t == qtype::SYMBOL || t == qtype::GUID
}

/// A vector of `n` copies of `x`.
fn filled<T: Copy>(n: usize, x: T) -> (v: Vec<T>)
    ensures
        v@ == Seq::new(n as nat, |i: int| x),
{
    let mut v: Vec<T> = Vec::new();
    let mut i: usize = 0;
    while i < n
        invariant
            i <= n,
            v@ == Seq::new(i as nat, |j: int| x),
        decreases n - i,
    {
        v.push(x);
        proof {
            assert(v@ =~= Seq::new((i + 1) as nat, |j: int| x));
        }
        i = i + 1;
    }
    v
}

/// Constructor of a boolean record; a nonzero argument means true.
pub fn kb(boolean: i32) -> (r: k0)
    ensures
        fresh_header(r),
        r.qtype == atom_tag(qtype::BOOL),
        r.value == k0_inner::Byte(if boolean != 0 { 1u8 } else { 0u8 }),
        r.wf(),
{
    let b: u8 = if boolean != 0 { 1 } else { 0 };
    k0 { m: 0, a: 0, qtype: -qtype::BOOL, attribute: 0, refcount: 0, value: k0_inner::Byte(b) }
}

/// Constructor of an identifier record.
pub fn ku(array: U) -> (r: k0)
    ensures
        fresh_header(r),
        r.qtype == atom_tag(qtype::GUID),
        r.value == k0_inner::Guid(array),
        r.wf(),
{
    k0 { m: 0, a: 0, qtype: -qtype::GUID, attribute: 0, refcount: 0, value: k0_inner::Guid(array) }
}

/// Constructor of a byte record.
pub fn kg(byte: i32) -> (r: k0)
    requires
        0 <= byte <= 255,
    ensures
        fresh_header(r),
        r.qtype == atom_tag(qtype::BYTE),
        r.value == k0_inner::Byte(byte as u8),
        r.wf(),
{
    k0 {
        m: 0,
        a: 0,
        qtype: -qtype::BYTE,
        attribute: 0,
        refcount: 0,
        value: k0_inner::Byte(byte as u8),
    }
}

/// Constructor of a short record.
pub fn kh(short: i32) -> (r: k0)
    requires
        i16::MIN <= short <= i16::MAX,
    ensures
        fresh_header(r),
        r.qtype == atom_tag(qtype::SHORT),
        r.value == k0_inner::Short(short as i16),
        r.wf(),
{
    k0 {
        m: 0,
        a: 0,
        qtype: -qtype::SHORT,
        attribute: 0,
        refcount: 0,
        value: k0_inner::Short(short as i16),
    }
}

/// Constructor of an int record.
pub fn ki(value: i32) -> (r: k0)
    ensures
        fresh_header(r),
        r.qtype == atom_tag(qtype::INT),
        r.value == k0_inner::Int(value),
        r.wf(),
{
    k0 { m: 0, a: 0, qtype: -qtype::INT, attribute: 0, refcount: 0, value: k0_inner::Int(value) }
}

/// Constructor of a long record.
pub fn kj(long: i64) -> (r: k0)
    ensures
        fresh_header(r),
        r.qtype == atom_tag(qtype::LONG),
        r.value == k0_inner::Long(long),
        r.wf(),
{
    k0 { m: 0, a: 0, qtype: -qtype::LONG, attribute: 0, refcount: 0, value: k0_inner::Long(long) }
}

/// Constructor of a real record, from the value's 32-bit pattern.
pub fn ke(bits: u32) -> (r: k0)
    ensures
        fresh_header(r),
        r.qtype == atom_tag(qtype::REAL),
        r.value == k0_inner::Real(bits),
        r.wf(),
{
    k0 { m: 0, a: 0, qtype: -qtype::REAL, attribute: 0, refcount: 0, value: k0_inner::Real(bits) }
}

/// Constructor of a float record, from the value's 64-bit pattern.
pub fn kf(float: u64) -> (r: k0)
    ensures
        fresh_header(r),
        r.qtype == atom_tag(qtype::FLOAT),
        r.value == k0_inner::Float(float),
        r.wf(),
{
    k0 { m: 0, a: 0, qtype: -qtype::FLOAT, attribute: 0, refcount: 0, value: k0_inner::Float(float) }
}

/// Constructor of a character record; the character lives in the byte slot.
pub fn kc(character: i32) -> (r: k0)
    requires
        0 <= character <= 255,
    ensures
        fresh_header(r),
        r.qtype == atom_tag(qtype::CHAR),
        r.value == k0_inner::Byte(character as u8),
        r.wf(),
{
    k0 {
        m: 0,
        a: 0,
        qtype: -qtype::CHAR,
        attribute: 0,
        refcount: 0,
        value: k0_inner::Byte(character as u8),
    }
}

/// Constructor of a timestamp or timespan record, from nanoseconds.
pub fn ktj(tag: i32, nanoseconds: i64) -> (r: k0)
    requires
        tag == -(qtype::TIMESTAMP as i32) || tag == -(qtype::TIMESPAN as i32),
    ensures
        fresh_header(r),
        r.qtype as int == tag,
        r.value == k0_inner::Long(nanoseconds),
        r.wf(),
{
    let t: i8 = if tag == -(qtype::TIMESTAMP as i32) {
        -qtype::TIMESTAMP
    } else {
        -qtype::TIMESPAN
    };
    k0 { m: 0, a: 0, qtype: t, attribute: 0, refcount: 0, value: k0_inner::Long(nanoseconds) }
}

/// Constructor of a date record, from days since the epoch.
pub fn kd(date: i32) -> (r: k0)
    ensures
        fresh_header(r),
        r.qtype == atom_tag(qtype::DATE),
        r.value == k0_inner::Int(date),
        r.wf(),
{
    k0 { m: 0, a: 0, qtype: -qtype::DATE, attribute: 0, refcount: 0, value: k0_inner::Int(date) }
}

/// Constructor of a datetime record, from the value's 64-bit pattern.
pub fn kz(datetime: u64) -> (r: k0)
    ensures
        fresh_header(r),
        r.qtype == atom_tag(qtype::DATETIME),
        r.value == k0_inner::Float(datetime),
        r.wf(),
{
    k0 {
        m: 0,
        a: 0,
        qtype: -qtype::DATETIME,
        attribute: 0,
        refcount: 0,
        value: k0_inner::Float(datetime),
    }
}

/// Constructor of a time record, from milliseconds.
pub fn kt(milliseconds: i32) -> (r: k0)
    ensures
        fresh_header(r),
        r.qtype == atom_tag(qtype::TIME),
        r.value == k0_inner::Int(milliseconds),
        r.wf(),
{
    k0 {
        m: 0,
        a: 0,
        qtype: -qtype::TIME,
        attribute: 0,
        refcount: 0,
        value: k0_inner::Int(milliseconds),
    }
}

/// Constructor of a month record, from a month count.
pub fn new_month(months: i32) -> (r: k0)
    ensures
        fresh_header(r),
        r.qtype == atom_tag(qtype::MONTH),
        r.value == k0_inner::Int(months),
        r.wf(),
{
    k0 { m: 0, a: 0, qtype: -qtype::MONTH, attribute: 0, refcount: 0, value: k0_inner::Int(months) }
}

/// Constructor of a minute record, from a minute of the day.
pub fn new_minute(minutes: i32) -> (r: k0)
    ensures
        fresh_header(r),
        r.qtype == atom_tag(qtype::MINUTE),
        r.value == k0_inner::Int(minutes),
        r.wf(),
{
    k0 {
        m: 0,
        a: 0,
        qtype: -qtype::MINUTE,
        attribute: 0,
        refcount: 0,
        value: k0_inner::Int(minutes),
    }
}

/// Constructor of a second record, from a second of the day.
pub fn new_second(seconds: i32) -> (r: k0)
    ensures
        fresh_header(r),
        r.qtype == atom_tag(qtype::SECOND),
        r.value == k0_inner::Int(seconds),
        r.wf(),
{
    k0 {
        m: 0,
        a: 0,
        qtype: -qtype::SECOND,
        attribute: 0,
        refcount: 0,
        value: k0_inner::Int(seconds),
    }
}

/// Constructor of the general null record.
pub fn new_null() -> (r: k0)
    ensures
        fresh_header(r),
        r.qtype == qtype::NULL,
        r.value == k0_inner::Null,
        r.wf(),
{
    k0 { m: 0, a: 0, qtype: qtype::NULL, attribute: 0, refcount: 0, value: k0_inner::Null }
}

/// Constructor of an error record from a message.
pub fn krr(message: &str) -> (r: k0)
    ensures
        fresh_header(r),
        r.qtype == qtype::ERROR,
        r.error_msg() == message@,
        r.wf(),
{
    k0 {
        m: 0,
        a: 0,
        qtype: qtype::ERROR,
        attribute: 0,
        refcount: 0,
        value: k0_inner::Error(message.to_owned()),
    }
}

/// Constructor of a string record: a character list holding the text's bytes.
pub fn kp(chararray: &str) -> (r: k0)
    requires
        chararray.spec_bytes().len() <= i64::MAX,
    ensures
        fresh_header(r),
        r.qtype == qtype::CHAR,
        r.byte_elems() == chararray.spec_bytes(),
        r.wf(),
{
    let bytes = chararray.as_bytes_vec();
    k0 {
        m: 0,
        a: 0,
        qtype: qtype::CHAR,
        attribute: 0,
        refcount: 0,
        value: k0_inner::List(k0_list_info::Bytes(bytes)),
    }
}

/// Constructor of a string record holding only the text's first `length`
/// bytes.
pub fn kpn(chararray: &str, length: i64) -> (r: k0)
    requires
        0 <= length <= chararray.spec_bytes().len(),
    ensures
        fresh_header(r),
        r.qtype == qtype::CHAR,
        r.byte_elems() == chararray.spec_bytes().subrange(0, length as int),
        r.wf(),
{
    let mut bytes = chararray.as_bytes_vec();
    bytes.truncate(length as usize);
    k0 {
        m: 0,
        a: 0,
        qtype: qtype::CHAR,
        attribute: 0,
        refcount: 0,
        value: k0_inner::List(k0_list_info::Bytes(bytes)),
    }
}

/// Constructor of a simple list of the given element kind, zero-filled.
pub fn ktn(kind: i8, length: i64) -> (r: k0)
    requires
        list_kind(kind as int),
        kind != qtype::COMPOUND,
        0 <= length <= usize::MAX,
    ensures
        fresh_header(r),
        r.qtype == kind,
        r.spec_count() == length,
        r.wf(),
        byte_kind(kind as int) ==> r.byte_elems() == Seq::new(length as nat, |i: int| 0u8),
        kind == qtype::SHORT ==> r.short_elems() == Seq::new(length as nat, |i: int| 0i16),
        int_kind(kind as int) ==> r.int_elems() == Seq::new(length as nat, |i: int| 0i32),
        long_kind(kind as int) ==> r.long_elems() == Seq::new(length as nat, |i: int| 0i64),
        kind == qtype::REAL ==> r.real_elems() == Seq::new(length as nat, |i: int| 0u32),
        float_kind(kind as int) ==> r.float_elems() == Seq::new(length as nat, |i: int| 0u64),
        kind == qtype::SYMBOL ==> r.symbol_elems() == Seq::new(length as nat, |i: int| 0usize),
        kind == qtype::GUID ==> forall|i: int|
            0 <= i < length ==> (#[trigger] r.guid_elems()[i]).spec_guid() == Seq::new(
                16,
                |j: int| 0u8,
            ),
{
    let n = length as usize;
    let storage = if kind == qtype::BOOL || kind == qtype::BYTE || kind == qtype::CHAR {
        k0_list_info::Bytes(filled(n, 0u8))
    } else if kind == qtype::SHORT {
        k0_list_info::Shorts(filled(n, 0i16))
    } else if kind == qtype::INT || kind == qtype::MONTH || kind == qtype::DATE || kind
        == qtype::MINUTE || kind == qtype::SECOND || kind == qtype::TIME {
        k0_list_info::Ints(filled(n, 0i32))
    } else if kind == qtype::LONG || kind == qtype::TIMESTAMP || kind == qtype::TIMESPAN {
        k0_list_info::Longs(filled(n, 0i64))
    } else if kind == qtype::REAL {
        k0_list_info::Reals(filled(n, 0u32))
    } else if kind == qtype::FLOAT || kind == qtype::DATETIME {
        k0_list_info::Floats(filled(n, 0u64))
    } else if kind == qtype::SYMBOL {
        k0_list_info::Symbols(filled(n, 0usize))
    } else {
        k0_list_info::Guids(filled(n, U::new([0u8; 16])))
    };
    k0 { m: 0, a: 0, qtype: kind, attribute: 0, refcount: 0, value: k0_inner::List(storage) }
}

/// Constructor of a compound list of the given length, filled with null
/// records.
pub fn knk(length: i64) -> (r: k0)
    requires
        0 <= length <= usize::MAX,
    ensures
        fresh_header(r),
        r.qtype == qtype::COMPOUND,
        r.spec_count() == length,
        r.record_elems().len() == length,
        forall|i: int| 0 <= i < length ==> (#[trigger] r.record_elems()[i]).qtype == qtype::NULL
            && r.record_elems()[i].value == k0_inner::Null && fresh_header(r.record_elems()[i]),
        r.wf(),
{
    let n = length as usize;
    let mut elems: Vec<k0> = Vec::new();
    let mut i: usize = 0;
    while i < n
        invariant
            i <= n,
            elems.len() == i,
            forall|j: int| 0 <= j < i ==> (#[trigger] elems[j]).qtype == qtype::NULL && elems[j].value
                == k0_inner::Null && fresh_header(elems[j]),
        decreases n - i,
    {
        elems.push(new_null());
        i = i + 1;
    }
    proof {
        assert forall|j: int| 0 <= j < elems@.len() implies (#[trigger] elems@[j]).wf() by {
            assert(elems@[j].value == k0_inner::Null);
        }
    }
    k0 {
        m: 0,
        a: 0,
        qtype: qtype::COMPOUND,
        attribute: 0,
        refcount: 0,
        value: k0_inner::List(k0_list_info::Records(elems)),
    }
}

/// Constructor of a dictionary record from a keys record and a values record.
pub fn xD(keys: k0, values: k0) -> (r: k0)
    requires
        keys.wf(),
        values.wf(),
    ensures
        fresh_header(r),
        r.qtype == qtype::DICTIONARY,
        r.record_elems() == seq![keys, values],
        r.wf(),
{
    let mut elems: Vec<k0> = Vec::new();
    elems.push(keys);
    elems.push(values);
    proof {
        assert(elems@ =~= seq![keys, values]);
    }
    k0 {
        m: 0,
        a: 0,
        qtype: qtype::DICTIONARY,
        attribute: 0,
        refcount: 0,
        value: k0_inner::List(k0_list_info::Records(elems)),
    }
}

/// Constructor of a table record from a dictionary record.
pub fn xT(dictionary: k0) -> (r: k0)
    requires
        dictionary.wf(),
        dictionary.qtype == qtype::DICTIONARY,
    ensures
        fresh_header(r),
        r.qtype == qtype::TABLE,
        (r.value matches k0_inner::Table(d) && *d == dictionary),
        r.wf(),
{
    k0 {
        m: 0,
        a: 0,
        qtype: qtype::TABLE,
        attribute: 0,
        refcount: 0,
        value: k0_inner::Table(Box::new(dictionary)),
    }
}

} // verus!
