//! The tagged record and its typed accessor layer.
//!
//! A record is a header (internal bytes, type tag, attribute, reference
//! count) plus a payload.  The well-formedness predicate [`k0::wf`] states the
//! single invariant of the whole model: the type tag determines the payload's
//! shape.  The accessors check the tag and either return the scalar or a
//! mismatch error; they never read a payload under a kind that disagrees with
//! the tag, and they never mutate the record.

use vstd::prelude::*;

use crate::qtype;

verus! {

/// A 16-byte globally unique identifier.
#[derive(Clone, Copy, Debug)]
pub struct U {
    guid: [u8; 16],
}

impl U {
    /// The identifier's bytes, as seen by specifications.
    pub closed spec fn spec_guid(self) -> Seq<u8> {
        self.guid@
    }

    /// Wrap 16 bytes as an identifier.
    pub fn new(guid: [u8; 16]) -> (r: U)
        ensures
            r.spec_guid() == guid@,
    {
        U { guid }
    }

    /// The identifier's bytes, for callers.
    pub fn bytes(&self) -> (r: [u8; 16])
        ensures
            r@ == self.spec_guid(),
    {
        self.guid
    }
}

/// Typed element storage of a list record.
///
/// The element count is the storage's length; no other length source exists.
/// Which variant a well-formed list holds is determined by its record's tag
/// (see [`k0::wf`]).
pub enum k0_list_info {
    /// Elements of boolean, byte and character lists.
    Bytes(Vec<u8>),
    /// Elements of short lists.
    Shorts(Vec<i16>),
    /// Elements of int, month, date, minute, second and time lists.
    Ints(Vec<i32>),
    /// Elements of long, timestamp and timespan lists.
    Longs(Vec<i64>),
    /// Elements of real lists, as 32-bit patterns.
    Reals(Vec<u32>),
    /// Elements of float and datetime lists, as 64-bit patterns.
    Floats(Vec<u64>),
    /// Elements of symbol lists: interned handles.
    Symbols(Vec<usize>),
    /// Elements of identifier lists.
    Guids(Vec<U>),
    /// Elements of compound lists and dictionaries: nested records.
    Records(Vec<k0>),
}

impl k0_list_info {
    /// The element count.
    pub open spec fn count(self) -> int {
        match self {
            k0_list_info::Bytes(v) => v.len() as int,
            k0_list_info::Shorts(v) => v.len() as int,
            k0_list_info::Ints(v) => v.len() as int,
            k0_list_info::Longs(v) => v.len() as int,
            k0_list_info::Reals(v) => v.len() as int,
            k0_list_info::Floats(v) => v.len() as int,
            k0_list_info::Symbols(v) => v.len() as int,
            k0_list_info::Guids(v) => v.len() as int,
            k0_list_info::Records(v) => v.len() as int,
        }
    }

    /// The element count, executably.
    pub fn len(&self) -> (r: usize)
        ensures
            r == self.count(),
    {
        match self {
            k0_list_info::Bytes(v) => v.len(),
            k0_list_info::Shorts(v) => v.len(),
            k0_list_info::Ints(v) => v.len(),
            k0_list_info::Longs(v) => v.len(),
            k0_list_info::Reals(v) => v.len(),
            k0_list_info::Floats(v) => v.len(),
            k0_list_info::Symbols(v) => v.len(),
            k0_list_info::Guids(v) => v.len(),
            k0_list_info::Records(v) => v.len(),
        }
    }
}

/// A record's payload: one scalar slot, a nested record (for tables), a list,
/// an error message, or nothing (for the general null).
pub enum k0_inner {
    /// Scalar slot of booleans, bytes and characters.
    Byte(u8),
    /// Scalar slot of shorts.
    Short(i16),
    /// Scalar slot of ints, months, dates, minutes, seconds and times.
    Int(i32),
    /// Scalar slot of longs, timestamps and timespans.
    Long(i64),
    /// Scalar slot of reals, as the 32-bit pattern.
    Real(u32),
    /// Scalar slot of floats and datetimes, as the 64-bit pattern.
    Float(u64),
    /// Scalar slot of symbols: an interned handle.
    Symbol(usize),
    /// Scalar slot of identifiers.
    Guid(U),
    /// Table slot: the underlying dictionary.
    Table(Box<k0>),
    /// List slot.
    List(k0_list_info),
    /// Error slot: the message.
    Error(String),
    /// The general null carries no payload.
    Null,
}

/// The tagged, reference-counted record.
pub struct k0 {
    /// Internal byte reserved for the runtime; never interpreted here.
    pub m: i8,
    /// Internal byte reserved for the runtime; never interpreted here.
    pub a: i8,
    /// Type indicator.
    pub qtype: i8,
    /// List ordering/uniqueness attribute; opaque to this layer.
    pub attribute: i8,
    /// Reference count: the number of owning references.
    pub refcount: i32,
    /// The payload.
    pub value: k0_inner,
}

/// The kinds whose scalars and list elements live in the byte slot.
pub open spec fn byte_kind(t: int) -> bool {
    t == qtype::BOOL || t == qtype::BYTE || t == qtype::CHAR
}

/// The kinds whose scalars and list elements live in the 32-bit integer slot.
pub open spec fn int_kind(t: int) -> bool {
    t == qtype::INT || t == qtype::MONTH || t == qtype::DATE || t == qtype::MINUTE
        || t == qtype::SECOND || t == qtype::TIME
}

/// The kinds whose scalars and list elements live in the 64-bit integer slot.
pub open spec fn long_kind(t: int) -> bool {
    t == qtype::LONG || t == qtype::TIMESTAMP || t == qtype::TIMESPAN
}

/// The kinds whose scalars and list elements live in the 64-bit float slot.
pub open spec fn float_kind(t: int) -> bool {
    t == qtype::FLOAT || t == qtype::DATETIME
}

impl k0 {
    /// Well-formedness: the type tag determines the payload's shape, nested
    /// records are well-formed in turn, and an element count fits in the
    /// signed 64-bit length the accessor layer reports.
    pub open spec fn wf(self) -> bool
        decreases self,
    {
        match self.value {
            k0_inner::Byte(_) => byte_kind(-(self.qtype as int)),
            k0_inner::Short(_) => self.qtype as int == -(qtype::SHORT as int),
            k0_inner::Int(_) => int_kind(-(self.qtype as int)),
            k0_inner::Long(_) => long_kind(-(self.qtype as int)),
            k0_inner::Real(_) => self.qtype as int == -(qtype::REAL as int),
            k0_inner::Float(_) => float_kind(-(self.qtype as int)),
            k0_inner::Symbol(_) => self.qtype as int == -(qtype::SYMBOL as int),
            k0_inner::Guid(_) => self.qtype as int == -(qtype::GUID as int),
            k0_inner::Table(dict) => {
                &&& self.qtype == qtype::TABLE
                &&& dict.qtype == qtype::DICTIONARY
                &&& dict.wf()
            },
            k0_inner::Error(_) => self.qtype == qtype::ERROR,
            k0_inner::Null => self.qtype == qtype::NULL,
            k0_inner::List(storage) => {
                &&& storage.count() <= i64::MAX
                &&& match storage {
                    k0_list_info::Bytes(_) => byte_kind(self.qtype as int),
                    k0_list_info::Shorts(_) => self.qtype == qtype::SHORT,
                    k0_list_info::Ints(_) => int_kind(self.qtype as int),
                    k0_list_info::Longs(_) => long_kind(self.qtype as int),
                    k0_list_info::Reals(_) => self.qtype == qtype::REAL,
                    k0_list_info::Floats(_) => float_kind(self.qtype as int),
                    k0_list_info::Symbols(_) => self.qtype == qtype::SYMBOL,
                    k0_list_info::Guids(_) => self.qtype == qtype::GUID,
                    k0_list_info::Records(elems) => {
                        &&& (self.qtype == qtype::COMPOUND || ((self.qtype == qtype::DICTIONARY
                            || self.qtype == qtype::SORTED_DICTIONARY) && elems.len() == 2))
                        &&& forall|i: int| 0 <= i < elems.len() ==> #[trigger] elems[i].wf()
                    },
                }
            },
        }
    }

    /// What `get_byte` returns.
    pub open spec fn spec_get_byte(self) -> Result<u8, &'static str> {
        if self.qtype as int == -(qtype::BYTE as int) {
            match self.value {
                k0_inner::Byte(b) => Ok(b),
                _ => Err("not a byte"),
            }
        } else {
            Err("not a byte")
        }
    }

    /// The scalar byte, or a mismatch error for a record of any other kind.
    pub fn get_byte(&self) -> (res: Result<u8, &'static str>)
        ensures
            res == self.spec_get_byte(),
    {
        if self.qtype == -qtype::BYTE {
            match &self.value {
                k0_inner::Byte(b) => Ok(*b),
                _ => Err("not a byte"),
            }
        } else {
            Err("not a byte")
        }
    }

    /// What `get_short` returns.
    pub open spec fn spec_get_short(self) -> Result<i16, &'static str> {
        if self.qtype as int == -(qtype::SHORT as int) {
            match self.value {
                k0_inner::Short(h) => Ok(h),
                _ => Err("not a short"),
            }
        } else {
            Err("not a short")
        }
    }

    /// The scalar short, or a mismatch error for a record of any other kind.
    pub fn get_short(&self) -> (res: Result<i16, &'static str>)
        ensures
            res == self.spec_get_short(),
    {
        if self.qtype == -qtype::SHORT {
            match &self.value {
                k0_inner::Short(h) => Ok(*h),
                _ => Err("not a short"),
            }
        } else {
            Err("not a short")
        }
    }

    /// What `get_int` returns.
    pub open spec fn spec_get_int(self) -> Result<i32, &'static str> {
        if int_kind(-(self.qtype as int)) {
            match self.value {
                k0_inner::Int(i) => Ok(i),
                _ => Err("not an int"),
            }
        } else {
            Err("not an int")
        }
    }

    /// The scalar int — the kinds that share the 32-bit slot (month, date,
    /// minute, second, time) are accepted as aliases — or a mismatch error.
    pub fn get_int(&self) -> (res: Result<i32, &'static str>)
        ensures
            res == self.spec_get_int(),
    {
        if self.qtype == -qtype::INT || self.qtype == -qtype::MONTH || self.qtype == -qtype::DATE
            || self.qtype == -qtype::MINUTE || self.qtype == -qtype::SECOND || self.qtype
            == -qtype::TIME {
            match &self.value {
                k0_inner::Int(i) => Ok(*i),
                _ => Err("not an int"),
            }
        } else {
            Err("not an int")
        }
    }

    /// What `get_long` returns.
    pub open spec fn spec_get_long(self) -> Result<i64, &'static str> {
        if long_kind(-(self.qtype as int)) {
            match self.value {
                k0_inner::Long(j) => Ok(j),
                _ => Err("not a long"),
            }
        } else {
            Err("not a long")
        }
    }

    /// The scalar long — timestamp and timespan are accepted as aliases — or
    /// a mismatch error.
    pub fn get_long(&self) -> (res: Result<i64, &'static str>)
        ensures
            res == self.spec_get_long(),
    {
        if self.qtype == -qtype::LONG || self.qtype == -qtype::TIMESTAMP || self.qtype
            == -qtype::TIMESPAN {
            match &self.value {
                k0_inner::Long(j) => Ok(*j),
                _ => Err("not a long"),
            }
        } else {
            Err("not a long")
        }
    }

    /// What `get_real` returns.
    pub open spec fn spec_get_real(self) -> Result<u32, &'static str> {
        if self.qtype as int == -(qtype::REAL as int) {
            match self.value {
                k0_inner::Real(e) => Ok(e),
                _ => Err("not a real"),
            }
        } else {
            Err("not a real")
        }
    }

    /// The scalar real as its 32-bit pattern, or a mismatch error.
    pub fn get_real(&self) -> (res: Result<u32, &'static str>)
        ensures
            res == self.spec_get_real(),
    {
        if self.qtype == -qtype::REAL {
            match &self.value {
                k0_inner::Real(e) => Ok(*e),
                _ => Err("not a real"),
            }
        } else {
            Err("not a real")
        }
    }

    /// What `get_float` returns.
    pub open spec fn spec_get_float(self) -> Result<u64, &'static str> {
        if float_kind(-(self.qtype as int)) {
            match self.value {
                k0_inner::Float(f) => Ok(f),
                _ => Err("not a float"),
            }
        } else {
            Err("not a float")
        }
    }

    /// The scalar float as its 64-bit pattern — datetime is accepted as an
    /// alias — or a mismatch error.
    pub fn get_float(&self) -> (res: Result<u64, &'static str>)
        ensures
            res == self.spec_get_float(),
    {
        if self.qtype == -qtype::FLOAT || self.qtype == -qtype::DATETIME {
            match &self.value {
                k0_inner::Float(f) => Ok(*f),
                _ => Err("not a float"),
            }
        } else {
            Err("not a float")
        }
    }

    /// What `get_char` returns.
    pub open spec fn spec_get_char(self) -> Result<char, &'static str> {
        if self.qtype as int == -(qtype::CHAR as int) {
            match self.value {
                k0_inner::Byte(b) => Ok(b as char),
                _ => Err("not a char"),
            }
        } else {
            Err("not a char")
        }
    }

    /// The scalar character, read from the byte slot, or a mismatch error.
    pub fn get_char(&self) -> (res: Result<char, &'static str>)
        ensures
            res == self.spec_get_char(),
    {
        if self.qtype == -qtype::CHAR {
            match &self.value {
                k0_inner::Byte(b) => Ok(*b as char),
                _ => Err("not a char"),
            }
        } else {
            Err("not a char")
        }
    }

    /// What `get_symbol` returns.
    pub open spec fn spec_get_symbol(self) -> Result<usize, &'static str> {
        if self.qtype as int == -(qtype::SYMBOL as int) {
            match self.value {
                k0_inner::Symbol(s) => Ok(s),
                _ => Err("not a symbol"),
            }
        } else {
            Err("not a symbol")
        }
    }

    /// The scalar symbol's interned handle, or a mismatch error.
    pub fn get_symbol(&self) -> (res: Result<usize, &'static str>)
        ensures
            res == self.spec_get_symbol(),
    {
        if self.qtype == -qtype::SYMBOL {
            match &self.value {
                k0_inner::Symbol(s) => Ok(*s),
                _ => Err("not a symbol"),
            }
        } else {
            Err("not a symbol")
        }
    }

    /// The elements of a boolean, byte or character list; empty for anything
    /// else.
    pub open spec fn byte_elems(self) -> Seq<u8> {
        match self.value {
            k0_inner::List(k0_list_info::Bytes(v)) => v@,
            _ => Seq::empty(),
        }
    }

    /// The elements of a short list; empty for anything else.
    pub open spec fn short_elems(self) -> Seq<i16> {
        match self.value {
            k0_inner::List(k0_list_info::Shorts(v)) => v@,
            _ => Seq::empty(),
        }
    }

    /// The elements of an int-slot list; empty for anything else.
    pub open spec fn int_elems(self) -> Seq<i32> {
        match self.value {
            k0_inner::List(k0_list_info::Ints(v)) => v@,
            _ => Seq::empty(),
        }
    }

    /// The elements of a long-slot list; empty for anything else.
    pub open spec fn long_elems(self) -> Seq<i64> {
        match self.value {
            k0_inner::List(k0_list_info::Longs(v)) => v@,
            _ => Seq::empty(),
        }
    }

    /// The elements of a real list; empty for anything else.
    pub open spec fn real_elems(self) -> Seq<u32> {
        match self.value {
            k0_inner::List(k0_list_info::Reals(v)) => v@,
            _ => Seq::empty(),
        }
    }

    /// The elements of a float or datetime list; empty for anything else.
    pub open spec fn float_elems(self) -> Seq<u64> {
        match self.value {
            k0_inner::List(k0_list_info::Floats(v)) => v@,
            _ => Seq::empty(),
        }
    }

    /// The elements of a symbol list; empty for anything else.
    pub open spec fn symbol_elems(self) -> Seq<usize> {
        match self.value {
            k0_inner::List(k0_list_info::Symbols(v)) => v@,
            _ => Seq::empty(),
        }
    }

    /// The elements of an identifier list; empty for anything else.
    pub open spec fn guid_elems(self) -> Seq<U> {
        match self.value {
            k0_inner::List(k0_list_info::Guids(v)) => v@,
            _ => Seq::empty(),
        }
    }

    /// The elements of a compound list or dictionary; empty for anything
    /// else.
    pub open spec fn record_elems(self) -> Seq<k0> {
        match self.value {
            k0_inner::List(k0_list_info::Records(v)) => v@,
            _ => Seq::empty(),
        }
    }

    /// The message of an error record; empty for anything else.
    pub open spec fn error_msg(self) -> Seq<char> {
        match self.value {
            k0_inner::Error(m) => m@,
            _ => Seq::empty(),
        }
    }

    /// Whether `get_string` succeeds.
    pub open spec fn is_string(self) -> bool {
        self.qtype == qtype::CHAR && self.value matches k0_inner::List(k0_list_info::Bytes(_))
    }

    /// The contents of a character list, or a mismatch error for a record of
    /// any other kind.
    pub fn get_string(&self) -> (res: Result<Vec<u8>, &'static str>)
        ensures
            self.is_string() ==> (res matches Ok(v) && v@ == self.byte_elems()),
            !self.is_string() ==> res == Err::<Vec<u8>, &'static str>("not a string"),
    {
        if self.qtype == qtype::CHAR {
            match &self.value {
                k0_inner::List(k0_list_info::Bytes(v)) => {
                    let mut out: Vec<u8> = Vec::new();
                    let mut i: usize = 0;
                    while i < v.len()
                        invariant
                            i <= v.len(),
                            out@ == v@.subrange(0, i as int),
                        decreases v.len() - i,
                    {
                        out.push(v[i]);
                        proof {
                            assert(out@ =~= v@.subrange(0, i + 1));
                        }
                        i = i + 1;
                    }
                    proof {
                        assert(out@ =~= v@);
                    }
                    Ok(out)
                },
                _ => Err("not a string"),
            }
        } else {
            Err("not a string")
        }
    }

    /// The element count of a list record; 0 for anything else.
    pub open spec fn spec_count(self) -> int {
        match self.value {
            k0_inner::List(storage) => storage.count(),
            _ => 0,
        }
    }

    /// What `len` returns: 1 for any scalar and for the general null, 2 for a
    /// table (its payload is a two-element dictionary), and the element count
    /// for every list and dictionary.
    pub open spec fn spec_len(self) -> int {
        if self.qtype < 0 || self.qtype == qtype::NULL {
            1
        } else if self.qtype == qtype::TABLE {
            2
        } else {
            self.spec_count()
        }
    }

    /// The record's length.
    pub fn len(&self) -> (r: i64)
        requires
            self.wf(),
        ensures
            r == self.spec_len(),
    {
        if self.qtype < 0 || self.qtype == qtype::NULL {
            1
        } else if self.qtype == qtype::TABLE {
            2
        } else {
            match &self.value {
                k0_inner::List(storage) => storage.len() as i64,
                _ => 1,
            }
        }
    }

    /// The type tag, verbatim.
    pub fn get_type(&self) -> (r: i8)
        ensures
            r == self.qtype,
    {
        self.qtype
    }
}

} // verus!
