//! Checked element access and append operations on list records.
//!
//! The raw layout these records mirror is read by reinterpreting the list
//! payload as a slice of the element type, with no tag check — an explicitly
//! unchecked operation.  Here that one hazard is replaced by checked,
//! per-kind element accessors: each requires the record's tag to name the
//! matching element slot, so a payload is never read or written under a kind
//! that disagrees with the tag.
//!
//! An append may reallocate the target in the mirrored layout, which is why
//! its original returns a fresh address the caller must switch to; here the
//! target is reached through `&mut`, which enforces exactly that discipline.

use vstd::prelude::*;
use vstd::pervasive::VecAdditionalExecFns;

use crate::qtype;
use crate::record::{byte_kind, float_kind, int_kind, long_kind, k0, k0_inner, k0_list_info, U};

verus! {

/// Equality of everything but the payload: both records carry the same
/// internal bytes, tag, attribute and reference count.
pub open spec fn same_header(a: k0, b: k0) -> bool {
    a.m == b.m && a.a == b.a && a.qtype == b.qtype && a.attribute == b.attribute && a.refcount
        == b.refcount
}

impl k0 {
    /// The element of a boolean, byte or character list.
    pub fn byte_at(&self, index: usize) -> (r: u8)
        requires
            self.wf(),
            byte_kind(self.qtype as int),
            index < self.byte_elems().len(),
        ensures
            r == self.byte_elems()[index as int],
    {
        match &self.value {
            k0_inner::List(k0_list_info::Bytes(v)) => v[index],
            _ => 0,
        }
    }

    /// The element of a short list.
    pub fn short_at(&self, index: usize) -> (r: i16)
        requires
            self.wf(),
            self.qtype == qtype::SHORT,
            index < self.short_elems().len(),
        ensures
            r == self.short_elems()[index as int],
    {
        match &self.value {
            k0_inner::List(k0_list_info::Shorts(v)) => v[index],
            _ => 0,
        }
    }

    /// The element of an int, month, date, minute, second or time list.
    pub fn int_at(&self, index: usize) -> (r: i32)
        requires
            self.wf(),
            int_kind(self.qtype as int),
            index < self.int_elems().len(),
        ensures
            r == self.int_elems()[index as int],
    {
        match &self.value {
            k0_inner::List(k0_list_info::Ints(v)) => v[index],
            _ => 0,
        }
    }

    /// The element of a long, timestamp or timespan list.
    pub fn long_at(&self, index: usize) -> (r: i64)
        requires
            self.wf(),
            long_kind(self.qtype as int),
            index < self.long_elems().len(),
        ensures
            r == self.long_elems()[index as int],
    {
        match &self.value {
            k0_inner::List(k0_list_info::Longs(v)) => v[index],
            _ => 0,
        }
    }

    /// The element of a real list, as its 32-bit pattern.
    pub fn real_at(&self, index: usize) -> (r: u32)
        requires
            self.wf(),
            self.qtype == qtype::REAL,
            index < self.real_elems().len(),
        ensures
            r == self.real_elems()[index as int],
    {
        match &self.value {
            k0_inner::List(k0_list_info::Reals(v)) => v[index],
            _ => 0,
        }
    }

    /// The element of a float or datetime list, as its 64-bit pattern.
    pub fn float_at(&self, index: usize) -> (r: u64)
        requires
            self.wf(),
            float_kind(self.qtype as int),
            index < self.float_elems().len(),
        ensures
            r == self.float_elems()[index as int],
    {
        match &self.value {
            k0_inner::List(k0_list_info::Floats(v)) => v[index],
            _ => 0,
        }
    }

    /// The element of a symbol list: an interned handle.
    pub fn symbol_at(&self, index: usize) -> (r: usize)
        requires
            self.wf(),
            self.qtype == qtype::SYMBOL,
            index < self.symbol_elems().len(),
        ensures
            r == self.symbol_elems()[index as int],
    {
        match &self.value {
            k0_inner::List(k0_list_info::Symbols(v)) => v[index],
            _ => 0,
        }
    }

    /// The element of an identifier list.
    pub fn guid_at(&self, index: usize) -> (r: U)
        requires
            self.wf(),
            self.qtype == qtype::GUID,
            index < self.guid_elems().len(),
        ensures
            r == self.guid_elems()[index as int],
    {
        match &self.value {
            k0_inner::List(k0_list_info::Guids(v)) => v[index],
            _ => U::new([0u8; 16]),
        }
    }

    /// The element of a compound list or dictionary.
    pub fn record_at(&self, index: usize) -> (r: &k0)
        requires
            self.wf(),
            self.qtype == qtype::COMPOUND || self.qtype == qtype::DICTIONARY || self.qtype
                == qtype::SORTED_DICTIONARY,
            index < self.record_elems().len(),
        ensures
            *r == self.record_elems()[index as int],
    {
        match &self.value {
            k0_inner::List(k0_list_info::Records(v)) => &v[index],
            _ => self,
        }
    }

    /// Replace the element of a boolean, byte or character list.
    pub fn set_byte_at(&mut self, index: usize, value: u8)
        requires
            old(self).wf(),
            byte_kind(old(self).qtype as int),
            index < old(self).byte_elems().len(),
        ensures
            final(self).wf(),
            same_header(*old(self), *final(self)),
            final(self).byte_elems() == old(self).byte_elems().update(index as int, value),
    {
        match &mut self.value {
            k0_inner::List(storage) => match storage {
                k0_list_info::Bytes(v) => v.set(index, value),
                _ => {},
            },
            _ => {},
        }
    }

    /// Replace the element of a short list.
    pub fn set_short_at(&mut self, index: usize, value: i16)
        requires
            old(self).wf(),
            old(self).qtype == qtype::SHORT,
            index < old(self).short_elems().len(),
        ensures
            final(self).wf(),
            same_header(*old(self), *final(self)),
            final(self).short_elems() == old(self).short_elems().update(index as int, value),
    {
        match &mut self.value {
            k0_inner::List(storage) => match storage {
                k0_list_info::Shorts(v) => v.set(index, value),
                _ => {},
            },
            _ => {},
        }
    }

    /// Replace the element of an int, month, date, minute, second or time
    /// list.
    pub fn set_int_at(&mut self, index: usize, value: i32)
        requires
            old(self).wf(),
            int_kind(old(self).qtype as int),
            index < old(self).int_elems().len(),
        ensures
            final(self).wf(),
            same_header(*old(self), *final(self)),
            final(self).int_elems() == old(self).int_elems().update(index as int, value),
    {
        match &mut self.value {
            k0_inner::List(storage) => match storage {
                k0_list_info::Ints(v) => v.set(index, value),
                _ => {},
            },
            _ => {},
        }
    }

    /// Replace the element of a long, timestamp or timespan list.
    pub fn set_long_at(&mut self, index: usize, value: i64)
        requires
            old(self).wf(),
            long_kind(old(self).qtype as int),
            index < old(self).long_elems().len(),
        ensures
            final(self).wf(),
            same_header(*old(self), *final(self)),
            final(self).long_elems() == old(self).long_elems().update(index as int, value),
    {
        match &mut self.value {
            k0_inner::List(storage) => match storage {
                k0_list_info::Longs(v) => v.set(index, value),
                _ => {},
            },
            _ => {},
        }
    }

    /// Replace the element of a real list.
    pub fn set_real_at(&mut self, index: usize, value: u32)
        requires
            old(self).wf(),
            old(self).qtype == qtype::REAL,
            index < old(self).real_elems().len(),
        ensures
            final(self).wf(),
            same_header(*old(self), *final(self)),
            final(self).real_elems() == old(self).real_elems().update(index as int, value),
    {
        match &mut self.value {
            k0_inner::List(storage) => match storage {
                k0_list_info::Reals(v) => v.set(index, value),
                _ => {},
            },
            _ => {},
        }
    }

    /// Replace the element of a float or datetime list.
    pub fn set_float_at(&mut self, index: usize, value: u64)
        requires
            old(self).wf(),
            float_kind(old(self).qtype as int),
            index < old(self).float_elems().len(),
        ensures
            final(self).wf(),
            same_header(*old(self), *final(self)),
            final(self).float_elems() == old(self).float_elems().update(index as int, value),
    {
        match &mut self.value {
            k0_inner::List(storage) => match storage {
                k0_list_info::Floats(v) => v.set(index, value),
                _ => {},
            },
            _ => {},
        }
    }

    /// Replace the element of a symbol list with another interned handle.
    pub fn set_symbol_at(&mut self, index: usize, value: usize)
        requires
            old(self).wf(),
            old(self).qtype == qtype::SYMBOL,
            index < old(self).symbol_elems().len(),
        ensures
            final(self).wf(),
            same_header(*old(self), *final(self)),
            final(self).symbol_elems() == old(self).symbol_elems().update(index as int, value),
    {
        match &mut self.value {
            k0_inner::List(storage) => match storage {
                k0_list_info::Symbols(v) => v.set(index, value),
                _ => {},
            },
            _ => {},
        }
    }

    /// Replace the element of an identifier list.
    pub fn set_guid_at(&mut self, index: usize, value: U)
        requires
            old(self).wf(),
            old(self).qtype == qtype::GUID,
            index < old(self).guid_elems().len(),
        ensures
            final(self).wf(),
            same_header(*old(self), *final(self)),
            final(self).guid_elems() == old(self).guid_elems().update(index as int, value),
    {
        match &mut self.value {
            k0_inner::List(storage) => match storage {
                k0_list_info::Guids(v) => v.set(index, value),
                _ => {},
            },
            _ => {},
        }
    }

    /// Replace the element of a compound list or dictionary.
    pub fn set_record_at(&mut self, index: usize, value: k0)
        requires
            old(self).wf(),
            old(self).qtype == qtype::COMPOUND || old(self).qtype == qtype::DICTIONARY || old(
                self,
            ).qtype == qtype::SORTED_DICTIONARY,
            index < old(self).record_elems().len(),
            value.wf(),
        ensures
            final(self).wf(),
            same_header(*old(self), *final(self)),
            final(self).record_elems() == old(self).record_elems().update(index as int, value),
    {
        match &mut self.value {
            k0_inner::List(storage) => match storage {
                k0_list_info::Records(v) => v.set(index, value),
                _ => {},
            },
            _ => {},
        }
    }
}

/// Append an interned symbol to a symbol list.
pub fn js(list: &mut k0, symbol: usize)
    requires
        old(list).wf(),
        old(list).qtype == qtype::SYMBOL,
        old(list).symbol_elems().len() < i64::MAX,
        old(list).symbol_elems().len() < usize::MAX,
    ensures
        final(list).wf(),
        same_header(*old(list), *final(list)),
        final(list).symbol_elems() == old(list).symbol_elems().push(symbol),
{
    match &mut list.value {
        k0_inner::List(storage) => match storage {
            k0_list_info::Symbols(v) => v.push(symbol),
            _ => {},
        },
        _ => {},
    }
}

/// Append a record to a compound list.
pub fn jk(list: &mut k0, value: k0)
    requires
        old(list).wf(),
        old(list).qtype == qtype::COMPOUND,
        old(list).record_elems().len() < i64::MAX,
        old(list).record_elems().len() < usize::MAX,
        value.wf(),
    ensures
        final(list).wf(),
        same_header(*old(list), *final(list)),
        final(list).record_elems() == old(list).record_elems().push(value),
{
    match &mut list.value {
        k0_inner::List(storage) => match storage {
            k0_list_info::Records(v) => v.push(value),
            _ => {},
        },
        _ => {},
    }
}

/// Append the elements of `list2` to `list1`, consuming `list2`.
pub fn jv(list1: &mut k0, list2: k0)
    requires
        old(list1).wf(),
        list2.wf(),
        old(list1).qtype == list2.qtype,
        crate::construct::list_kind(old(list1).qtype as int),
        old(list1).spec_count() + list2.spec_count() <= i64::MAX,
        old(list1).spec_count() + list2.spec_count() <= usize::MAX,
    ensures
        final(list1).wf(),
        same_header(*old(list1), *final(list1)),
        final(list1).spec_count() == old(list1).spec_count() + list2.spec_count(),
        final(list1).byte_elems() == old(list1).byte_elems() + list2.byte_elems(),
        final(list1).short_elems() == old(list1).short_elems() + list2.short_elems(),
        final(list1).int_elems() == old(list1).int_elems() + list2.int_elems(),
        final(list1).long_elems() == old(list1).long_elems() + list2.long_elems(),
        final(list1).real_elems() == old(list1).real_elems() + list2.real_elems(),
        final(list1).float_elems() == old(list1).float_elems() + list2.float_elems(),
        final(list1).symbol_elems() == old(list1).symbol_elems() + list2.symbol_elems(),
        final(list1).guid_elems() == old(list1).guid_elems() + list2.guid_elems(),
        final(list1).record_elems() == old(list1).record_elems() + list2.record_elems(),
{
    match (&mut list1.value, list2.value) {
        (k0_inner::List(k0_list_info::Bytes(d)), k0_inner::List(k0_list_info::Bytes(mut s))) => {
            d.append(&mut s);
        },
        (k0_inner::List(k0_list_info::Shorts(d)), k0_inner::List(k0_list_info::Shorts(mut s))) => {
            d.append(&mut s);
        },
        (k0_inner::List(k0_list_info::Ints(d)), k0_inner::List(k0_list_info::Ints(mut s))) => {
            d.append(&mut s);
        },
        (k0_inner::List(k0_list_info::Longs(d)), k0_inner::List(k0_list_info::Longs(mut s))) => {
            d.append(&mut s);
        },
        (k0_inner::List(k0_list_info::Reals(d)), k0_inner::List(k0_list_info::Reals(mut s))) => {
            d.append(&mut s);
        },
        (k0_inner::List(k0_list_info::Floats(d)), k0_inner::List(k0_list_info::Floats(mut s))) => {
            d.append(&mut s);
        },
        (
            k0_inner::List(k0_list_info::Symbols(d)),
            k0_inner::List(k0_list_info::Symbols(mut s)),
        ) => {
            d.append(&mut s);
        },
        (k0_inner::List(k0_list_info::Guids(d)), k0_inner::List(k0_list_info::Guids(mut s))) => {
            d.append(&mut s);
        },
        (
            k0_inner::List(k0_list_info::Records(d)),
            k0_inner::List(k0_list_info::Records(mut s)),
        ) => {
            d.append(&mut s);
        },
        _ => {},
    }
}

} // verus!
