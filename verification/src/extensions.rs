//! The boundary functions' logic.
//!
//! These are the decision and construction parts of the extension functions a
//! host engine would invoke.  Whatever the engine itself does — evaluating a
//! query, running a worker thread, printing — happens outside; its outcome
//! arrives here as an argument, and every record handed back is built and
//! accounted for under the contracts below.  Text that a caller is meant to
//! print is returned, not printed.

use vstd::prelude::*;
use vstd::string::{is_ascii, StringSliceAdditionalSpecFns};

use crate::calendar;
use crate::calendar::{days_from_epoch, valid_date, yyyymmdd, MAX_YEAR, MIN_YEAR};
use crate::construct::{fresh_header, ki, knk, kp, kpn, krr, ktn, list_kind, new_null, xD};
use crate::intern::{handle_of, pool_after, SymbolLock, SymbolPool};
use crate::list_ops::{jk, js, jv};
use crate::qtype;
use crate::record::{long_kind, k0, k0_inner};
use crate::refcount::{r0, r1};

verus! {

/// Intern "super_illusion" and wrap it as a symbol record.
pub fn bigbang(pool: &mut SymbolPool) -> (r: k0)
    requires
        old(pool).wf(),
        old(pool)@.len() < usize::MAX,
    ensures
        final(pool).wf(),
        final(pool)@ == pool_after(old(pool)@, "super_illusion"@),
        fresh_header(r),
        r.qtype as int == -(qtype::SYMBOL as int),
        r.value == k0_inner::Symbol(handle_of(old(pool)@, "super_illusion"@) as usize),
        r.wf(),
{
    pool.ks("super_illusion".to_owned())
}

/// Accept an int record silently; reject any other kind with an error record.
pub fn must_be_int(obj: &k0) -> (r: k0)
    ensures
        obj.qtype as int != -(qtype::INT as int) ==> (r.qtype == qtype::ERROR && r.error_msg()
            == "not an int"@ && r.wf()),
        obj.qtype as int == -(qtype::INT as int) ==> (r.qtype == qtype::NULL && r.value
            == k0_inner::Null && r.wf()),
{
    if obj.qtype != -qtype::INT {
        krr("not an int")
    } else {
        new_null()
    }
}

/// Overwrite the second element of a long list with 30000 and retain the
/// list for reuse; a list shorter than two elements is rejected with an
/// error record and left untouched.
pub fn modify_long_list_a_bit(long_list: &mut k0) -> (r: Result<(), k0>)
    requires
        old(long_list).wf(),
        long_kind(old(long_list).qtype as int),
        old(long_list).refcount < i32::MAX,
    ensures
        old(long_list).spec_len() >= 2 ==> (r is Ok
            && final(long_list).wf()
            && final(long_list).long_elems() == old(long_list).long_elems().update(1, 30000i64)
            && final(long_list).refcount == old(long_list).refcount + 1
            && final(long_list).qtype == old(long_list).qtype
            && final(long_list).m == old(long_list).m
            && final(long_list).a == old(long_list).a
            && final(long_list).attribute == old(long_list).attribute),
        old(long_list).spec_len() < 2 ==> (*final(long_list) == *old(long_list) && (r matches Err(e)
            && e.qtype == qtype::ERROR && e.error_msg()
            == "this list is not long enough. how ironic..."@ && e.wf())),
{
    if long_list.len() >= 2 {
        long_list.set_long_at(1, 30000);
        r1(long_list);
        Ok(())
    } else {
        Err(krr("this list is not long enough. how ironic..."))
    }
}

/// Fail unconditionally with an error record.
pub fn thai_kick() -> (r: k0)
    ensures
        r.wf(),
        r.qtype == qtype::ERROR,
        r.error_msg() == "Thai kick unconditionally!!"@,
{
    krr("Thai kick unconditionally!!")
}

/// Append `list2`'s elements to `list1` and retain `list1` for reuse.
pub fn concat_list(list1: &mut k0, list2: k0)
    requires
        old(list1).wf(),
        list2.wf(),
        old(list1).qtype == list2.qtype,
        list_kind(old(list1).qtype as int),
        old(list1).spec_count() + list2.spec_count() <= i64::MAX,
        old(list1).spec_count() + list2.spec_count() <= usize::MAX,
        old(list1).refcount < i32::MAX,
    ensures
        final(list1).wf(),
        final(list1).qtype == old(list1).qtype,
        final(list1).m == old(list1).m,
        final(list1).a == old(list1).a,
        final(list1).attribute == old(list1).attribute,
        final(list1).refcount == old(list1).refcount + 1,
        final(list1).spec_count() == old(list1).spec_count() + list2.spec_count(),
        final(list1).byte_elems() == old(list1).byte_elems() + list2.byte_elems(),
        final(list1).short_elems() == old(list1).short_elems() + list2.short_elems(),
        final(list1).int_elems() == old(list1).int_elems() + list2.int_elems(),
        final(list1).long_elems() == old(list1).long_elems() + list2.long_elems(),
        final(list1).real_elems() == old(list1).real_elems() + list2.real_elems(),
        final(list1).float_elems() == old(list1).float_elems() + list2.float_elems(),
        final(list1).symbol_elems() == old(list1).symbol_elems() + list2.symbol_elems(),
        final(list1).guid_elems() == old(list1).guid_elems() + list2.guid_elems(),
        final(list1).record_elems() == old(list1).record_elems() + list2.record_elems(),
{
    jv(list1, list2);
    r1(list1);
}

/// Create an int record, then discard it again: release the sole reference.
pub fn idle_man() -> (r: k0)
    ensures
        r.qtype == qtype::NULL,
        r.value == k0_inner::Null,
        r.wf(),
{
    let mut int_record = ki(777);
    r0(&mut int_record);
    new_null()
}

/// Consume an evaluation result: an error record gives up its message — the
/// record is released exactly once after the extraction — and a null record
/// takes its place; any other record passes through untouched.
pub fn catchy(result: k0) -> (r: (Option<String>, k0))
    requires
        result.wf(),
        result.refcount > i32::MIN,
    ensures
        result.qtype == qtype::ERROR ==> (r.0 matches Some(msg) && msg@ == result.error_msg()
            && r.1.qtype == qtype::NULL && r.1.wf()),
        result.qtype != qtype::ERROR ==> r.0 is None && r.1 == result,
{
    if result.get_type() == qtype::ERROR {
        let mut error_record = result;
        let msg = match &error_record.value {
            k0_inner::Error(m) => m.clone(),
            _ => String::new(),
        };
        r0(&mut error_record);
        (Some(msg), new_null())
    } else {
        (None, result)
    }
}

/// Walk a borrowed record through two evaluation results: read each item's
/// text and release the item exactly once, then hand the borrowed record back
/// retained — its count afterwards is its count before plus one.
pub fn pass_through_cave(pedestrian: &mut k0, item1: k0, item2: k0) -> (r: (Vec<u8>, Vec<u8>))
    requires
        item1.wf(),
        item1.is_string(),
        item1.refcount > i32::MIN,
        item2.wf(),
        item2.is_string(),
        item2.refcount > i32::MIN,
        old(pedestrian).refcount < i32::MAX,
    ensures
        *final(pedestrian) == (k0 {
            refcount: (old(pedestrian).refcount + 1) as i32,
            ..*old(pedestrian)
        }),
        r.0@ == item1.byte_elems(),
        r.1@ == item2.byte_elems(),
{
    let mut item1 = item1;
    let text1 = match item1.get_string() {
        Ok(t) => t,
        Err(_) => Vec::new(),
    };
    r0(&mut item1);
    let mut item2 = item2;
    let text2 = match item2.get_string() {
        Ok(t) => t,
        Err(_) => Vec::new(),
    };
    r0(&mut item2);
    r1(pedestrian);
    (text1, text2)
}

/// The text a symbol record denotes, for the caller to print; any other kind
/// yields nothing.  Either way the result record is the general null.
pub fn print_symbol(symbol: &k0, pool: &SymbolPool) -> (r: (Option<String>, k0))
    requires
        symbol.wf(),
        (symbol.value matches k0_inner::Symbol(h) ==> h < pool@.len()),
    ensures
        symbol.qtype as int == -(qtype::SYMBOL as int) ==> (r.0 matches Some(t)
            && symbol.value matches k0_inner::Symbol(h) && t@ == pool@[h as int]),
        symbol.qtype as int != -(qtype::SYMBOL as int) ==> r.0 is None,
        r.1.qtype == qtype::NULL,
        r.1.wf(),
{
    if symbol.get_type() == -qtype::SYMBOL {
        match &symbol.value {
            k0_inner::Symbol(h) => (Some(pool.S_to_str(*h).clone()), new_null()),
            _ => (None, new_null()),
        }
    } else {
        (None, new_null())
    }
}

/// Wrap the day count of 2020-04-01 as an int record.
pub fn ymd_to_days() -> (r: k0)
    ensures
        r.wf(),
        r.qtype as int == -(qtype::INT as int),
        r.value == k0_inner::Int(days_from_epoch(2020, 4, 1) as i32),
{
    let days = calendar::ymd(2020, 4, 1);
    ki(days)
}

/// Convert an int record holding a day count into an int record holding the
/// `yyyymmdd` encoding of the day's date.
pub fn days_to_date(days: &k0) -> (r: k0)
    requires
        days.wf(),
        (days.spec_get_int() matches Ok(n) && days_from_epoch(MIN_YEAR as int, 1, 1) <= n
            <= days_from_epoch(MAX_YEAR as int, 12, 31)),
    ensures
        r.wf(),
        r.qtype as int == -(qtype::INT as int),
        (days.spec_get_int() matches Ok(n) && r.value matches k0_inner::Int(encoded) && exists|
            y: int,
            m: int,
            d: int,
        | valid_date(y, m, d) && days_from_epoch(y, m, d) == n && encoded == yyyymmdd(y, m, d)),
{
    let n = match days.get_int() {
        Ok(v) => v,
        Err(_) => 0,
    };
    let number = calendar::dj(n);
    ki(number)
}

/// Grow an empty symbol list by four interned names, in insertion order:
/// "Abraham", "Isaac", "Jacob", and the first six characters of "Josephine".
pub fn create_symbol_list(pool: &mut SymbolPool) -> (r: k0)
    requires
        old(pool).wf(),
        old(pool)@.len() + 4 <= usize::MAX,
    ensures
        final(pool).wf(),
        fresh_header(r),
        r.wf(),
        r.qtype == qtype::SYMBOL,
        ({
            let p0 = old(pool)@;
            let p1 = pool_after(p0, "Abraham"@);
            let p2 = pool_after(p1, "Isaac"@);
            let p3 = pool_after(p2, "Jacob"@);
            let p4 = pool_after(p3, "Josephine"@.subrange(0, 6));
            &&& final(pool)@ == p4
            &&& r.symbol_elems() == seq![
                handle_of(p0, "Abraham"@) as usize,
                handle_of(p1, "Isaac"@) as usize,
                handle_of(p2, "Jacob"@) as usize,
                handle_of(p3, "Josephine"@.subrange(0, 6)) as usize,
            ]
            &&& p4[r.symbol_elems()[0] as int] == "Abraham"@
            &&& p4[r.symbol_elems()[1] as int] == "Isaac"@
            &&& p4[r.symbol_elems()[2] as int] == "Jacob"@
            &&& p4[r.symbol_elems()[3] as int] == "Josephine"@.subrange(0, 6)
        }),
{
    let mut list = ktn(qtype::SYMBOL, 0);
    let h1 = pool.ss("Abraham".to_owned());
    js(&mut list, h1);
    let h2 = pool.ss("Isaac".to_owned());
    js(&mut list, h2);
    let h3 = pool.ss("Jacob".to_owned());
    js(&mut list, h3);
    proof {
        reveal_strlit("Josephine");
    }
    let h4 = pool.sn("Josephine", 6);
    js(&mut list, h4);
    proof {
        assert(list.symbol_elems() =~= seq![h1, h2, h3, h4]);
    }
    list
}

/// Grow an empty compound list by a symbol record "1st", an int record 2 and
/// a string record "3rd".
pub fn create_compound_list(pool: &mut SymbolPool) -> (r: k0)
    requires
        old(pool).wf(),
        old(pool)@.len() < usize::MAX,
    ensures
        final(pool).wf(),
        final(pool)@ == pool_after(old(pool)@, "1st"@),
        fresh_header(r),
        r.wf(),
        r.qtype == qtype::COMPOUND,
        r.record_elems().len() == 3,
        ({
            let el0 = r.record_elems()[0];
            let el1 = r.record_elems()[1];
            let el2 = r.record_elems()[2];
            &&& el0.qtype as int == -(qtype::SYMBOL as int)
            &&& el0.value == k0_inner::Symbol(handle_of(old(pool)@, "1st"@) as usize)
            &&& el1.qtype as int == -(qtype::INT as int)
            &&& el1.value == k0_inner::Int(2)
            &&& el2.qtype == qtype::CHAR
            &&& el2.byte_elems() == "3rd".spec_bytes()
        }),
{
    let mut list = knk(0);
    let sym = pool.ks("1st".to_owned());
    jk(&mut list, sym);
    let two = ki(2);
    jk(&mut list, two);
    proof {
        reveal_strlit("3rd");
        broadcast use vstd::string::is_ascii_spec_bytes;

        assert(is_ascii("3rd"));
        assert("3rd".spec_bytes().len() == 3);
    }
    let third = kpn("3rd", 3);
    jk(&mut list, third);
    proof {
        assert(list.record_elems()[2].byte_elems() =~= "3rd".spec_bytes());
    }
    list
}

/// Build the dictionary mapping the int keys 0 and 1 to a three-day date
/// list and a string.
pub fn create_dictionary() -> (r: k0)
    ensures
        r.wf(),
        fresh_header(r),
        r.qtype == qtype::DICTIONARY,
        r.record_elems().len() == 2,
        ({
            let keys = r.record_elems()[0];
            let values = r.record_elems()[1];
            &&& keys.qtype == qtype::INT
            &&& keys.int_elems() == seq![0i32, 1i32]
            &&& values.qtype == qtype::COMPOUND
            &&& values.record_elems().len() == 2
            &&& values.record_elems()[0].qtype == qtype::DATE
            &&& values.record_elems()[0].int_elems() == seq![0i32, 1i32, 2i32]
            &&& values.record_elems()[1].qtype == qtype::CHAR
            &&& values.record_elems()[1].byte_elems()
                == "I'm afraid I would crash the application...".spec_bytes()
        }),
{
    let mut keys = ktn(qtype::INT, 2);
    keys.set_int_at(0, 0);
    keys.set_int_at(1, 1);
    proof {
        assert(keys.int_elems() =~= seq![0i32, 1i32]);
    }
    let mut values = knk(2);
    let mut date_list = ktn(qtype::DATE, 3);
    date_list.set_int_at(0, 0);
    date_list.set_int_at(1, 1);
    date_list.set_int_at(2, 2);
    proof {
        assert(date_list.int_elems() =~= seq![0i32, 1i32, 2i32]);
        reveal_strlit("I'm afraid I would crash the application...");
        broadcast use vstd::string::is_ascii_spec_bytes;

        assert(is_ascii("I'm afraid I would crash the application..."));
        assert("I'm afraid I would crash the application...".spec_bytes().len() == 43);
    }
    let string = kp("I'm afraid I would crash the application...");
    values.set_record_at(0, date_list);
    values.set_record_at(1, string);
    xD(keys, values)
}

/// Whether a record is one row of [`build_dictionary_list`]'s result: a
/// dictionary mapping the symbol keys `h_a` and `h_b` to the ints `i * 10`
/// and `i * 100`.
pub open spec fn is_row_dict(dict: k0, h_a: usize, h_b: usize, i: int) -> bool {
    &&& dict.qtype == qtype::DICTIONARY
    &&& dict.record_elems().len() == 2
    &&& dict.record_elems()[0].qtype == qtype::SYMBOL
    &&& dict.record_elems()[0].symbol_elems() == seq![h_a, h_b]
    &&& dict.record_elems()[1].qtype == qtype::INT
    &&& dict.record_elems()[1].int_elems() == seq![(i * 10) as i32, (i * 100) as i32]
}

/// Build the compound list of three dictionaries that the host engine turns
/// into a table: each maps the column names "a" and "b" to one row's ints.
pub fn build_dictionary_list(pool: &mut SymbolPool) -> (r: k0)
    requires
        old(pool).wf(),
        old(pool)@.len() + 2 <= usize::MAX,
    ensures
        final(pool).wf(),
        final(pool)@ == pool_after(pool_after(old(pool)@, "a"@), "b"@),
        fresh_header(r),
        r.wf(),
        r.qtype == qtype::COMPOUND,
        r.record_elems().len() == 3,
        ({
            let h_a = handle_of(old(pool)@, "a"@) as usize;
            let h_b = handle_of(pool_after(old(pool)@, "a"@), "b"@) as usize;
            forall|i: int| 0 <= i < 3 ==> is_row_dict(#[trigger] r.record_elems()[i], h_a, h_b, i)
        }),
{
    let h_a = pool.ss("a".to_owned());
    let h_b = pool.ss("b".to_owned());
    let mut dicts = knk(3);
    let mut i: i32 = 0;
    while i < 3
        invariant
            0 <= i <= 3,
            dicts.wf(),
            fresh_header(dicts),
            dicts.qtype == qtype::COMPOUND,
            dicts.record_elems().len() == 3,
            forall|j: int| 0 <= j < i ==> is_row_dict(#[trigger] dicts.record_elems()[j], h_a, h_b, j),
        decreases 3 - i,
    {
        let mut row_keys = ktn(qtype::SYMBOL, 2);
        row_keys.set_symbol_at(0, h_a);
        row_keys.set_symbol_at(1, h_b);
        proof {
            assert(row_keys.symbol_elems() =~= seq![h_a, h_b]);
        }
        let mut row_values = ktn(qtype::INT, 2);
        row_values.set_int_at(0, i * 10);
        row_values.set_int_at(1, i * 100);
        proof {
            assert(row_values.int_elems() =~= seq![(i * 10) as i32, (i * 100) as i32]);
        }
        let dict = xD(row_keys, row_values);
        dicts.set_record_at(i as usize, dict);
        i = i + 1;
    }
    dicts
}

/// Replace the first two symbols of a list — the first on behalf of a worker
/// thread, the second on the calling thread — holding the intern lock for the
/// whole sequence and releasing it on every path.  `worker_ok` is the worker
/// thread's join outcome: a failed join yields an error record, with the
/// calling thread's own replacement already applied; a successful join also
/// applies the worker's replacement and retains the list for reuse.  The
/// worker's interning is modelled before the caller's.
pub fn parallel_sym_change(
    list: &mut k0,
    pool: &mut SymbolPool,
    lock: &mut SymbolLock,
    worker_ok: bool,
) -> (r: Result<(), k0>)
    requires
        old(list).wf(),
        old(list).qtype == qtype::SYMBOL,
        old(list).symbol_elems().len() >= 2,
        old(list).refcount < i32::MAX,
        old(pool).wf(),
        old(pool)@.len() + 2 <= usize::MAX,
    ensures
        !final(lock).spec_locked(),
        final(pool).wf(),
        final(pool)@ == pool_after(pool_after(old(pool)@, "replaced"@), "symbolbol"@),
        final(list).wf(),
        final(list).qtype == old(list).qtype,
        ({
            let h_replaced = handle_of(old(pool)@, "replaced"@) as usize;
            let h_symbolbol = handle_of(pool_after(old(pool)@, "replaced"@), "symbolbol"@) as usize;
            if worker_ok {
                r is Ok && final(list).symbol_elems() == old(list).symbol_elems().update(
                    1,
                    h_symbolbol,
                ).update(0, h_replaced) && final(list).refcount == old(list).refcount + 1
            } else {
                (r matches Err(e) && e.qtype == qtype::ERROR && e.error_msg() == "oh no"@ && e.wf())
                    && final(list).symbol_elems() == old(list).symbol_elems().update(1, h_symbolbol)
                    && final(list).refcount == old(list).refcount
            }
        }),
{
    lock.setm(1);
    let h_replaced = pool.ss("replaced".to_owned());
    let h_symbolbol = pool.ss("symbolbol".to_owned());
    list.set_symbol_at(1, h_symbolbol);
    if !worker_ok {
        lock.setm(0);
        Err(krr("oh no"))
    } else {
        list.set_symbol_at(0, h_replaced);
        lock.setm(0);
        r1(list);
        Ok(())
    }
}

} // verus!
