//! The boundary functions: scenarios for kind checks, the ownership
//! protocol, and the example builders.

use kdb_model::construct::{ki, kj, kp, krr, ktn};
use kdb_model::extensions::{
    bigbang, build_dictionary_list, catchy, concat_list, create_compound_list, create_dictionary,
    create_symbol_list, days_to_date, idle_man, modify_long_list_a_bit, must_be_int,
    parallel_sym_change, pass_through_cave, print_symbol, thai_kick, ymd_to_days,
};
use kdb_model::intern::{SymbolLock, SymbolPool};
use kdb_model::qtype;
use kdb_model::refcount::{r0, r1};

#[test]
fn int_scalar_scenario() {
    // Construct an integer scalar record with value 86400000.
    let record = ki(86400000);
    assert_eq!(record.get_int(), Ok(86400000));
    assert_eq!(record.get_long(), Err("not a long"));
}

#[test]
fn symbol_list_scenario() {
    // Start from a symbol list of length 0 and append three names.
    let mut list = ktn(qtype::SYMBOL, 0);
    assert_eq!(list.len(), 0);
    let mut pool = SymbolPool::new();
    let names = ["Abraham", "Isaac", "Jacob"];
    for name in names {
        let handle = pool.ss(name.to_owned());
        kdb_model::list_ops::js(&mut list, handle);
    }
    assert_eq!(list.len(), 3);
    for (i, name) in names.iter().enumerate() {
        let handle = list.symbol_at(i);
        assert_eq!(pool.S_to_str(handle).as_str(), *name);
    }
}

#[test]
fn borrowed_record_returned_retained_gains_one_reference() {
    let mut pedestrian = pool_symbol();
    let before = pedestrian.refcount;
    let item1 = kp("a basket of summer fruit");
    let item2 = kp("boiling pot, facing away from the north");
    let (t1, t2) = pass_through_cave(&mut pedestrian, item1, item2);
    assert_eq!(pedestrian.refcount, before + 1);
    assert_eq!(t1, b"a basket of summer fruit".to_vec());
    assert_eq!(t2, b"boiling pot, facing away from the north".to_vec());
}

fn pool_symbol() -> kdb_model::record::k0 {
    let mut pool = SymbolPool::new();
    pool.ks("son_of_man".to_owned())
}

#[test]
fn reference_count_round_trip() {
    let mut record = ki(777);
    assert_eq!(record.refcount, 0);
    r1(&mut record);
    assert_eq!(record.refcount, 1);
    r0(&mut record);
    assert_eq!(record.refcount, 0);
}

#[test]
fn must_be_int_accepts_and_rejects() {
    let ok = must_be_int(&ki(42));
    assert_eq!(ok.get_type(), qtype::NULL);
    let err = must_be_int(&kj(42));
    assert_eq!(err.get_type(), qtype::ERROR);
    let (msg, _) = catchy(err);
    assert_eq!(msg.as_deref(), Some("not an int"));
}

#[test]
fn modify_long_list_needs_two_elements() {
    let mut list = ktn(qtype::LONG, 3);
    list.set_long_at(0, 1);
    list.set_long_at(1, 2);
    list.set_long_at(2, 3);
    let before = list.refcount;
    assert!(modify_long_list_a_bit(&mut list).is_ok());
    assert_eq!(list.long_at(0), 1);
    assert_eq!(list.long_at(1), 30000);
    assert_eq!(list.long_at(2), 3);
    assert_eq!(list.refcount, before + 1);

    let mut short_list = ktn(qtype::LONG, 1);
    let result = modify_long_list_a_bit(&mut short_list);
    let error = result.expect_err("one element is not enough");
    assert_eq!(error.get_type(), qtype::ERROR);
    let (msg, _) = catchy(error);
    assert_eq!(
        msg.as_deref(),
        Some("this list is not long enough. how ironic...")
    );
}

#[test]
fn must_be_int_rejects_the_int_slot_aliases() {
    // A date shares the 32-bit slot — get_int accepts it — but the tag check
    // is strict.
    let date = kdb_model::construct::kd(7396);
    assert_eq!(date.get_int(), Ok(7396));
    assert_eq!(must_be_int(&date).get_type(), qtype::ERROR);
    let month = kdb_model::construct::new_month(126);
    assert_eq!(month.get_int(), Ok(126));
    assert_eq!(must_be_int(&month).get_type(), qtype::ERROR);
}

#[test]
fn concat_list_appends_and_retains() {
    let mut left = ktn(qtype::LONG, 1);
    left.set_long_at(0, 1);
    let mut right = ktn(qtype::LONG, 2);
    right.set_long_at(0, 2);
    right.set_long_at(1, 3);
    let before = left.refcount;
    concat_list(&mut left, right);
    assert_eq!(left.len(), 3);
    assert_eq!(
        (left.long_at(0), left.long_at(1), left.long_at(2)),
        (1, 2, 3)
    );
    assert_eq!(left.refcount, before + 1);
}

#[test]
fn thai_kick_always_fails() {
    let error = thai_kick();
    assert_eq!(error.get_type(), qtype::ERROR);
    let (msg, result) = catchy(error);
    assert_eq!(msg.as_deref(), Some("Thai kick unconditionally!!"));
    assert_eq!(result.get_type(), qtype::NULL);
}

#[test]
fn catchy_passes_success_through() {
    let (msg, result) = catchy(ki(3));
    assert!(msg.is_none());
    assert_eq!(result.get_int(), Ok(3));
}

#[test]
fn idle_man_returns_null() {
    assert_eq!(idle_man().get_type(), qtype::NULL);
}

#[test]
fn bigbang_makes_the_symbol() {
    let mut pool = SymbolPool::new();
    let sym = bigbang(&mut pool);
    let handle = sym.get_symbol().unwrap();
    assert_eq!(pool.S_to_str(handle).as_str(), "super_illusion");
}

#[test]
fn print_symbol_reports_only_symbols() {
    let mut pool = SymbolPool::new();
    let sym = pool.ks("kx".to_owned());
    let (msg, result) = print_symbol(&sym, &pool);
    assert_eq!(msg.as_deref(), Some("kx"));
    assert_eq!(result.get_type(), qtype::NULL);
    let (none, _) = print_symbol(&ki(1), &pool);
    assert!(none.is_none());
}

#[test]
fn create_symbol_list_holds_four_names() {
    let mut pool = SymbolPool::new();
    let list = create_symbol_list(&mut pool);
    assert_eq!(list.len(), 4);
    let expected = ["Abraham", "Isaac", "Jacob", "Joseph"];
    for (i, name) in expected.iter().enumerate() {
        assert_eq!(pool.S_to_str(list.symbol_at(i)).as_str(), *name);
    }
}

#[test]
fn create_compound_list_holds_three_kinds() {
    let mut pool = SymbolPool::new();
    let list = create_compound_list(&mut pool);
    assert_eq!(list.len(), 3);
    let sym = list.record_at(0).get_symbol().unwrap();
    assert_eq!(pool.S_to_str(sym).as_str(), "1st");
    assert_eq!(list.record_at(1).get_int(), Ok(2));
    assert_eq!(list.record_at(2).get_string(), Ok(b"3rd".to_vec()));
}

#[test]
fn create_dictionary_structure() {
    let dict = create_dictionary();
    assert_eq!(dict.get_type(), qtype::DICTIONARY);
    assert_eq!(dict.len(), 2);
    let keys = dict.record_at(0);
    assert_eq!(keys.get_type(), qtype::INT);
    assert_eq!(keys.int_at(0), 0);
    assert_eq!(keys.int_at(1), 1);
    let values = dict.record_at(1);
    let dates = values.record_at(0);
    assert_eq!(dates.get_type(), qtype::DATE);
    assert_eq!(
        (dates.int_at(0), dates.int_at(1), dates.int_at(2)),
        (0, 1, 2)
    );
    let text = values.record_at(1);
    assert_eq!(
        text.get_string(),
        Ok(b"I'm afraid I would crash the application...".to_vec())
    );
}

#[test]
fn dictionary_rows_for_the_table() {
    let mut pool = SymbolPool::new();
    let rows = build_dictionary_list(&mut pool);
    assert_eq!(rows.len(), 3);
    for i in 0..3 {
        let row = rows.record_at(i);
        assert_eq!(row.get_type(), qtype::DICTIONARY);
        let keys = row.record_at(0);
        assert_eq!(pool.S_to_str(keys.symbol_at(0)).as_str(), "a");
        assert_eq!(pool.S_to_str(keys.symbol_at(1)).as_str(), "b");
        let values = row.record_at(1);
        assert_eq!(values.int_at(0), (i as i32) * 10);
        assert_eq!(values.int_at(1), (i as i32) * 100);
    }
}

#[test]
fn parallel_sym_change_replaces_both_on_success() {
    let mut pool = SymbolPool::new();
    let mut lock = SymbolLock::new();
    let mut list = ktn(qtype::SYMBOL, 2);
    let a = pool.ss("a".to_owned());
    let b = pool.ss("b".to_owned());
    list.set_symbol_at(0, a);
    list.set_symbol_at(1, b);
    let before = list.refcount;
    let outcome = parallel_sym_change(&mut list, &mut pool, &mut lock, true);
    assert!(outcome.is_ok());
    assert_eq!(pool.S_to_str(list.symbol_at(0)).as_str(), "replaced");
    assert_eq!(pool.S_to_str(list.symbol_at(1)).as_str(), "symbolbol");
    assert_eq!(list.refcount, before + 1);
    assert_eq!(lock.setm(0), 0, "the lock is released on the success path");
}

#[test]
fn parallel_sym_change_reports_a_failed_join() {
    let mut pool = SymbolPool::new();
    let mut lock = SymbolLock::new();
    let mut list = ktn(qtype::SYMBOL, 2);
    let outcome = parallel_sym_change(&mut list, &mut pool, &mut lock, false);
    let error = outcome.expect_err("a failed join becomes an error record");
    assert_eq!(error.get_type(), qtype::ERROR);
    let (msg, _) = catchy(error);
    assert_eq!(msg.as_deref(), Some("oh no"));
    assert_eq!(lock.setm(0), 0, "the lock is released on the failure path");
    assert_eq!(pool.S_to_str(list.symbol_at(1)).as_str(), "symbolbol");
}

#[test]
fn calendar_records() {
    let days_record = ymd_to_days();
    assert_eq!(days_record.get_int(), Ok(7396));
    let date_record = days_to_date(&days_record);
    assert_eq!(date_record.get_int(), Ok(20200401));
}

#[test]
fn error_record_carries_its_message() {
    let error = krr("type");
    assert_eq!(error.get_type(), qtype::ERROR);
    assert_eq!(error.len(), 1);
    let (msg, _) = catchy(error);
    assert_eq!(msg.as_deref(), Some("type"));
}
