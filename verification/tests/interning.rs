//! Deduplication of interned symbols and the intern lock.

use kdb_model::intern::{SymbolLock, SymbolPool};

#[test]
fn interning_same_text_twice_yields_equal_handles() {
    let mut pool = SymbolPool::new();
    let h1 = pool.ss("formal".to_owned());
    let h2 = pool.ss("formal".to_owned());
    assert_eq!(h1, h2);
}

#[test]
fn interning_different_texts_yields_unequal_handles() {
    let mut pool = SymbolPool::new();
    let h1 = pool.ss("metals".to_owned());
    let h2 = pool.ss("fire".to_owned());
    assert_ne!(h1, h2);
    let h3 = pool.ss("metals".to_owned());
    assert_eq!(h1, h3);
    assert_eq!(pool.S_to_str(h1).as_str(), "metals");
    assert_eq!(pool.S_to_str(h2).as_str(), "fire");
}

#[test]
fn interning_a_prefix_matches_the_whole_text_interned() {
    let mut pool = SymbolPool::new();
    let h1 = pool.sn("Josephine", 6);
    assert_eq!(pool.S_to_str(h1).as_str(), "Joseph");
    let h2 = pool.ss("Joseph".to_owned());
    assert_eq!(h1, h2);
    let h3 = pool.ss("Josephine".to_owned());
    assert_ne!(h1, h3);
}

#[test]
fn symbol_records_of_equal_text_compare_equal_by_handle() {
    let mut pool = SymbolPool::new();
    let s1 = pool.ks("symbolism".to_owned());
    let s2 = pool.ks("symbolism".to_owned());
    assert_eq!(s1.get_symbol().unwrap(), s2.get_symbol().unwrap());
}

#[test]
fn lock_toggle_reports_the_previous_state() {
    let mut lock = SymbolLock::new();
    assert_eq!(lock.setm(1), 0);
    assert_eq!(lock.setm(1), 1);
    assert_eq!(lock.setm(0), 1);
    assert_eq!(lock.setm(0), 0);
}
