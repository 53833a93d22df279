//! Lengths, element access and append operations on list records.

use kdb_model::construct::{kb, ki, kj, knk, kp, kpn, krr, ktn, new_null, xD, xT};
use kdb_model::intern::SymbolPool;
use kdb_model::list_ops::{jk, js, jv};
use kdb_model::qtype;

#[test]
fn length_of_scalars_and_null_is_one() {
    assert_eq!(kb(1).len(), 1);
    assert_eq!(ki(42).len(), 1);
    assert_eq!(kj(42).len(), 1);
    assert_eq!(new_null().len(), 1);
    assert_eq!(krr("oops").len(), 1);
}

#[test]
fn length_of_lists_is_the_constructed_count() {
    assert_eq!(ktn(qtype::LONG, 0).len(), 0);
    assert_eq!(ktn(qtype::LONG, 5).len(), 5);
    assert_eq!(ktn(qtype::BYTE, 3).len(), 3);
    assert_eq!(ktn(qtype::SYMBOL, 7).len(), 7);
    assert_eq!(knk(4).len(), 4);
    assert_eq!(kp("this is a text.").len(), 15);
    assert_eq!(kpn("The meeting was too long and I felt it s...", 24).len(), 24);
}

#[test]
fn length_of_dictionary_is_two_and_table_is_two() {
    let keys = ktn(qtype::INT, 3);
    let values = ktn(qtype::LONG, 3);
    let dict = xD(keys, values);
    assert_eq!(dict.len(), 2);
    assert_eq!(dict.get_type(), qtype::DICTIONARY);
    let table = xT(dict);
    assert_eq!(table.len(), 2);
    assert_eq!(table.get_type(), qtype::TABLE);
}

#[test]
fn element_access_reads_and_writes() {
    let mut longs = ktn(qtype::LONG, 3);
    assert_eq!(longs.long_at(0), 0);
    longs.set_long_at(0, 10);
    longs.set_long_at(1, 20);
    longs.set_long_at(2, 30);
    assert_eq!(longs.long_at(0), 10);
    assert_eq!(longs.long_at(1), 20);
    assert_eq!(longs.long_at(2), 30);

    let mut ints = ktn(qtype::INT, 2);
    ints.set_int_at(1, -9);
    assert_eq!(ints.int_at(0), 0);
    assert_eq!(ints.int_at(1), -9);

    let mut bytes = ktn(qtype::BYTE, 2);
    bytes.set_byte_at(0, 0xc4);
    assert_eq!(bytes.byte_at(0), 0xc4);

    let mut shorts = ktn(qtype::SHORT, 1);
    shorts.set_short_at(0, -3);
    assert_eq!(shorts.short_at(0), -3);

    let mut reals = ktn(qtype::REAL, 1);
    reals.set_real_at(0, 1.5f32.to_bits());
    assert_eq!(f32::from_bits(reals.real_at(0)), 1.5f32);

    let mut floats = ktn(qtype::FLOAT, 1);
    floats.set_float_at(0, 2.5f64.to_bits());
    assert_eq!(f64::from_bits(floats.float_at(0)), 2.5f64);

    let mut records = knk(2);
    assert_eq!(records.record_at(0).get_type(), qtype::NULL);
    records.set_record_at(1, ki(7));
    assert_eq!(records.record_at(1).get_int(), Ok(7));
}

#[test]
fn append_preserves_prior_elements_and_extends_count() {
    let mut symbols = ktn(qtype::SYMBOL, 0);
    let mut pool = SymbolPool::new();
    let a = pool.ss("alpha".to_owned());
    let b = pool.ss("beta".to_owned());
    js(&mut symbols, a);
    assert_eq!(symbols.len(), 1);
    js(&mut symbols, b);
    assert_eq!(symbols.len(), 2);
    assert_eq!(symbols.symbol_at(0), a);
    assert_eq!(symbols.symbol_at(1), b);

    let mut compound = knk(0);
    jk(&mut compound, ki(1));
    jk(&mut compound, kj(2));
    assert_eq!(compound.len(), 2);
    assert_eq!(compound.record_at(0).get_int(), Ok(1));
    assert_eq!(compound.record_at(1).get_long(), Ok(2));
}

#[test]
fn concatenation_keeps_both_sides_in_order() {
    let mut left = ktn(qtype::LONG, 2);
    left.set_long_at(0, 1);
    left.set_long_at(1, 2);
    let mut right = ktn(qtype::LONG, 3);
    right.set_long_at(0, 3);
    right.set_long_at(1, 4);
    right.set_long_at(2, 5);
    jv(&mut left, right);
    assert_eq!(left.len(), 5);
    for i in 0..5 {
        assert_eq!(left.long_at(i), (i + 1) as i64);
    }
}

#[test]
fn strings_read_back() {
    let text = kp("grasshopper");
    assert_eq!(text.get_string(), Ok(b"grasshopper".to_vec()));
    let cut = kpn("The meeting was too long and I felt it s...", 24);
    assert_eq!(cut.get_string(), Ok(b"The meeting was too long".to_vec()));
}
