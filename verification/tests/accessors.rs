//! Pairwise checks of the scalar constructors against every accessor.

use kdb_model::construct::{
    kb, kc, kd, ke, kf, kg, kh, ki, kj, kt, ktj, ktn, ku, kz, new_minute, new_month, new_null,
    new_second,
};
use kdb_model::intern::SymbolPool;
use kdb_model::qtype;
use kdb_model::record::{k0, U};

/// Assert that exactly the accessor named by `ok` succeeds on `r`.
fn check_only(r: &k0, ok: &str) {
    assert_eq!(r.get_byte().is_ok(), ok == "byte", "get_byte on {}", ok);
    assert_eq!(r.get_short().is_ok(), ok == "short", "get_short on {}", ok);
    assert_eq!(r.get_int().is_ok(), ok == "int", "get_int on {}", ok);
    assert_eq!(r.get_long().is_ok(), ok == "long", "get_long on {}", ok);
    assert_eq!(r.get_real().is_ok(), ok == "real", "get_real on {}", ok);
    assert_eq!(r.get_float().is_ok(), ok == "float", "get_float on {}", ok);
    assert_eq!(r.get_char().is_ok(), ok == "char", "get_char on {}", ok);
    assert_eq!(r.get_symbol().is_ok(), ok == "symbol", "get_symbol on {}", ok);
    assert_eq!(r.get_string().is_ok(), ok == "string", "get_string on {}", ok);
}

#[test]
fn accessor_pairwise_matrix() {
    let mut pool = SymbolPool::new();
    check_only(&kb(1), "none");
    check_only(&ku(U::new([7u8; 16])), "none");
    check_only(&kg(0x3c), "byte");
    check_only(&kh(-144), "short");
    check_only(&ki(86400000), "int");
    check_only(&kj(-668541276001729000), "long");
    check_only(&ke(0.00324f32.to_bits()), "real");
    check_only(&kf((-6302.620f64).to_bits()), "float");
    check_only(&kc('q' as i32), "char");
    check_only(&pool.ks("symbolism".to_owned()), "symbol");
    check_only(&ktj(-(qtype::TIMESTAMP as i32), 479779200000000000), "long");
    check_only(&ktj(-(qtype::TIMESPAN as i32), -91800001234567), "long");
    check_only(&kd(-7), "int");
    check_only(&kz(5553.5f64.to_bits()), "float");
    check_only(&kt(-5400123), "int");
    check_only(&new_month(126), "int");
    check_only(&new_minute(640), "int");
    check_only(&new_second(-7200), "int");
    check_only(&new_null(), "none");
}

#[test]
fn accessors_return_constructed_values() {
    let mut pool = SymbolPool::new();
    assert_eq!(kg(0x3c).get_byte(), Ok(0x3c));
    assert_eq!(kh(-144).get_short(), Ok(-144));
    assert_eq!(ki(86400000).get_int(), Ok(86400000));
    assert_eq!(kj(-668541276001729000).get_long(), Ok(-668541276001729000));
    assert_eq!(ke(0.00324f32.to_bits()).get_real(), Ok(0.00324f32.to_bits()));
    assert_eq!(
        kf((-6302.620f64).to_bits()).get_float(),
        Ok((-6302.620f64).to_bits())
    );
    assert_eq!(kc('q' as i32).get_char(), Ok('q'));
    let sym = pool.ks("locust".to_owned());
    let handle = sym.get_symbol().expect("symbol accessor");
    assert_eq!(pool.S_to_str(handle).as_str(), "locust");
    assert_eq!(kd(-7).get_int(), Ok(-7));
    assert_eq!(kt(-5400123).get_int(), Ok(-5400123));
    assert_eq!(new_month(126).get_int(), Ok(126));
    assert_eq!(new_minute(640).get_int(), Ok(640));
    assert_eq!(new_second(-7200).get_int(), Ok(-7200));
    assert_eq!(
        ktj(-(qtype::TIMESTAMP as i32), 479779200000000000).get_long(),
        Ok(479779200000000000)
    );
}

#[test]
fn mismatch_messages() {
    let int_record = ki(5);
    assert_eq!(int_record.get_byte(), Err("not a byte"));
    assert_eq!(int_record.get_short(), Err("not a short"));
    assert_eq!(int_record.get_long(), Err("not a long"));
    assert_eq!(int_record.get_real(), Err("not a real"));
    assert_eq!(int_record.get_float(), Err("not a float"));
    assert_eq!(int_record.get_char(), Err("not a char"));
    assert_eq!(int_record.get_symbol(), Err("not a symbol"));
    assert_eq!(int_record.get_string(), Err("not a string"));
    let long_record = kj(5);
    assert_eq!(long_record.get_int(), Err("not an int"));
}

#[test]
fn get_type_is_verbatim() {
    assert_eq!(kb(1).get_type(), -qtype::BOOL);
    assert_eq!(kg(1).get_type(), -qtype::BYTE);
    assert_eq!(kh(1).get_type(), -qtype::SHORT);
    assert_eq!(ki(1).get_type(), -qtype::INT);
    assert_eq!(kj(1).get_type(), -qtype::LONG);
    assert_eq!(ke(0).get_type(), -qtype::REAL);
    assert_eq!(kf(0).get_type(), -qtype::FLOAT);
    assert_eq!(kc(65).get_type(), -qtype::CHAR);
    assert_eq!(kd(0).get_type(), -qtype::DATE);
    assert_eq!(kt(0).get_type(), -qtype::TIME);
    assert_eq!(kz(0).get_type(), -qtype::DATETIME);
    assert_eq!(new_month(0).get_type(), -qtype::MONTH);
    assert_eq!(new_minute(0).get_type(), -qtype::MINUTE);
    assert_eq!(new_second(0).get_type(), -qtype::SECOND);
    assert_eq!(new_null().get_type(), qtype::NULL);
    assert_eq!(ktn(qtype::SYMBOL, 3).get_type(), qtype::SYMBOL);
}

#[test]
fn guid_round_trip() {
    let bytes = [
        0x1e_u8, 0x11, 0x17, 0x0c, 0x42, 0x24, 0x25, 0x2c, 0x1c, 0x14, 0x1e, 0x22, 0x4d, 0x3d,
        0x46, 0x24,
    ];
    let g = U::new(bytes);
    assert_eq!(g.bytes(), bytes);
    assert_eq!(ku(g).get_type(), -qtype::GUID);
}

#[test]
fn real_and_float_bit_patterns_are_exact() {
    let e = 193810.32f32;
    let f = 742.41927468f64;
    assert_eq!(f32::from_bits(ke(e.to_bits()).get_real().unwrap()), e);
    assert_eq!(f64::from_bits(kf(f.to_bits()).get_float().unwrap()), f);
}
