use florust::default_plugins::{
    decode_float, decode_signed, decode_unsigned, DefaultFloatDataManager,
    DefaultIIntegerDataManager, DefaultUIntegerDataManager,
};
use florust::server_plugin::{DataSourceManager, DataSourceManagerError, FloatBits};
use florust::text::str_eq;

fn wrong_length() -> DataSourceManagerError {
    DataSourceManagerError::InvalidData("could not convert slice to array".to_string())
}

#[test]
fn unsigned_decoding_is_big_endian() {
    assert_eq!(decode_unsigned(&[0, 0, 0, 0, 0, 0, 0, 0]), Ok(0));
    assert_eq!(decode_unsigned(&[0, 0, 0, 0, 0, 0, 1, 2]), Ok(258));
    assert_eq!(decode_unsigned(&[1, 0, 0, 0, 0, 0, 0, 0]), Ok(1u64 << 56));
    assert_eq!(decode_unsigned(&[0xff; 8]), Ok(u64::MAX));
    let bytes = [0x01, 0x23, 0x45, 0x67, 0x89, 0xab, 0xcd, 0xef];
    assert_eq!(decode_unsigned(&bytes), Ok(0x0123_4567_89ab_cdef));
    assert_eq!(decode_unsigned(&bytes), Ok(u64::from_be_bytes(bytes)));
}

#[test]
fn signed_decoding_is_twos_complement() {
    assert_eq!(decode_signed(&[0, 0, 0, 0, 0, 0, 0, 42]), Ok(42));
    assert_eq!(decode_signed(&[0xff; 8]), Ok(-1));
    assert_eq!(decode_signed(&[0x80, 0, 0, 0, 0, 0, 0, 0]), Ok(i64::MIN));
    assert_eq!(decode_signed(&[0x7f, 0xff, 0xff, 0xff, 0xff, 0xff, 0xff, 0xff]), Ok(i64::MAX));
    for v in [-1_000_000_007i64, -258, 0, 1, 77, 1 << 40] {
        assert_eq!(decode_signed(&v.to_be_bytes()), Ok(v));
    }
}

#[test]
fn float_decoding_keeps_the_bit_pattern() {
    for v in [0.0f64, -0.0, 1.5, -273.15, f64::MAX, f64::INFINITY] {
        assert_eq!(decode_float(&v.to_be_bytes()), Ok(FloatBits(v.to_bits())));
    }
    let nan = decode_float(&f64::NAN.to_be_bytes()).unwrap();
    assert!(f64::from_bits(nan.0).is_nan());
}

#[test]
fn payloads_of_other_lengths_are_invalid() {
    assert_eq!(decode_unsigned(&[]), Err(wrong_length()));
    assert_eq!(decode_unsigned(&[0; 7]), Err(wrong_length()));
    assert_eq!(decode_unsigned(&[0; 9]), Err(wrong_length()));
    assert_eq!(decode_signed(&[1, 2, 3]), Err(wrong_length()));
    assert_eq!(decode_float(&[0; 16]), Err(wrong_length()));
}

#[test]
fn builtin_managers_accept_every_registration() {
    let mut m = DefaultIIntegerDataManager;
    assert_eq!(m.manager_id(), "FlorustDefaultIIntegerDataManager");
    assert_eq!(m.register("a".to_string()), Ok(()));
    assert_eq!(m.register_with_data("a".to_string(), &[1]), Ok(()));
    assert_eq!(m.deregister("a"), Ok(()));
    assert_eq!(m.deregister_with_data("zzz", &[]), Ok(()));
    assert_eq!(m.update_data("a", &[0, 0, 0, 0, 0, 0, 0, 5]), Ok(5));
    assert_eq!(m.update_data("a", &[5]), Err(wrong_length()));

    let mut m = DefaultUIntegerDataManager;
    assert_eq!(m.manager_id(), "FlorustDefaultUIntegerDataManager");
    assert_eq!(m.register("a".to_string()), Ok(()));
    assert_eq!(m.register_with_data("a".to_string(), &[1]), Ok(()));
    assert_eq!(m.deregister("a"), Ok(()));
    assert_eq!(m.deregister_with_data("a", &[1]), Ok(()));
    assert_eq!(m.update_data("a", &[0xff; 8]), Ok(u64::MAX));
    assert_eq!(m.update_data("a", &[]), Err(wrong_length()));

    let mut m = DefaultFloatDataManager;
    assert_eq!(m.manager_id(), "FlorustDefaultFloatDataManager");
    assert_eq!(m.register("a".to_string()), Ok(()));
    assert_eq!(m.register_with_data("a".to_string(), &[1]), Ok(()));
    assert_eq!(m.deregister("a"), Ok(()));
    assert_eq!(m.deregister_with_data("a", &[1]), Ok(()));
    assert_eq!(m.update_data("a", &2.5f64.to_be_bytes()), Ok(FloatBits(2.5f64.to_bits())));
    assert_eq!(m.update_data("a", &[0; 4]), Err(wrong_length()));
}

#[test]
fn str_eq_compares_characters() {
    assert!(str_eq("", ""));
    assert!(str_eq("tank-1", "tank-1"));
    assert!(!str_eq("tank-1", "tank-2"));
    assert!(!str_eq("tank", "tank-1"));
    assert!(!str_eq("tank-1", "tank"));
    assert!(str_eq("größe", "größe"));
    assert!(!str_eq("größe", "grösse"));
    assert!(!str_eq("a", "A"));
}
