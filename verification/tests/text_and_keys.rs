use micro::config::{CacheConfig, DBConfig};
use micro::keys::{list_key, micro_key};
use micro::text::{push_bool, push_decimal, push_signed_decimal};

#[test]
fn decimal_text_of_unsigned_numbers() {
    let mut s = String::from("n=");
    push_decimal(&mut s, 0);
    assert_eq!(s, "n=0");
    let mut s = String::new();
    push_decimal(&mut s, 7);
    assert_eq!(s, "7");
    let mut s = String::new();
    push_decimal(&mut s, 10);
    assert_eq!(s, "10");
    let mut s = String::new();
    push_decimal(&mut s, 4294967295);
    assert_eq!(s, "4294967295");
    let mut s = String::new();
    push_decimal(&mut s, u64::MAX);
    assert_eq!(s, u64::MAX.to_string());
}

#[test]
fn decimal_text_of_signed_numbers() {
    let mut s = String::new();
    push_signed_decimal(&mut s, -128);
    assert_eq!(s, "-128");
    let mut s = String::new();
    push_signed_decimal(&mut s, 0);
    assert_eq!(s, "0");
    let mut s = String::new();
    push_signed_decimal(&mut s, 127);
    assert_eq!(s, "127");
    let mut s = String::new();
    push_signed_decimal(&mut s, i64::MIN);
    assert_eq!(s, i64::MIN.to_string());
}

#[test]
fn text_of_booleans() {
    let mut s = String::new();
    push_bool(&mut s, true);
    push_bool(&mut s, false);
    assert_eq!(s, "truefalse");
}

#[test]
fn micro_key_is_micro_underscore_id() {
    assert_eq!(micro_key(42), "micro_42");
    assert_eq!(micro_key(0), "micro_0");
    assert_eq!(micro_key(18446744073709551615), "micro_18446744073709551615");
}

#[test]
fn list_key_names_type_page_and_order() {
    assert_eq!(list_key(-3, 2, true), "micros_typ_-3_2_true");
    assert_eq!(list_key(1, 1, false), "micros_typ_1_1_false");
    assert_eq!(list_key(127, 65535, false), "micros_typ_127_65535_false");
}

#[test]
fn different_queries_get_different_keys() {
    // typ 1, page 12 against typ 11, page 2: the separators keep them apart.
    assert_ne!(list_key(1, 12, true), list_key(11, 2, true));
    assert_ne!(list_key(1, 1, true), list_key(1, 1, false));
    assert_ne!(micro_key(1), list_key(1, 1, true));
    assert_ne!(micro_key(12), micro_key(1));
}

#[test]
fn cache_url_has_password_host_and_port() {
    let cfg = CacheConfig {
        host: "localhost".to_string(),
        port: 6379,
        password: "secret".to_string(),
    };
    assert_eq!(cfg.url(), "redis://:secret@localhost:6379/");
    let cfg = CacheConfig { host: "10.0.0.1".to_string(), port: 0, password: String::new() };
    assert_eq!(cfg.url(), "redis://:@10.0.0.1:0/");
}

#[test]
fn database_url_has_all_parts() {
    let cfg = DBConfig {
        host: "db".to_string(),
        port: 3306,
        user: "root".to_string(),
        password: "pw".to_string(),
        dbname: "micro".to_string(),
    };
    assert_eq!(cfg.url(), "mysql://root:pw@db:3306/micro");
}
