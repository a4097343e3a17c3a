use imghost::ident::identifier_text;
use imghost::store::{blob_path, detail_location, raw_location, record_path};

#[test]
fn identifier_text_of_zero() {
    assert_eq!(identifier_text(0), "0");
}

#[test]
fn identifier_text_of_single_digits() {
    assert_eq!(identifier_text(7), "7");
    assert_eq!(identifier_text(9), "9");
}

#[test]
fn identifier_text_of_round_numbers() {
    assert_eq!(identifier_text(10), "10");
    assert_eq!(identifier_text(100), "100");
    assert_eq!(identifier_text(1_000_000), "1000000");
}

#[test]
fn identifier_text_of_largest() {
    assert_eq!(identifier_text(u128::MAX), "340282366920938463463374607431768211455");
}

#[test]
fn identifier_text_agrees_with_std() {
    let samples: [u128; 6] = [1, 42, 1234567890, 99999, u64::MAX as u128, 1u128 << 100];
    for n in samples {
        assert_eq!(identifier_text(n), n.to_string());
    }
}

#[test]
fn paths_and_addresses() {
    assert_eq!(blob_path("42"), "public/42");
    assert_eq!(record_path("42"), "public/42.json");
    assert_eq!(detail_location("42"), "/file/42");
    assert_eq!(raw_location("42"), "/file/raw/42");
}

#[test]
fn different_identifiers_different_paths() {
    let a = identifier_text(12);
    let b = identifier_text(120);
    assert_ne!(blob_path(&a), blob_path(&b));
    assert_ne!(record_path(&a), record_path(&b));
    assert_ne!(blob_path(&a), record_path(&b));
    assert_ne!(detail_location(&a), detail_location(&b));
}
