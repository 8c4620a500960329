use std::collections::HashSet;

use syncyam::errors::DatatypeError;
use syncyam::name_validator::{is_valid_collection_name, is_valid_datatype_key};
use syncyam::text::{decimal_text, signed_decimal_text};
use syncyam::types::{CheckPoint, Cuid, DataType, DatatypeState, Duid, Uid};

#[test]
fn can_use_checkpoint() {
    let cp1 = CheckPoint::default();
    let cp2 = CheckPoint::new(100, 101);
    println!("{}, {cp2:?}", cp1.to_string());
    assert_eq!(cp1.to_string(), "(s:0, c:0)");
    assert_eq!(cp2.to_string(), "(s:100, c:101)");
    assert_eq!(cp1, cp1);
    assert_ne!(cp1, cp2);
}

#[test]
fn checkpoint_takes_the_component_wise_maximum() {
    let mut cp = CheckPoint::new(5, 9);
    cp.check_with(&CheckPoint::new(7, 3));
    assert_eq!(cp, CheckPoint::new(7, 9));
    cp.check_with(&CheckPoint::new(0, 0));
    assert_eq!(cp, CheckPoint::new(7, 9));
}

#[test]
fn can_display_data_types() {
    assert_eq!(DataType::Counter.to_string(), "Counter");
    assert_eq!(DataType::Variable.to_string(), "Variable");
    assert_eq!(DataType::Mapping.to_string(), "Map");
}

#[test]
fn can_check_accessiblity_of_datatype_state() {
    let cases = [
        (DatatypeState::DueToCreate, true),
        (DatatypeState::Subscribed, true),
        (DatatypeState::DueToSubscribeOrCreate, true),
        (DatatypeState::DueToSubscribe, false),
        (DatatypeState::Disabled, false),
        (DatatypeState::DueToUnsubscribe, false),
        (DatatypeState::DueToDelete, false),
    ];
    for (state, expected) in cases {
        assert_eq!(state.is_read_writable(), expected);
        assert_eq!(state.is_readonly(), !expected);
    }
}

#[test]
fn can_create_duid_and_cuid() {
    let _duid = Duid::new();
    let _cuid = Cuid::new();
    assert_ne!(_duid.to_string(), _cuid.to_string());
    let default_duid = Duid::default();
    println!("{}", default_duid.to_string());
    assert_eq!(default_duid.to_string(), "0000000000000000");
}

#[test]
fn can_generate_uids() {
    let mut uid_set = HashSet::new();
    uid_set.insert(Cuid::new_nil());
    const LIMIT: usize = 10000;
    for _n in 0..LIMIT {
        let uid = Cuid::new();
        assert!(Cuid::validate(uid.as_str()));
        uid_set.insert(uid);
    }
    assert_eq!(uid_set.len(), LIMIT + 1)
}

#[test]
fn can_validate_uids() {
    let cases = [
        ("0000000000000000", true),
        ("-_00000000000000", true),
        ("()00000000000000", false),
        ("short", false),
        ("longer_than_16_characters", false),
    ];
    for (uid, expected) in cases {
        assert_eq!(expected, Uid::validate(uid));
        let parsed = Uid::try_from_str(uid);
        assert_eq!(parsed.is_some(), expected);
        if let Some(u) = parsed {
            assert_eq!(u.as_str(), uid);
        }
    }
}

#[test]
fn can_compare_errors() {
    let source_err1 = std::io::Error::new(std::io::ErrorKind::InvalidData, "source err1");
    let source_err2 = std::io::Error::new(std::io::ErrorKind::InvalidInput, "source err2");
    let e1 = DatatypeError::FailedTransaction(source_err1.to_string());
    let e2 = DatatypeError::FailedTransaction(source_err2.to_string());
    assert_eq!(e1, e2);

    let e3 = DatatypeError::FailedToDeserialize("e2".to_string());
    assert_ne!(e2, e3);
}

#[test]
fn can_valid_collection_names() {
    let long_ok = "a".repeat(47);
    let too_long = "a".repeat(48);
    let cases: [(&str, bool); 21] = [
        ("hello_world", true),
        ("a", true),
        ("my-collection", true),
        ("my.collection", true),
        ("my~collection", true),
        ("_private", true),
        ("Collection123", true),
        ("a-b.c~d_e", true),
        (&long_ok, true),
        ("", false),
        (&too_long, false),
        ("1hello", false),
        ("-hello", false),
        (".hello", false),
        ("system.hello", false),
        ("my.system.hello", false),
        ("hello@world", false),
        ("hello world", false),
        ("hello.system", true),
        ("system", true),
        ("system123", true),
    ];
    for (name, expected) in cases {
        assert_eq!(expected, is_valid_collection_name(name), "{name}");
    }
}

#[test]
fn can_valid_datatype_key() {
    let long_ok = "a".repeat(255);
    let too_long = "a".repeat(256);
    let cases: [(&str, bool); 11] = [
        ("hello_world", true),
        ("simple", true),
        ("user:123:profile", true),
        ("a", true),
        ("with-dash-and.dot", true),
        ("한글키", true),
        (&long_ok, true),
        ("", false),
        ("hello\0world", false),
        ("$hello", false),
        (&too_long, false),
    ];
    for (key, expected) in cases {
        assert_eq!(expected, is_valid_datatype_key(key), "{key}");
    }
}

#[test]
fn writes_numbers_in_decimal() {
    assert_eq!(decimal_text(0), "0");
    assert_eq!(decimal_text(1234567890), "1234567890");
    assert_eq!(decimal_text(u64::MAX), "18446744073709551615");
    assert_eq!(signed_decimal_text(-42), "-42");
    assert_eq!(signed_decimal_text(i64::MIN), "-9223372036854775808");
}
