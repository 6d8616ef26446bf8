use ble_session::error::Error;
use ble_session::peripheral_id::PeripheralId;
use ble_session::uuid::Uuid;

#[test]
fn identity_round_trips_through_its_string_form() {
    let id = PeripheralId::parse("hci0/dev_AA_BB_CC_DD_EE_FF".to_string()).unwrap();
    let text = id.serialize();
    assert_eq!(text, "hci0/dev_AA_BB_CC_DD_EE_FF");
    let back = PeripheralId::parse(text).unwrap();
    assert_eq!(back, id);
}

#[test]
fn uuid_shaped_identity_round_trips() {
    let id = PeripheralId::new("6c1e4f89-2b6a-4d8e-9f03-55aa12345678".to_string());
    let back = PeripheralId::parse(id.serialize()).unwrap();
    assert_eq!(back, id);
}

#[test]
fn empty_identity_is_rejected() {
    let r = PeripheralId::parse(String::new());
    assert!(matches!(r, Err(Error::Uuid(_))));
}

#[test]
fn same_identity_compares_by_content() {
    let a = PeripheralId::new("alpha".to_string());
    let b = PeripheralId::new("alpha".to_string());
    let c = PeripheralId::new("beta".to_string());
    assert!(a.same_identity(&b));
    assert!(!a.same_identity(&c));
}

#[test]
fn hyphenated_uuid_text_is_accepted() {
    let u = Uuid::new("550e8400-e29b-41d4-a716-446655440000".to_string()).unwrap();
    assert_eq!(u.value(), "550e8400-e29b-41d4-a716-446655440000");
}

#[test]
fn simple_uuid_text_is_accepted() {
    assert!(Uuid::new("550e8400e29b41d4a716446655440000".to_string()).is_ok());
}

#[test]
fn malformed_uuid_text_is_rejected() {
    assert!(matches!(
        Uuid::new("not-a-uuid".to_string()),
        Err(Error::Uuid(_))
    ));
    assert!(matches!(Uuid::new(String::new()), Err(Error::Uuid(_))));
}
