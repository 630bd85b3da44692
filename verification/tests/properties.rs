use ble_schema::characteristic::{
    decode_cccd, CccdLayout, Properties, SecurityMode, Subscription,
};
use ble_schema::property_list::{CharacteristicArgs, ServiceArgs};
use ble_schema::error::SchemaError;
use ble_schema::lexer::tokenize;
use ble_schema::token::Token;
use ble_schema::uuid::Uuid;

fn args(list: &str) -> Result<CharacteristicArgs, SchemaError> {
    CharacteristicArgs::parse(&tokenize(list).unwrap())
}

fn props(read: bool, write: bool, wwr: bool, notify: bool, indicate: bool) -> Properties {
    Properties { read, write, write_without_response: wwr, notify, indicate }
}

#[test]
fn flags_default_to_false() {
    let a = args("uuid = \"2a19\"").unwrap();
    assert!(a.uuid.same(&Uuid::Uuid16(0x2a19)));
    assert_eq!(a.props, Properties::none());
    assert_eq!(a.props, props(false, false, false, false, false));
    assert_eq!(a.security, None);
}

#[test]
fn each_flag_sets_its_property() {
    assert_eq!(args("uuid = \"2a19\", read").unwrap().props, props(true, false, false, false, false));
    assert_eq!(args("uuid = \"2a19\", write").unwrap().props, props(false, true, false, false, false));
    assert_eq!(
        args("uuid = \"2a19\", write_without_response").unwrap().props,
        props(false, false, true, false, false)
    );
    assert_eq!(args("uuid = \"2a19\", notify").unwrap().props, props(false, false, false, true, false));
    assert_eq!(
        args("uuid = \"2a19\", indicate").unwrap().props,
        props(false, false, false, false, true)
    );
    assert_eq!(
        args("read, write, uuid = \"2a19\", indicate, notify, write_without_response,")
            .unwrap()
            .props,
        props(true, true, true, true, true)
    );
}

#[test]
fn flags_take_booleans() {
    let a = args("uuid = \"2a19\", read = true, write = false, notify = \"true\", indicate = \"false\"")
        .unwrap();
    assert_eq!(a.props, props(true, false, false, true, false));
    assert_eq!(args("uuid = \"2a19\", read = yes").unwrap_err(), SchemaError::InvalidBool);
    assert_eq!(args("uuid = \"2a19\", read = \"\"").unwrap_err(), SchemaError::InvalidBool);
}

#[test]
fn security_modes_by_name() {
    for (name, mode) in [
        ("NoAccess", SecurityMode::NoAccess),
        ("open", SecurityMode::Open),
        ("JustWorks", SecurityMode::JustWorks),
        ("justworks", SecurityMode::JustWorks),
        ("MITM", SecurityMode::Mitm),
        ("LescMitm", SecurityMode::LescMitm),
        ("signed", SecurityMode::Signed),
        ("SignedMitm", SecurityMode::SignedMitm),
    ] {
        let a = args(&format!("uuid = \"2a19\", security = \"{}\"", name)).unwrap();
        assert_eq!(a.security, Some(mode));
        assert_eq!(SecurityMode::parse(name.as_bytes()), Ok(mode));
    }
    assert_eq!(
        args("uuid = \"2a19\", security = \"paranoid\"").unwrap_err(),
        SchemaError::UnknownSecurityMode
    );
    assert_eq!(
        args("uuid = \"2a19\", security = Open").unwrap_err(),
        SchemaError::UnknownSecurityMode
    );
    assert_eq!(args("uuid = \"2a19\", security").unwrap_err(), SchemaError::UnknownSecurityMode);
}

#[test]
fn uuid_is_required_and_must_be_sound() {
    assert_eq!(args("read").unwrap_err(), SchemaError::MissingUuid);
    assert_eq!(args("").unwrap_err(), SchemaError::MissingUuid);
    assert_eq!(args("uuid = \"2a1\"").unwrap_err(), SchemaError::InvalidUuid);
    assert_eq!(args("uuid").unwrap_err(), SchemaError::InvalidUuid);
    assert_eq!(args("uuid = abcd").unwrap_err(), SchemaError::InvalidUuid);
    let long = args("uuid = \"9e7312e0-2354-11eb-9f10-fbc30a62cf38\", read").unwrap();
    assert_eq!(long.uuid.to_le_bytes().len(), 16);
}

#[test]
fn properties_are_named_once_and_known() {
    assert_eq!(args("uuid = \"2a19\", read, read").unwrap_err(), SchemaError::DuplicateProperty);
    assert_eq!(
        args("uuid = \"2a19\", uuid = \"2a19\"").unwrap_err(),
        SchemaError::DuplicateProperty
    );
    assert_eq!(
        args("uuid = \"2a19\", security = \"open\", security = \"open\"").unwrap_err(),
        SchemaError::DuplicateProperty
    );
    assert_eq!(args("uuid = \"2a19\", broadcast").unwrap_err(), SchemaError::UnknownProperty);
}

#[test]
fn malformed_lists() {
    for list in ["uuid = ", "uuid = \"2a19\" read", ", read", "\"2a19\"", "uuid = (", "read = ="] {
        assert_eq!(args(list).unwrap_err(), SchemaError::UnexpectedToken, "{}", list);
    }
}

#[test]
fn first_fault_is_reported() {
    assert_eq!(args("bogus, uuid = \"zz\"").unwrap_err(), SchemaError::UnknownProperty);
    assert_eq!(args("uuid = \"zz\", bogus").unwrap_err(), SchemaError::InvalidUuid);
}

#[test]
fn service_list_knows_uuid_alone() {
    let tokens = vec![Token::ident("uuid"), Token::Assign, Token::string("180f")];
    assert!(ServiceArgs::parse(&tokens).unwrap().uuid.same(&Uuid::Uuid16(0x180f)));
    assert_eq!(
        ServiceArgs::parse(&tokenize("uuid = \"180f\", read").unwrap()).unwrap_err(),
        SchemaError::UnknownProperty
    );
    assert_eq!(ServiceArgs::parse(&[]).unwrap_err(), SchemaError::MissingUuid);
    assert_eq!(
        ServiceArgs::parse(&tokenize("uuid = \"180\"").unwrap()).unwrap_err(),
        SchemaError::InvalidUuid
    );
}

#[test]
fn derived_predicates() {
    assert!(props(false, true, false, false, false).writable());
    assert!(props(false, false, true, false, false).writable());
    assert!(!props(true, false, false, true, true).writable());
    assert!(props(false, false, false, true, false).subscribable());
    assert!(props(false, false, false, false, true).subscribable());
    assert!(!props(true, true, true, false, false).subscribable());
    assert!(!props(false, false, true, false, false).required_by_client());
    assert!(props(true, false, false, false, false).required_by_client());
    assert!(!Properties::none().accessible());
    assert!(props(false, false, true, false, false).accessible());
    assert_eq!(Properties::none().cccd_layout(), None);
    assert_eq!(props(false, false, false, true, false).cccd_layout(), Some(CccdLayout::Notifications));
    assert_eq!(props(false, false, false, false, true).cccd_layout(), Some(CccdLayout::Indications));
    assert_eq!(props(false, false, false, true, true).cccd_layout(), Some(CccdLayout::Both));
    assert_eq!(CccdLayout::Notifications.mask(), 0x01);
    assert_eq!(CccdLayout::Indications.mask(), 0x02);
    assert_eq!(CccdLayout::Both.mask(), 0x03);
}

#[test]
fn cccd_notify_only() {
    let p = props(false, false, false, true, false);
    assert_eq!(decode_cccd(p, &[0x00]), Some(Subscription::Notifications { notifications: false }));
    assert_eq!(decode_cccd(p, &[0x01]), Some(Subscription::Notifications { notifications: true }));
    assert_eq!(decode_cccd(p, &[0x02]), Some(Subscription::Notifications { notifications: false }));
    assert_eq!(decode_cccd(p, &[0x03]), Some(Subscription::Notifications { notifications: true }));
    assert_eq!(decode_cccd(p, &[]), None);
}

#[test]
fn cccd_indicate_only() {
    let p = props(false, false, false, false, true);
    assert_eq!(decode_cccd(p, &[0x00]), Some(Subscription::Indications { indications: false }));
    assert_eq!(decode_cccd(p, &[0x01]), Some(Subscription::Indications { indications: false }));
    assert_eq!(decode_cccd(p, &[0x02]), Some(Subscription::Indications { indications: true }));
    assert_eq!(decode_cccd(p, &[0x03]), Some(Subscription::Indications { indications: true }));
    assert_eq!(decode_cccd(p, &[]), None);
}

#[test]
fn cccd_notify_and_indicate() {
    let p = props(false, false, false, true, true);
    let both = |indications, notifications| Some(Subscription::Both { indications, notifications });
    assert_eq!(decode_cccd(p, &[0x00]), both(false, false));
    assert_eq!(decode_cccd(p, &[0x01]), both(false, true));
    assert_eq!(decode_cccd(p, &[0x02]), both(true, false));
    assert_eq!(decode_cccd(p, &[0x03]), both(true, true));
    assert_eq!(decode_cccd(p, &[0xfd, 0x03]), both(false, true));
    assert_eq!(decode_cccd(p, &[0x01, 0x00]), both(false, true));
    assert_eq!(decode_cccd(p, &[]), None);
}

#[test]
fn cccd_without_subscription() {
    let p = props(true, true, true, false, false);
    assert_eq!(decode_cccd(p, &[0x03]), None);
    assert_eq!(decode_cccd(p, &[]), None);
}
