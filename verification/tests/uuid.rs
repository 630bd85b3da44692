use ble_schema::error::SchemaError;
use ble_schema::uuid::Uuid;

#[test]
fn short_form() {
    let uuid = Uuid::from_string("180f").unwrap();
    assert!(uuid.same(&Uuid::Uuid16(0x180f)));
    assert_eq!(uuid.to_le_bytes(), vec![0x0f, 0x18]);
    assert!(Uuid::from_string("ABCD").unwrap().same(&Uuid::Uuid16(0xabcd)));
    assert!(Uuid::from_string("0000").unwrap().same(&Uuid::Uuid16(0)));
    assert!(Uuid::from_string("ffFF").unwrap().same(&Uuid::Uuid16(0xffff)));
}

#[test]
fn long_form_is_held_least_significant_byte_first() {
    let uuid = Uuid::from_string("9e7312e0-2354-11eb-9f10-fbc30a62cf38").unwrap();
    let expected = [
        0x38, 0xcf, 0x62, 0x0a, 0xc3, 0xfb, 0x10, 0x9f, 0xeb, 0x11, 0x54, 0x23, 0xe0, 0x12, 0x73,
        0x9e,
    ];
    assert!(uuid.same(&Uuid::Uuid128(expected)));
    assert_eq!(uuid.to_le_bytes(), expected.to_vec());
    let upper = Uuid::parse(b"9E7312E0-2354-11EB-9F10-FBC30A62CF38").unwrap();
    assert!(upper.same(&uuid));
}

#[test]
fn other_texts_are_no_uuid() {
    for text in [
        "",
        "180",
        "180g",
        "+180",
        "0x180f",
        "18 0f",
        "9e7312e023541 1eb9f10fbc30a62cf38",
        "9e7312e0-2354-11eb-9f10-fbc30a62cf3",
        "9e7312e0-2354-11eb-9f10-fbc30a62cf388",
        "9e7312e0_2354_11eb_9f10_fbc30a62cf38",
        "9e7312e0-2354-11eb-9f10-fbc30a62cf3g",
        "9e7312e02-354-11eb-9f10-fbc30a62cf38",
        "{9e7312e0-2354-11eb-9f10-fbc30a62cf3}",
        "9e7312e0235411eb9f10fbc30a62cf38",
    ] {
        assert_eq!(Uuid::from_string(text).unwrap_err(), SchemaError::InvalidUuid, "{}", text);
    }
}

#[test]
fn sameness_tells_widths_apart() {
    let mut wide = [0u8; 16];
    wide[0] = 0x0f;
    wide[1] = 0x18;
    assert!(!Uuid::Uuid16(0x180f).same(&Uuid::Uuid128(wide)));
    assert!(!Uuid::Uuid128(wide).same(&Uuid::Uuid16(0x180f)));
    assert!(!Uuid::Uuid16(0x180f).same(&Uuid::Uuid16(0x180e)));
    let mut other = wide;
    other[15] = 1;
    assert!(!Uuid::Uuid128(wide).same(&Uuid::Uuid128(other)));
    assert!(Uuid::Uuid128(wide).same(&Uuid::Uuid128(wide)));
}
