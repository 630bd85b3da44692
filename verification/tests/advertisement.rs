use ble_schema::ad_structure::{parse_ad_structures, AdStructure};
use ble_schema::adv_parser::{parse_flag_set, parse_service, parse_services};
use ble_schema::advertisement::{
    services_ad_type, AdvertisementData, Flag, FlagSet, Service, Services, Width,
};
use ble_schema::basic_service::BasicService;
use ble_schema::encoder::{render_data, render_flags, render_name, render_services};
use ble_schema::error::{AdvField, SchemaError};
use ble_schema::generate::{generate_adv_data, generate_data};
use ble_schema::lexer::tokenize;
use ble_schema::token::Token;
use ble_schema::uuid::{half_word_to_reversed_bytes, Uuid};

fn render(schema: &str) -> Result<Vec<u8>, SchemaError> {
    let tokens = tokenize(schema)?;
    generate_adv_data(&tokens)
}

fn parse(schema: &str) -> Result<AdvertisementData, SchemaError> {
    let tokens = tokenize(schema)?;
    AdvertisementData::parse(&tokens)
}

#[test]
fn end_to_end_advertisement() {
    let bytes = render(
        "flags: (GeneralDiscovery), services: Complete16(HealthThermometer), short_name: \"HelloRust\"",
    )
    .unwrap();
    assert_eq!(
        bytes,
        vec![
            0x02, 0x01, 0x02, 0x03, 0x03, 0x09, 0x18, 0x0a, 0x08, b'H', b'e', b'l', b'l', b'o', b'R',
            b'u', b's', b't'
        ]
    );
}

#[test]
fn scan_data_full_name() {
    let tokens = tokenize("full_name: \"Hello, Rust!\"").unwrap();
    let (length, bytes) = generate_data(&tokens).unwrap();
    assert_eq!(length, 14);
    assert_eq!(bytes[0], 13);
    assert_eq!(bytes[1], 0x09);
    assert_eq!(&bytes[2..], b"Hello, Rust!");
}

#[test]
fn empty_schema_renders_nothing() {
    assert_eq!(render("").unwrap(), Vec::<u8>::new());
    assert_eq!(render("  \n\t ").unwrap(), Vec::<u8>::new());
}

#[test]
fn fields_render_in_fixed_order() {
    let bytes = render("full_name: \"ab\", short_name: \"c\", flags: (LE_Only)").unwrap();
    assert_eq!(bytes, vec![2, 1, 4, 2, 8, b'c', 3, 9, b'a', b'b']);
}

#[test]
fn trailing_commas_are_accepted() {
    let bytes = render("flags: (LimitedDiscovery, LE_Only,), short_name: \"x\",").unwrap();
    assert_eq!(bytes, vec![2, 1, 5, 2, 8, b'x']);
}

#[test]
fn flags_byte_is_or_of_bits() {
    let all = FlagSet {
        items: vec![
            Flag::LimitedDiscovery,
            Flag::GeneralDiscovery,
            Flag::LE_Only,
            Flag::Bit3,
            Flag::Bit4,
        ],
    };
    let (length, bytes) = render_flags(&all);
    assert_eq!(length, 2);
    assert_eq!(bytes, vec![2, 1, 0b11111]);

    let none = FlagSet { items: vec![] };
    assert_eq!(render_flags(&none).1, vec![2, 1, 0]);

    let two = FlagSet { items: vec![Flag::Bit4, Flag::GeneralDiscovery] };
    assert_eq!(render_flags(&two).1, vec![2, 1, 0x12]);

    let twice = FlagSet { items: vec![Flag::LE_Only, Flag::LE_Only] };
    assert_eq!(render_flags(&twice).1, vec![2, 1, 0x04]);
}

#[test]
fn flag_bits() {
    assert_eq!(Flag::LimitedDiscovery.bit(), 0b1);
    assert_eq!(Flag::GeneralDiscovery.bit(), 0b10);
    assert_eq!(Flag::LE_Only.bit(), 0b100);
    assert_eq!(Flag::Bit3.bit(), 0b1000);
    assert_eq!(Flag::Bit4.bit(), 0b10000);
    assert_eq!(Flag::from_name(b"LE_Only"), Some(Flag::LE_Only));
    assert_eq!(Flag::from_name(b"le_only"), None);
}

#[test]
fn service_list_type_bytes() {
    assert_eq!(services_ad_type(Width::Bits16, false), 0x02);
    assert_eq!(services_ad_type(Width::Bits16, true), 0x03);
    assert_eq!(services_ad_type(Width::Bits32, false), 0x04);
    assert_eq!(services_ad_type(Width::Bits32, true), 0x05);
    assert_eq!(services_ad_type(Width::Bits128, false), 0x06);
    assert_eq!(services_ad_type(Width::Bits128, true), 0x07);
}

#[test]
fn service_list_tags() {
    for (tag, ad) in [
        ("Incomplete16", 0x02u8),
        ("Complete16", 0x03),
        ("Incomplete32", 0x04),
        ("Complete32", 0x05),
        ("Incomplete128", 0x06),
        ("Complete128", 0x07),
    ] {
        let bytes = render(&format!("services: {}(Battery)", tag)).unwrap();
        assert_eq!(bytes, vec![3, ad, 0x0f, 0x18]);
    }
}

#[test]
fn services_render_little_endian() {
    let services = Services {
        width: Width::Bits16,
        complete: false,
        items: vec![
            Service::Basic16(BasicService::HeartRate),
            Service::Custom(Uuid::Uuid16(0xabcd)),
        ],
    };
    let (length, bytes) = render_services(&services).unwrap();
    assert_eq!(length, 5);
    assert_eq!(bytes, vec![5, 0x02, 0x0d, 0x18, 0xcd, 0xab]);
}

#[test]
fn custom_128_bit_service() {
    let bytes =
        render("services: Complete128(Custom(\"00112233-4455-6677-8899-aabbccddeeff\"))").unwrap();
    assert_eq!(
        bytes,
        vec![
            17, 0x07, 0xff, 0xee, 0xdd, 0xcc, 0xbb, 0xaa, 0x99, 0x88, 0x77, 0x66, 0x55, 0x44, 0x33,
            0x22, 0x11, 0x00
        ]
    );
}

#[test]
fn custom_16_bit_service() {
    let bytes = render("services: Incomplete16(Custom(\"180A\"), GenericAccess)").unwrap();
    assert_eq!(bytes, vec![5, 0x02, 0x0a, 0x18, 0x00, 0x18]);
}

#[test]
fn half_word_is_reversed() {
    assert_eq!(half_word_to_reversed_bytes(0x1809), (0x09, 0x18));
    assert_eq!(half_word_to_reversed_bytes(0x00ff), (0xff, 0x00));
    assert_eq!(half_word_to_reversed_bytes(0xff00), (0x00, 0xff));
}

#[test]
fn names_render_by_kind() {
    let (length, bytes) = render_name(false, &b"HelloRust".to_vec()).unwrap();
    assert_eq!(length, 10);
    assert_eq!(bytes[..2], [10, 0x08]);
    assert_eq!(&bytes[2..], b"HelloRust");
    let (length, bytes) = render_name(true, &b"Hi".to_vec()).unwrap();
    assert_eq!(length, 3);
    assert_eq!(bytes, vec![3, 0x09, b'H', b'i']);
    let (_, bytes) = render_name(true, &Vec::new()).unwrap();
    assert_eq!(bytes, vec![1, 0x09]);
}

#[test]
fn name_bytes_are_raw() {
    let bytes = render("short_name: \"Caf\u{e9}\"").unwrap();
    assert_eq!(bytes, vec![6, 0x08, b'C', b'a', b'f', 0xc3, 0xa9]);
}

#[test]
fn name_at_the_limit() {
    let name = vec![b'a'; 254];
    let (length, bytes) = render_name(true, &name).unwrap();
    assert_eq!(length, 255);
    assert_eq!(bytes.len(), 256);
    let name = vec![b'a'; 255];
    assert_eq!(render_name(true, &name).unwrap_err(), SchemaError::StructureTooLong);
}

#[test]
fn long_payloads_are_refused_not_truncated() {
    let items: Vec<Service> =
        (0..128u16).map(|i| Service::Custom(Uuid::Uuid16(0x2000 + i))).collect();
    let services = Services { width: Width::Bits16, complete: true, items };
    assert_eq!(render_services(&services).unwrap_err(), SchemaError::StructureTooLong);
    let data = AdvertisementData {
        flags: None,
        services: Some(services),
        short_name: None,
        full_name: None,
    };
    assert_eq!(render_data(&data).unwrap_err(), SchemaError::StructureTooLong);
}

#[test]
fn no_limit_of_31_bytes() {
    let (length, bytes) = generate_data(
        &tokenize("short_name: \"0123456789012345678901234567890123456789\"").unwrap(),
    )
    .unwrap();
    assert_eq!(length, 42);
    assert_eq!(bytes.len(), 42);
}

#[test]
fn short_name_twice_is_rejected() {
    let err = render("short_name: \"a\", short_name: \"b\"").unwrap_err();
    assert_eq!(err, SchemaError::MultipleField(AdvField::ShortName));
    assert_eq!(err.message(), "multiple short_names provided");
}

#[test]
fn each_field_at_most_once() {
    assert_eq!(
        render("flags: (), flags: (Bit3)").unwrap_err(),
        SchemaError::MultipleField(AdvField::Flags)
    );
    assert_eq!(
        render("services: Complete16(Battery), services: Complete16(Glucose)").unwrap_err(),
        SchemaError::MultipleField(AdvField::Services)
    );
    assert_eq!(
        render("full_name: \"a\", flags: (), full_name: \"a\"").unwrap_err(),
        SchemaError::MultipleField(AdvField::FullName)
    );
    assert_eq!(SchemaError::MultipleField(AdvField::Flags).message(), "multiple flags provided");
    assert_eq!(
        SchemaError::MultipleField(AdvField::Services).message(),
        "multiple services provided"
    );
    assert_eq!(
        SchemaError::MultipleField(AdvField::FullName).message(),
        "multiple full_names provided"
    );
}

#[test]
fn repeated_key_is_refused_before_its_value_is_read() {
    assert_eq!(
        render("short_name: \"a\", short_name: (").unwrap_err(),
        SchemaError::MultipleField(AdvField::ShortName)
    );
}

#[test]
fn duplicate_flag_is_rejected() {
    assert_eq!(
        render("flags: (GeneralDiscovery, GeneralDiscovery)").unwrap_err(),
        SchemaError::DuplicateItem
    );
    assert_eq!(
        render("flags: (LE_Only, Bit3, LE_Only)").unwrap_err(),
        SchemaError::DuplicateItem
    );
    assert_eq!(SchemaError::DuplicateItem.message(), "Identifiers must be unique.");
}

#[test]
fn duplicate_service_is_rejected() {
    assert_eq!(
        render("services: Complete16(Battery, HeartRate, Battery)").unwrap_err(),
        SchemaError::DuplicateItem
    );
    assert_eq!(
        render("services: Complete16(Custom(\"180f\"), Custom(\"180F\"))").unwrap_err(),
        SchemaError::DuplicateItem
    );
    assert!(render("services: Complete16(Custom(\"180f\"), Battery)").is_ok());
}

#[test]
fn unknown_names_are_rejected() {
    assert_eq!(
        render("colour: \"red\"").unwrap_err(),
        SchemaError::UnknownField(b"colour".to_vec())
    );
    assert_eq!(render("flags: (Discoverable)").unwrap_err(), SchemaError::UnknownFlag);
    assert_eq!(render("services: Complete16(Teapot)").unwrap_err(), SchemaError::UnknownService);
    assert_eq!(render("services: Complete64(Battery)").unwrap_err(), SchemaError::UnknownServiceList);
    assert_eq!(
        render("services: Complete16(Custom(\"xyz\"))").unwrap_err(),
        SchemaError::InvalidUuid
    );
}

#[test]
fn unknown_names_have_their_messages() {
    assert_eq!(render("flags: (Discoverable)").unwrap_err().message(), "Expected flag identifier.");
    assert_eq!(
        render("services: Complete16(Teapot)").unwrap_err().message(),
        "Expected service identifier."
    );
    assert_eq!(
        render("services: Complete64(HeartRate)").unwrap_err().message(),
        "Expected service list."
    );
    assert_eq!(
        render("services: Complete16(Custom(\"xyz\"))").unwrap_err().message(),
        "Could not parse string literal as UUID."
    );
}

#[test]
fn unknown_field_is_named() {
    let err = render("flags: (), colour: \"red\", short_name: \"x\"").unwrap_err();
    assert_eq!(err, SchemaError::UnknownField(b"colour".to_vec()));
    assert_eq!(err.message(), "Unexpected adv data field: \"colour\"");
    assert_eq!(
        render("flag: ()").unwrap_err().message(),
        "Unexpected adv data field: \"flag\""
    );
    let tokens = vec![Token::Ident("gr\u{fc}n".as_bytes().to_vec()), Token::Colon];
    assert_eq!(
        generate_adv_data(&tokens).unwrap_err().message(),
        "Unexpected adv data field: \"gr\u{fc}n\""
    );
    let tokens = vec![Token::Ident(vec![b'a', 0xff]), Token::Colon];
    let err = generate_adv_data(&tokens).unwrap_err();
    assert_eq!(err, SchemaError::UnknownField(vec![b'a', 0xff]));
    assert_eq!(err.message(), "Unexpected adv data field");
}

#[test]
fn a_set_is_read_before_its_tag() {
    assert_eq!(render("services: Complete64(Teapot)").unwrap_err(), SchemaError::UnknownService);
}

#[test]
fn empty_service_list_is_rejected() {
    assert_eq!(render("services: Complete16()").unwrap_err(), SchemaError::EmptyServiceList);
}

#[test]
fn malformed_schemas_are_rejected() {
    for schema in [
        "flags",
        "flags:",
        "flags (Bit3)",
        "flags: Bit3",
        "flags: (Bit3",
        "flags: (Bit3 Bit4)",
        "flags: (,)",
        "flags: (\"Bit3\")",
        "short_name: Hello",
        "short_name: \"a\" full_name: \"b\"",
        "services: (Battery)",
        "services: Complete16",
        "services: Complete16(Custom)",
        "services: Complete16(Custom(Battery))",
        "services: Complete16(Custom(\"180f\", \"1810\"))",
        ": \"a\"",
        ", flags: ()",
    ] {
        assert_eq!(render(schema).unwrap_err(), SchemaError::UnexpectedToken, "{}", schema);
    }
}

#[test]
fn parsed_schema_holds_the_declared_fields() {
    let data = parse(
        "services: Incomplete128(Battery, Custom(\"2a19\")), flags: (Bit4, LimitedDiscovery), full_name: \"n\"",
    )
    .unwrap();
    assert_eq!(data.flags.unwrap().items, vec![Flag::Bit4, Flag::LimitedDiscovery]);
    let services = data.services.unwrap();
    assert_eq!(services.width, Width::Bits128);
    assert!(!services.complete);
    assert_eq!(services.items.len(), 2);
    assert!(services.items[0].same(&Service::Basic16(BasicService::Battery)));
    assert!(services.items[1].same(&Service::Custom(Uuid::Uuid16(0x2a19))));
    assert!(!services.items[1].same(&Service::Basic16(BasicService::Battery)));
    assert_eq!(data.short_name, None);
    assert_eq!(data.full_name, Some(b"n".to_vec()));
}

#[test]
fn set_parsers_report_where_they_stop() {
    let tokens = tokenize("x (Bit3, Bit4) y Custom(\"180f\") Complete32(Glucose,)").unwrap();
    let (set, next) = parse_flag_set(&tokens, 1).unwrap();
    assert_eq!(set.items, vec![Flag::Bit3, Flag::Bit4]);
    assert_eq!(next, 6);
    let (service, next) = parse_service(&tokens, 7).unwrap();
    assert!(service.same(&Service::Custom(Uuid::Uuid16(0x180f))));
    assert_eq!(next, 11);
    let (services, next) = parse_services(&tokens, 11).unwrap();
    assert_eq!(services.width, Width::Bits32);
    assert!(services.complete);
    assert_eq!(services.items.len(), 1);
    assert_eq!(next, tokens.len());
    assert_eq!(parse_flag_set(&tokens, 0).unwrap_err(), SchemaError::UnexpectedToken);
    assert_eq!(parse_flag_set(&tokens, 100).unwrap_err(), SchemaError::UnexpectedToken);
    assert_eq!(parse_service(&tokens, 100).unwrap_err(), SchemaError::UnexpectedToken);
    assert_eq!(parse_services(&tokens, 100).unwrap_err(), SchemaError::UnexpectedToken);
}

fn tuples(structures: &[AdStructure]) -> Vec<(u8, usize, Vec<u8>)> {
    structures.iter().map(|s| (s.ad_type, s.payload.len() + 1, s.payload.clone())).collect()
}

#[test]
fn rendered_bytes_read_back() {
    let bytes = render(
        "flags: (GeneralDiscovery), services: Complete16(HealthThermometer), short_name: \"HelloRust\", full_name: \"Hello, Rust!\"",
    )
    .unwrap();
    let structures = parse_ad_structures(&bytes).unwrap();
    assert_eq!(
        tuples(&structures),
        vec![
            (0x01, 2, vec![0x02]),
            (0x03, 3, vec![0x09, 0x18]),
            (0x08, 10, b"HelloRust".to_vec()),
            (0x09, 13, b"Hello, Rust!".to_vec()),
        ]
    );
}

#[test]
fn round_trip_of_built_data() {
    let data = AdvertisementData {
        flags: Some(FlagSet { items: vec![Flag::Bit3] }),
        services: None,
        short_name: Some(Vec::new()),
        full_name: Some(vec![0, 1, 2, 255]),
    };
    let (length, bytes) = render_data(&data).unwrap();
    assert_eq!(length, bytes.len());
    let structures = parse_ad_structures(&bytes).unwrap();
    assert_eq!(
        tuples(&structures),
        vec![(0x01, 2, vec![0x08]), (0x08, 1, vec![]), (0x09, 5, vec![0, 1, 2, 255])]
    );
}

#[test]
fn broken_structures_are_not_read() {
    assert!(parse_ad_structures(&[]).unwrap().is_empty());
    assert!(parse_ad_structures(&[0]).is_none());
    assert!(parse_ad_structures(&[2, 1]).is_none());
    assert!(parse_ad_structures(&[2, 1, 6, 0]).is_none());
    assert!(parse_ad_structures(&[2, 1, 6, 3, 9]).is_none());
    let one = parse_ad_structures(&[1, 9]).unwrap();
    assert_eq!(tuples(&one), vec![(9, 1, vec![])]);
}

#[test]
fn basic_service_numbers() {
    assert_eq!(BasicService::GenericAccess.uuid16(), 0x1800);
    assert_eq!(BasicService::HealthThermometer.uuid16(), 0x1809);
    assert_eq!(BasicService::DeviceInformation.uuid16(), 0x180a);
    assert_eq!(BasicService::HeartRate.uuid16(), 0x180d);
    assert_eq!(BasicService::Battery.uuid16(), 0x180f);
    assert_eq!(BasicService::CyclingSpeedAndCadence.uuid16(), 0x1816);
    assert_eq!(BasicService::CyclingPower.uuid16(), 0x1818);
    assert_eq!(BasicService::ReconnectionConfiguration.uuid16(), 0x1829);
    assert_eq!(BasicService::InsulinDelivery.uuid16(), 0x183a);
    assert_eq!(BasicService::GenericHealthSensor.uuid16(), 0x1840);
    assert_eq!(BasicService::AudioInputControl.uuid16(), 0x1843);
    assert_eq!(BasicService::MeshProxySolicitation.uuid16(), 0x1859);
}

#[test]
fn basic_service_names() {
    assert_eq!(BasicService::from_name(b"HealthThermometer"), Some(BasicService::HealthThermometer));
    assert_eq!(BasicService::from_name(b"HTTPProxy"), Some(BasicService::HTTPProxy));
    assert_eq!(BasicService::from_name(b"healththermometer"), None);
    assert_eq!(BasicService::from_name(b""), None);
    assert_eq!(BasicService::HeartRate.name(), "HeartRate");
    assert_eq!(
        BasicService::from_name(BasicService::MeshProxySolicitation.name().as_bytes()),
        Some(BasicService::MeshProxySolicitation)
    );
}

#[test]
fn flag_set_constructor_refuses_duplicates() {
    let set = FlagSet::new(vec![Flag::Bit3, Flag::LE_Only]).unwrap();
    assert_eq!(set.items, vec![Flag::Bit3, Flag::LE_Only]);
    assert!(FlagSet::new(vec![]).unwrap().items.is_empty());
    assert_eq!(
        FlagSet::new(vec![Flag::Bit3, Flag::LE_Only, Flag::Bit3]).unwrap_err(),
        SchemaError::DuplicateItem
    );
}

#[test]
fn service_list_constructor_refuses_unsound_lists() {
    let battery = Service::Basic16(BasicService::Battery);
    let custom = Service::Custom(Uuid::Uuid16(0x180f));
    let list = Services::new(Width::Bits16, true, vec![battery, custom]).unwrap();
    assert_eq!(list.items.len(), 2);
    assert_eq!(list.width, Width::Bits16);
    assert!(list.complete);
    assert_eq!(
        Services::new(Width::Bits16, true, vec![]).unwrap_err(),
        SchemaError::EmptyServiceList
    );
    assert_eq!(
        Services::new(Width::Bits128, false, vec![battery, custom, battery]).unwrap_err(),
        SchemaError::DuplicateItem
    );
    assert_eq!(
        Services::new(Width::Bits128, false, vec![custom, Service::Custom(Uuid::Uuid16(0x180f))])
            .unwrap_err(),
        SchemaError::DuplicateItem
    );
}
