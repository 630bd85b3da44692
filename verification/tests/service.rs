use ble_schema::artifact::{faults, CharacteristicArtifact, Fault};
use ble_schema::characteristic::{CccdLayout, Properties, SecurityMode, Subscription};
use ble_schema::error::{FailureKind, SchemaError};
use ble_schema::gatt_service;
use ble_schema::lexer::tokenize;
use ble_schema::schema::{FieldDecl, FieldType, Fields, StructDecl};
use ble_schema::service::{
    BoundCharacteristic, EventBody, RegisteredService, Registration, ServiceArtifact,
    ServiceEvent, ServiceEventKind, ServiceOperation, ValueSize, WriteSource, INITIAL_BYTE,
};
use ble_schema::uuid::Uuid;

fn field(name: &str, ty: &str, list: Option<&str>) -> FieldDecl {
    FieldDecl {
        name: name.to_string(),
        ty: FieldType::Named(ty.to_string()),
        characteristic: list.map(|l| tokenize(l).unwrap()),
    }
}

fn decl(name: &str, fields: Vec<FieldDecl>) -> StructDecl {
    StructDecl { name: name.to_string(), fields: Fields::Named(fields) }
}

fn compile(fields: Vec<FieldDecl>) -> Result<ServiceArtifact, SchemaError> {
    gatt_service(&tokenize("uuid = \"180f\"").unwrap(), &decl("BatteryService", fields))
}

fn battery() -> ServiceArtifact {
    compile(vec![
        field("battery_level", "u8", Some("uuid = \"2a19\", read, notify")),
        field("note", "u32", None),
        field("control_point", "Command", Some("uuid = \"2a1a\", write, indicate, security = \"Mitm\"")),
        field("mode", "u16", Some("uuid = \"2a1b\", write_without_response, notify, indicate")),
    ])
    .unwrap()
}

#[test]
fn service_artifact_of_a_declaration() {
    let service = battery();
    assert_eq!(service.name, "BatteryService");
    assert_eq!(service.event_name, "BatteryServiceEvent");
    assert!(service.uuid.same(&Uuid::Uuid16(0x180f)));
    assert_eq!(service.retained, vec![1]);
    assert_eq!(service.characteristics.len(), 3);
    let level = &service.characteristics[0];
    assert_eq!(level.field, 0);
    assert_eq!(service.characteristics[1].field, 2);
    assert_eq!(service.characteristics[2].field, 3);
    assert_eq!(level.name, "battery_level");
    assert_eq!(level.pascal, "BatteryLevel");
    assert!(matches!(&level.ty, FieldType::Named(t) if t == "u8"));
    assert!(level.args.uuid.same(&Uuid::Uuid16(0x2a19)));
    assert!(level.args.props.read && level.args.props.notify && !level.args.props.write);
    assert_eq!(service.characteristics[1].name, "control_point");
    assert_eq!(service.characteristics[1].pascal, "ControlPoint");
    assert_eq!(service.characteristics[1].args.security, Some(SecurityMode::Mitm));
    assert_eq!(service.characteristics[2].pascal, "Mode");
}

#[test]
fn pascal_names_come_from_the_field_names() {
    let service = compile(vec![
        field("x", "u8", Some("uuid = \"2a19\", read")),
        field("heartRate_2", "u8", Some("uuid = \"2a1a\", read")),
        field("FOO_BAR", "u8", Some("uuid = \"2a1b\", read")),
    ])
    .unwrap();
    let names: Vec<&str> = service.characteristics.iter().map(|c| c.pascal.as_str()).collect();
    assert_eq!(names, vec!["X", "HeartRate2", "FooBar"]);
}

#[test]
fn handle_fields_follow_the_characteristics() {
    let service = battery();
    assert_eq!(
        service.handle_fields(),
        vec![
            "battery_level_value_handle",
            "battery_level_cccd_handle",
            "control_point_value_handle",
            "control_point_cccd_handle",
            "mode_value_handle",
            "mode_cccd_handle",
        ]
    );
    let plain = compile(vec![field("a", "u8", Some("uuid = \"2a19\", read, write"))]).unwrap();
    assert_eq!(plain.handle_fields(), vec!["a_value_handle"]);
    assert_eq!(plain.characteristics[0].value_handle_field(), "a_value_handle");
    assert_eq!(plain.characteristics[0].cccd_handle_field(), None);
    assert_eq!(
        battery().characteristics[0].cccd_handle_field(),
        Some("battery_level_cccd_handle".to_string())
    );
}

#[test]
fn operations_by_properties() {
    let service = battery();
    let level = &service.characteristics[0];
    assert_eq!(
        level.service_operations(),
        vec![ServiceOperation::GetValue, ServiceOperation::SetValue, ServiceOperation::Notify]
    );
    assert_eq!(
        service.characteristics[1].service_operations(),
        vec![ServiceOperation::GetValue, ServiceOperation::SetValue, ServiceOperation::Indicate]
    );
    assert_eq!(
        service.characteristics[2].service_operations(),
        vec![
            ServiceOperation::GetValue,
            ServiceOperation::SetValue,
            ServiceOperation::Notify,
            ServiceOperation::Indicate
        ]
    );
    assert_eq!(level.service_operation_name(ServiceOperation::GetValue), "battery_level_get");
    assert_eq!(level.service_operation_name(ServiceOperation::SetValue), "battery_level_set");
    assert_eq!(level.service_operation_name(ServiceOperation::Notify), "battery_level_notify");
    assert_eq!(level.service_operation_name(ServiceOperation::Indicate), "battery_level_indicate");
    assert_eq!(ServiceOperation::GetValue.failure(), FailureKind::GetValue);
    assert_eq!(ServiceOperation::SetValue.failure(), FailureKind::SetValue);
    assert_eq!(ServiceOperation::Notify.failure(), FailureKind::NotifyValue);
    assert_eq!(ServiceOperation::Indicate.failure(), FailureKind::IndicateValue);
}

#[test]
fn event_variants_by_properties() {
    let service = battery();
    let level = &service.characteristics[0];
    assert_eq!(level.service_events(), vec![ServiceEventKind::CccdWrite(CccdLayout::Notifications)]);
    assert_eq!(
        level.service_event_name(ServiceEventKind::CccdWrite(CccdLayout::Notifications)),
        "BatteryLevelCccdWrite"
    );
    let point = &service.characteristics[1];
    assert_eq!(
        point.service_events(),
        vec![ServiceEventKind::Write, ServiceEventKind::CccdWrite(CccdLayout::Indications)]
    );
    assert_eq!(point.service_event_name(ServiceEventKind::Write), "ControlPointWrite");
    assert_eq!(
        service.characteristics[2].service_events(),
        vec![ServiceEventKind::Write, ServiceEventKind::CccdWrite(CccdLayout::Both)]
    );
    let read_only = compile(vec![field("a", "u8", Some("uuid = \"2a19\", read"))]).unwrap();
    assert!(read_only.characteristics[0].service_events().is_empty());
}

#[test]
fn attribute_plan() {
    let service = battery();
    let fixed = service.characteristics[0].attribute(ValueSize { min: 4, max: 4 });
    assert_eq!(fixed.initial_value, vec![123, 123, 123, 123]);
    assert_eq!(INITIAL_BYTE, 123);
    assert_eq!(fixed.variable_len, None);
    assert_eq!(fixed.read_security, None);
    assert_eq!(fixed.write_security, None);
    assert_eq!(fixed.props, service.characteristics[0].args.props);
    let varying = service.characteristics[1].attribute(ValueSize { min: 0, max: 20 });
    assert!(varying.initial_value.is_empty());
    assert_eq!(varying.variable_len, Some(20));
    assert_eq!(varying.read_security, Some(SecurityMode::Mitm));
    assert_eq!(varying.write_security, Some(SecurityMode::Mitm));
}

#[test]
fn shape_of_the_declaration() {
    let args = tokenize("uuid = \"180f\"").unwrap();
    let tuple = StructDecl { name: "S".to_string(), fields: Fields::Unnamed };
    assert_eq!(gatt_service(&args, &tuple).unwrap_err(), SchemaError::ServiceNotNamed);
    let unit = StructDecl { name: "S".to_string(), fields: Fields::Unit };
    assert_eq!(gatt_service(&args, &unit).unwrap_err(), SchemaError::ServiceNotNamed);
    assert_eq!(
        SchemaError::ServiceNotNamed.message(),
        "gatt_service structs must have named fields, not tuples."
    );
    let empty = gatt_service(&args, &decl("S", vec![])).unwrap();
    assert!(empty.characteristics.is_empty() && empty.retained.is_empty());
    assert_eq!(empty.event_name, "SEvent");
}

#[test]
fn service_arguments_come_first() {
    let tuple = StructDecl { name: "S".to_string(), fields: Fields::Unnamed };
    assert_eq!(gatt_service(&[], &tuple).unwrap_err(), SchemaError::MissingUuid);
    assert_eq!(
        gatt_service(&tokenize("uuid = \"18\"").unwrap(), &tuple).unwrap_err(),
        SchemaError::InvalidUuid
    );
}

#[test]
fn last_faulty_property_list_is_reported() {
    let err = compile(vec![
        field("a", "u8", Some("uuid = \"zz\"")),
        field("b", "u8", Some("uuid = \"2a19\", read")),
        field("c", "u8", Some("read")),
    ])
    .unwrap_err();
    assert_eq!(err, SchemaError::MissingUuid);
    let err = compile(vec![
        field("a", "u8", Some("uuid = \"zz\"")),
        field("b", "u8", Some("uuid = \"2a19\", read")),
    ])
    .unwrap_err();
    assert_eq!(err, SchemaError::InvalidUuid);
}

#[test]
fn all_faults_are_found() {
    let fields = vec![
        field("a", "u8", Some("uuid = \"zz\"")),
        field("b", "u8", Some("uuid = \"2a19\", read")),
        field("c", "u8", None),
        field("d", "u8", Some("read")),
    ];
    assert_eq!(
        faults(&fields),
        vec![
            Fault { field: 0, error: SchemaError::InvalidUuid },
            Fault { field: 3, error: SchemaError::MissingUuid },
        ]
    );
    assert!(faults(&vec![field("b", "u8", Some("uuid = \"2a19\""))]).is_empty());
    assert!(faults(&Vec::new()).is_empty());
}

#[test]
fn characteristic_names_are_unique() {
    let err = compile(vec![
        field("a", "u8", Some("uuid = \"2a19\", read")),
        field("b", "u8", Some("uuid = \"2a1a\", read")),
        field("a", "u8", Some("uuid = \"2a1b\", read")),
    ])
    .unwrap_err();
    assert_eq!(err, SchemaError::DuplicateCharacteristic);
    assert!(compile(vec![
        field("a", "u8", Some("uuid = \"2a19\", read")),
        field("a", "u8", None),
    ])
    .is_ok());
}

#[test]
fn service_characteristic_needs_an_operation() {
    let err = compile(vec![field("a", "u8", Some("uuid = \"2a19\""))]).unwrap_err();
    assert_eq!(err, SchemaError::NoOperation);
    let err = compile(vec![field("a", "u8", Some("uuid = \"2a19\", read = false"))]).unwrap_err();
    assert_eq!(err, SchemaError::NoOperation);
}

fn registered() -> RegisteredService {
    battery()
        .bind(&[
            Registration { min_size: 1, value_handle: 10, cccd_handle: 11 },
            Registration { min_size: 3, value_handle: 20, cccd_handle: 21 },
            Registration { min_size: 0, value_handle: 30, cccd_handle: 31 },
        ])
        .unwrap()
}

#[test]
fn binding_joins_schema_and_registration() {
    let service = registered();
    assert_eq!(service.characteristics.len(), 3);
    assert_eq!(
        service.characteristics[1],
        BoundCharacteristic {
            props: Properties {
                read: false,
                write: true,
                write_without_response: false,
                notify: false,
                indicate: true
            },
            min_size: 3,
            value_handle: 20,
            cccd_handle: 21,
        }
    );
    assert!(battery().bind(&[]).is_none());
    assert!(battery()
        .bind(&[Registration { min_size: 1, value_handle: 10, cccd_handle: 11 }; 4])
        .is_none());
}

fn write(characteristic: usize, source: WriteSource) -> Option<ServiceEvent> {
    Some(ServiceEvent { characteristic, body: EventBody::Write(source) })
}

fn cccd(characteristic: usize, state: Subscription) -> Option<ServiceEvent> {
    Some(ServiceEvent { characteristic, body: EventBody::CccdWrite(state) })
}

#[test]
fn short_write_falls_back_to_the_stored_value() {
    let service = registered();
    assert_eq!(service.on_write(20, &[]), write(1, WriteSource::Stored));
    assert_eq!(service.on_write(20, &[1]), write(1, WriteSource::Stored));
    assert_eq!(service.on_write(20, &[1, 2]), write(1, WriteSource::Stored));
    assert_eq!(service.on_write(20, &[1, 2, 3]), write(1, WriteSource::Incoming));
    assert_eq!(service.on_write(20, &[1, 2, 3, 4]), write(1, WriteSource::Incoming));
    assert_eq!(service.on_write(30, &[]), write(2, WriteSource::Incoming));
}

#[test]
fn value_write_needs_a_writable_characteristic() {
    let service = registered();
    assert_eq!(service.on_write(10, &[1]), None);
    assert_eq!(service.on_write(99, &[1]), None);
}

#[test]
fn cccd_writes_by_layout() {
    let service = registered();
    assert_eq!(service.on_write(11, &[0]), cccd(0, Subscription::Notifications { notifications: false }));
    assert_eq!(service.on_write(11, &[1]), cccd(0, Subscription::Notifications { notifications: true }));
    assert_eq!(service.on_write(11, &[2]), cccd(0, Subscription::Notifications { notifications: false }));
    assert_eq!(service.on_write(11, &[3]), cccd(0, Subscription::Notifications { notifications: true }));
    assert_eq!(service.on_write(21, &[0]), cccd(1, Subscription::Indications { indications: false }));
    assert_eq!(service.on_write(21, &[1]), cccd(1, Subscription::Indications { indications: false }));
    assert_eq!(service.on_write(21, &[2]), cccd(1, Subscription::Indications { indications: true }));
    assert_eq!(service.on_write(21, &[3]), cccd(1, Subscription::Indications { indications: true }));
    let both = |indications, notifications| cccd(2, Subscription::Both { indications, notifications });
    assert_eq!(service.on_write(31, &[0]), both(false, false));
    assert_eq!(service.on_write(31, &[1]), both(false, true));
    assert_eq!(service.on_write(31, &[2]), both(true, false));
    assert_eq!(service.on_write(31, &[3]), both(true, true));
    for handle in [11, 21, 31] {
        assert_eq!(service.on_write(handle, &[]), None);
    }
}

#[test]
fn first_claim_wins() {
    let writable = Properties {
        read: false,
        write: true,
        write_without_response: false,
        notify: true,
        indicate: false,
    };
    let service = RegisteredService {
        characteristics: vec![
            BoundCharacteristic { props: writable, min_size: 2, value_handle: 5, cccd_handle: 6 },
            BoundCharacteristic { props: writable, min_size: 0, value_handle: 6, cccd_handle: 5 },
        ],
    };
    assert_eq!(service.on_write(5, &[1]), write(0, WriteSource::Stored));
    assert_eq!(service.on_write(6, &[1]), cccd(0, Subscription::Notifications { notifications: true }));
    assert_eq!(service.on_write(6, &[]), write(1, WriteSource::Incoming));
    assert_eq!(
        service.characteristics[1].claim(5, &[0]),
        Some(EventBody::CccdWrite(Subscription::Notifications { notifications: false }))
    );
    assert_eq!(service.characteristics[1].claim(7, &[0]), None);
}

#[test]
fn artifacts_can_be_built_by_hand() {
    let artifact = CharacteristicArtifact {
        field: 0,
        name: "temp".to_string(),
        pascal: "Temp".to_string(),
        ty: FieldType::Other,
        args: ble_schema::property_list::CharacteristicArgs {
            uuid: Uuid::Uuid16(1),
            props: Properties::none(),
            security: None,
        },
    };
    assert_eq!(artifact.value_handle_field(), "temp_value_handle");
    assert_eq!(
        artifact.service_operations(),
        vec![ServiceOperation::GetValue, ServiceOperation::SetValue]
    );
    assert!(matches!(FieldType::Path.duplicate(), FieldType::Path));
}

#[test]
fn access_holds_security_for_both_directions() {
    let service = battery();
    let open = service.characteristics[0].access();
    assert_eq!(open.read_security, None);
    assert_eq!(open.write_security, None);
    assert_eq!(open.props, service.characteristics[0].args.props);
    let secured = service.characteristics[1].access();
    assert_eq!(secured.read_security, Some(SecurityMode::Mitm));
    assert_eq!(secured.write_security, Some(SecurityMode::Mitm));
    assert!(secured.props.write && secured.props.indicate);
}
