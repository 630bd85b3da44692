use ble_schema::characteristic::{Properties, Subscription};
use ble_schema::error::{FailureKind, SchemaError};
use ble_schema::gatt_server;
use ble_schema::schema::{FieldDecl, FieldType, Fields, StructDecl};
use ble_schema::server::{Server, ServerBuilder, ServerEvent, ServerService};
use ble_schema::service::{
    BoundCharacteristic, EventBody, RegisteredService, ServiceEvent, WriteSource,
};

fn field(name: &str, ty: FieldType) -> FieldDecl {
    FieldDecl { name: name.to_string(), ty, characteristic: None }
}

fn named(ty: &str) -> FieldType {
    FieldType::Named(ty.to_string())
}

fn decl(fields: Vec<FieldDecl>) -> StructDecl {
    StructDecl { name: "Server".to_string(), fields: Fields::Named(fields) }
}

#[test]
fn server_artifact_of_a_declaration() {
    let server = gatt_server(&decl(vec![
        field("bas", named("BatteryService")),
        field("heart_rate", named("HeartRateService")),
        field("odd", FieldType::Other),
    ]))
    .unwrap();
    assert_eq!(server.name, "Server");
    assert_eq!(server.event_name, "ServerEvent");
    assert_eq!(server.services.len(), 3);
    assert_eq!(server.services[0].name, "bas");
    let variant = server.services[0].variant.as_ref().unwrap();
    assert_eq!(variant.name, "Bas");
    assert_eq!(variant.payload, "BatteryServiceEvent");
    let variant = server.services[1].variant.as_ref().unwrap();
    assert_eq!(variant.name, "HeartRate");
    assert_eq!(variant.payload, "HeartRateServiceEvent");
    assert_eq!(server.services[2].name, "odd");
    assert!(server.services[2].variant.is_none());
    assert!(matches!(server.services[2].ty, FieldType::Other));
}

#[test]
fn server_shape() {
    let tuple = StructDecl { name: "S".to_string(), fields: Fields::Unnamed };
    assert_eq!(gatt_server(&tuple).unwrap_err(), SchemaError::ServerNotNamed);
    let unit = StructDecl { name: "S".to_string(), fields: Fields::Unit };
    assert_eq!(gatt_server(&unit).unwrap_err(), SchemaError::ServerNotNamed);
    assert_eq!(
        SchemaError::ServerNotNamed.message(),
        "gatt_server structs must have named fields, not tuples."
    );
    assert_eq!(
        gatt_server(&decl(vec![field("a", named("A")), field("b", FieldType::Path)])).unwrap_err(),
        SchemaError::UnsupportedServiceType
    );
    assert!(gatt_server(&decl(vec![])).unwrap().services.is_empty());
}

fn service(value_handle: u16, min_size: u16) -> RegisteredService {
    RegisteredService {
        characteristics: vec![BoundCharacteristic {
            props: Properties {
                read: true,
                write: true,
                write_without_response: false,
                notify: true,
                indicate: false,
            },
            min_size,
            value_handle,
            cccd_handle: value_handle + 1,
        }],
    }
}

fn server() -> Server {
    Server {
        services: vec![
            ServerService { service: service(10, 0), has_events: true },
            ServerService { service: service(20, 0), has_events: false },
            ServerService { service: service(30, 2), has_events: true },
            ServerService { service: service(30, 0), has_events: true },
        ],
    }
}

fn write(service: usize, source: WriteSource) -> Option<ServerEvent> {
    Some(ServerEvent {
        service,
        event: ServiceEvent { characteristic: 0, body: EventBody::Write(source) },
    })
}

#[test]
fn first_service_with_an_event_answers() {
    let server = server();
    assert_eq!(server.on_write(10, &[1]), write(0, WriteSource::Incoming));
    assert_eq!(server.on_write(30, &[1, 2]), write(2, WriteSource::Incoming));
    assert_eq!(server.on_write(30, &[1]), write(2, WriteSource::Stored));
    assert_eq!(
        server.on_write(11, &[1]),
        Some(ServerEvent {
            service: 0,
            event: ServiceEvent {
                characteristic: 0,
                body: EventBody::CccdWrite(Subscription::Notifications { notifications: true }),
            },
        })
    );
}

#[test]
fn no_service_no_event() {
    let server = server();
    assert_eq!(server.on_write(99, &[1]), None);
    assert_eq!(server.on_write(11, &[]), None);
    assert_eq!(server.on_write(20, &[1]), None);
    assert_eq!(server.on_write(21, &[1]), None);
    assert_eq!(Server { services: vec![] }.on_write(1, &[1]), None);
}

#[test]
fn write_goes_on_after_a_failed_read() {
    let server = server();
    assert_eq!(server.on_write(30, &[1]), write(2, WriteSource::Stored));
    assert_eq!(server.on_write_from(3, 30, &[1]), write(3, WriteSource::Incoming));
    assert_eq!(server.on_write_from(4, 30, &[1]), None);
    assert_eq!(server.on_write_from(100, 30, &[1]), None);
    assert_eq!(server.on_write_from(1, 10, &[1]), None);
}

#[test]
fn registration_failure_ends_construction() {
    let artifact = gatt_server(&decl(vec![field("a", named("A")), field("b", named("B"))])).unwrap();
    let builder = ServerBuilder::new();
    let builder = builder
        .registered::<FailureKind>(Ok(ServerService { service: service(1, 0), has_events: true }))
        .unwrap();
    assert_eq!(builder.services.len(), 1);
    let failed = builder.registered(Err("out of memory"));
    assert_eq!(failed.unwrap_err(), "out of memory");

    let builder = ServerBuilder::new();
    assert!(builder.finish(&artifact).is_none());
    assert!(artifact.services[0].registered(service(1, 0)).has_events);
    let odd = gatt_server(&decl(vec![field("odd", FieldType::Other)])).unwrap();
    assert!(!odd.services[0].registered(service(1, 0)).has_events);
    let builder = ServerBuilder::new()
        .registered::<FailureKind>(Ok(ServerService { service: service(1, 0), has_events: true }))
        .unwrap()
        .registered::<FailureKind>(Ok(ServerService { service: service(3, 0), has_events: true }))
        .unwrap();
    let server = builder.finish(&artifact).unwrap();
    assert_eq!(server.services.len(), 2);
    assert_eq!(server.on_write(3, &[9]), write(1, WriteSource::Incoming));
    assert_eq!(FailureKind::Register, FailureKind::Register);
}
