//! GATT servers: several services under one root, with one event type.

use vstd::prelude::*;
use vstd::string::*;
use crate::error::{ErrorModel, SchemaError};
use crate::naming::{pascal_case, to_pascal_case, with_suffix};
use crate::schema::{FieldDecl, FieldModel, FieldType, FieldTypeModel, Fields, FieldsModel, StructDecl, StructModel};
use crate::service::{lemma_service_event_unique, service_event, RegisteredService, ServiceEvent};

verus! {

/// The variant that a service adds to the event type of its server.
#[derive(Debug)]
pub struct ServerVariant {
    /// The name of the variant: the name of the field in PascalCase.
    pub name: String,
    /// The name of the type it wraps: the event type of the service.
    pub payload: String,
}

/// A server variant as a value.
pub struct ServerVariantModel {
    pub name: Seq<char>,
    pub payload: Seq<char>,
}

/// One service of a server.
#[derive(Debug)]
pub struct ServerField {
    pub name: String,
    pub ty: FieldType,
    /// The variant of the service in the event type. A service whose type is
    /// no name has none, and is never asked about a write.
    pub variant: Option<ServerVariant>,
}

/// A service of a server as a value.
pub struct ServerFieldModel {
    pub name: Seq<char>,
    pub ty: FieldTypeModel,
    pub variant: Option<ServerVariantModel>,
}

impl View for ServerField {
    type V = ServerFieldModel;

    open spec fn view(&self) -> ServerFieldModel {
        ServerFieldModel {
            name: self.name@,
            ty: self.ty@,
            variant: match self.variant {
                Some(v) => Some(ServerVariantModel { name: v.name@, payload: v.payload@ }),
                None => None,
            },
        }
    }
}

impl DeepView for ServerField {
    type V = ServerFieldModel;

    open spec fn deep_view(&self) -> ServerFieldModel {
        self@
    }
}

/// A server, ready for generation.
#[derive(Debug)]
pub struct ServerArtifact {
    /// The name of the declaration.
    pub name: String,
    /// The name of the server's event type.
    pub event_name: String,
    /// The services, in the order in which they are registered and asked.
    pub services: Vec<ServerField>,
}

/// A server as a value.
pub struct ServerModel {
    pub name: Seq<char>,
    pub event_name: Seq<char>,
    pub services: Seq<ServerFieldModel>,
}

impl View for ServerArtifact {
    type V = ServerModel;

    open spec fn view(&self) -> ServerModel {
        ServerModel {
            name: self.name@,
            event_name: self.event_name@,
            services: self.services.deep_view(),
        }
    }
}

/// The service that a field of a server stands for. Its variant is named
/// after the field and wraps the event type of the field's type.
pub open spec fn server_field(field: FieldModel) -> ServerFieldModel {
    ServerFieldModel {
        name: field.name,
        ty: field.ty,
        variant: match field.ty {
            FieldTypeModel::Named(ty) => Some(
                ServerVariantModel { name: pascal_case(field.name), payload: ty + "Event"@ },
            ),
            _ => None,
        },
    }
}

/// Whether one of the fields has a path with several parts as its type.
pub open spec fn has_path_type(fields: Seq<FieldModel>) -> bool {
    exists|i: int| 0 <= i < fields.len() && (#[trigger] fields[i]).ty is Path
}

/// The server that a declaration stands for: one service for each field, in
/// order. The declaration must have named fields, none of them with a
/// longer path as its type.
pub open spec fn server_of(decl: StructModel) -> Result<ServerModel, ErrorModel> {
    match decl.fields {
        FieldsModel::Named(fields) => if has_path_type(fields) {
            Err(ErrorModel::UnsupportedServiceType)
        } else {
            Ok(
                ServerModel {
                    name: decl.name,
                    event_name: decl.name + "Event"@,
                    services: Seq::new(fields.len(), |i: int| server_field(fields[i])),
                },
            )
        },
        _ => Err(ErrorModel::ServerNotNamed),
    }
}

fn field_of(field: &FieldDecl) -> (r: Option<ServerField>)
    ensures
        match r {
            Some(f) => !(field@.ty is Path) && f@ == server_field(field@),
            None => field@.ty is Path,
        },
{
    let variant = match &field.ty {
        FieldType::Named(ty) => Some(
            ServerVariant {
                name: to_pascal_case(field.name.as_str()),
                payload: with_suffix(ty.as_str(), "Event"),
            },
        ),
        FieldType::Path => {
            return None;
        },
        FieldType::Other => None,
    };
    Some(ServerField { name: field.name.clone(), ty: field.ty.duplicate(), variant })
}

/// Compiles the declaration of a server.
pub fn gatt_server(decl: &StructDecl) -> (r: Result<ServerArtifact, SchemaError>)
    ensures
        match r {
            Ok(server) => server_of(decl@) == Ok::<ServerModel, ErrorModel>(server@),
            Err(e) => server_of(decl@) == Err::<ServerModel, ErrorModel>(e@),
        },
{
    match &decl.fields {
        Fields::Named(fields) => {
            let ghost models = fields.deep_view();
            let mut services: Vec<ServerField> = Vec::new();
            let mut i: usize = 0;
            while i < fields.len()
                invariant
                    i <= fields.len(),
                    models == fields.deep_view(),
                    decl@.fields == FieldsModel::Named(models),
                    services.deep_view().len() == i,
                    forall|k: int| 0 <= k < i ==> !((#[trigger] models[k]).ty is Path),
                    forall|k: int|
                        0 <= k < i ==> #[trigger] services.deep_view()[k] == server_field(
                            models[k],
                        ),
                decreases fields.len() - i,
            {
                let ghost before = services.deep_view();
                assert(models[i as int] == fields[i as int]@);
                match field_of(&fields[i]) {
                    Some(service) => {
                        services.push(service);
                        assert(services.deep_view() =~= before.push(service@));
                    },
                    None => {
                        return Err(SchemaError::UnsupportedServiceType);
                    },
                }
                i = i + 1;
            }
            assert(services.deep_view() =~= Seq::new(
                models.len(),
                |i: int| server_field(models[i]),
            ));
            Ok(
                ServerArtifact {
                    name: decl.name.clone(),
                    event_name: with_suffix(decl.name.as_str(), "Event"),
                    services,
                },
            )
        },
        _ => Err(SchemaError::ServerNotNamed),
    }
}

/// One registered service of a server.
#[derive(Debug)]
pub struct ServerService {
    pub service: RegisteredService,
    /// Whether the service has a variant in the event type of the server. A
    /// service without one is never asked about a write.
    pub has_events: bool,
}

/// A registered server.
#[derive(Debug)]
pub struct Server {
    pub services: Vec<ServerService>,
}

/// An event of a server: which service, and the event of that service.
#[derive(Clone, Copy, Debug, PartialEq, Eq, Structural)]
pub struct ServerEvent {
    /// The position of the service in the server.
    pub service: usize,
    pub event: ServiceEvent,
}

/// A server under construction: the services registered so far.
#[derive(Debug)]
pub struct ServerBuilder {
    pub services: Vec<ServerService>,
}

impl ServerField {
    /// The service of this field once it is registered. It is asked about
    /// writes exactly where the field has a variant in the event type.
    pub fn registered(&self, service: RegisteredService) -> (r: ServerService)
        ensures
            r.service == service,
            r.has_events == (self@.variant is Some),
    {
        ServerService { service, has_events: self.variant.is_some() }
    }
}

impl ServerBuilder {
    /// A builder with no service yet.
    pub fn new() -> (r: ServerBuilder)
        ensures
            r.services@ == Seq::<ServerService>::empty(),
    {
        ServerBuilder { services: Vec::new() }
    }

    /// Takes in the outcome of registering the next service. A failure ends
    /// the construction: it comes back as it is, and nothing of the server is
    /// left.
    pub fn registered<E>(self, outcome: Result<ServerService, E>) -> (r: Result<ServerBuilder, E>)
        ensures
            match outcome {
                Ok(service) => r matches Ok(next) && next.services@ == self.services@.push(service),
                Err(e) => r matches Err(f) && f == e,
            },
    {
        match outcome {
            Ok(service) => {
                let mut services = self.services;
                services.push(service);
                Ok(ServerBuilder { services })
            },
            Err(e) => Err(e),
        }
    }

    /// The server, once each service of the artifact is registered; none
    /// while some are missing.
    pub fn finish(self, artifact: &ServerArtifact) -> (r: Option<Server>)
        ensures
            match r {
                Some(server) => self.services@.len() == artifact@.services.len()
                    && server.services@ == self.services@,
                None => self.services@.len() != artifact@.services.len(),
            },
    {
        if self.services.len() == artifact.services.len() {
            Some(Server { services: self.services })
        } else {
            None
        }
    }
}

/// Whether a service has nothing to say to a write: it has no variant in the
/// event type, or none of its characteristics claims the write.
pub open spec fn silent(service: ServerService, handle: u16, data: Seq<u8>) -> bool {
    !service.has_events || service_event(service.service.characteristics@, handle, data, None)
}

/// Whether the services from `first` up to `upto` are all silent.
pub open spec fn all_silent(
    services: Seq<ServerService>,
    first: int,
    upto: int,
    handle: u16,
    data: Seq<u8>,
) -> bool {
    forall|j: int| first <= j < upto ==> silent(#[trigger] services[j], handle, data)
}

/// The event of a write among the services from `first` on: that of the
/// first service, in the order of declaration, that has one; none where all
/// are silent.
pub open spec fn server_event(
    services: Seq<ServerService>,
    first: int,
    handle: u16,
    data: Seq<u8>,
    event: Option<ServerEvent>,
) -> bool {
    match event {
        Some(e) => {
            &&& first <= e.service < services.len()
            &&& services[e.service as int].has_events
            &&& service_event(
                services[e.service as int].service.characteristics@,
                handle,
                data,
                Some(e.event),
            )
            &&& all_silent(services, first, e.service as int, handle, data)
        },
        None => all_silent(services, first, services.len() as int, handle, data),
    }
}

impl Server {
    /// The event that a write of `data` to `handle` stands for, if any.
    pub fn on_write(&self, handle: u16, data: &[u8]) -> (r: Option<ServerEvent>)
        ensures
            server_event(self.services@, 0, handle, data@, r),
    {
        self.on_write_from(0, handle, data)
    }

    /// The event of a write among the services from `first` on. Where the
    /// stored value that an event asks for cannot be read, the service has no
    /// event after all, and the write goes to the services after it.
    pub fn on_write_from(&self, first: usize, handle: u16, data: &[u8]) -> (r: Option<ServerEvent>)
        ensures
            server_event(self.services@, first as int, handle, data@, r),
    {
        let mut i: usize = first;
        while i < self.services.len()
            invariant
                first <= i,
                all_silent(self.services@, first as int, i as int, handle, data@),
            decreases self.services.len() - i,
        {
            if self.services[i].has_events {
                match self.services[i].service.on_write(handle, data) {
                    Some(event) => {
                        return Some(ServerEvent { service: i, event });
                    },
                    None => {},
                }
            }
            i = i + 1;
        }
        None
    }
}

/// A write has one event at most among the services from `first` on: two
/// events that both meet the rule of `server_event` are the same.
pub proof fn lemma_server_event_unique(
    services: Seq<ServerService>,
    first: int,
    handle: u16,
    data: Seq<u8>,
    a: Option<ServerEvent>,
    b: Option<ServerEvent>,
)
    requires
        server_event(services, first, handle, data, a),
        server_event(services, first, handle, data, b),
    ensures
        a == b,
{
    match (a, b) {
        (Some(x), Some(y)) => {
            let sx = services[x.service as int];
            let sy = services[y.service as int];
            if x.service < y.service {
                lemma_service_event_unique(
                    sx.service.characteristics@,
                    handle,
                    data,
                    Some(x.event),
                    None,
                );
            } else if y.service < x.service {
                lemma_service_event_unique(
                    sy.service.characteristics@,
                    handle,
                    data,
                    Some(y.event),
                    None,
                );
            } else {
                lemma_service_event_unique(
                    sx.service.characteristics@,
                    handle,
                    data,
                    Some(x.event),
                    Some(y.event),
                );
            }
        },
        (Some(x), None) => {
            let sx = services[x.service as int];
            lemma_service_event_unique(
                sx.service.characteristics@,
                handle,
                data,
                Some(x.event),
                None,
            );
        },
        (None, Some(y)) => {
            let sy = services[y.service as int];
            lemma_service_event_unique(
                sy.service.characteristics@,
                handle,
                data,
                Some(y.event),
                None,
            );
        },
        (None, None) => {},
    }
}

} // verus!
