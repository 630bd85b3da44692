//! GATT services on the server side: what is generated for each
//! characteristic, and which event an inbound write stands for.

use vstd::prelude::*;
use vstd::string::*;
use crate::artifact::{
    characteristics,
    characteristics_of,
    names_unique,
    CharacteristicArtifact,
    CharacteristicModel,
};
use crate::characteristic::{
    decode_cccd,
    spec_decode_cccd,
    CccdLayout,
    Properties,
    SecurityMode,
    Subscription,
};
use crate::property_list::{parse_service, ServiceArgs};
use crate::error::{ErrorModel, FailureKind, SchemaError};
use crate::naming::with_suffix;
use crate::schema::{Fields, FieldsModel, StructDecl, StructModel};
use crate::token::{Tok, Token};
use crate::uuid::Uuid;

verus! {

/// A service, ready for generation.
#[derive(Debug)]
pub struct ServiceArtifact {
    /// The name of the declaration.
    pub name: String,
    /// The name of the service's event type.
    pub event_name: String,
    pub uuid: Uuid,
    /// The positions, in the declaration, of the fields that stay as they
    /// are. The handle fields of the characteristics come after them.
    pub retained: Vec<usize>,
    pub characteristics: Vec<CharacteristicArtifact>,
}

/// A service as a value.
pub struct ServiceModel {
    pub name: Seq<char>,
    pub event_name: Seq<char>,
    pub uuid: Seq<u8>,
    pub retained: Seq<usize>,
    pub characteristics: Seq<CharacteristicModel>,
}

impl View for ServiceArtifact {
    type V = ServiceModel;

    open spec fn view(&self) -> ServiceModel {
        ServiceModel {
            name: self.name@,
            event_name: self.event_name@,
            uuid: self.uuid@,
            retained: self.retained@,
            characteristics: self.characteristics.deep_view(),
        }
    }
}

impl ServiceModel {
    /// Whether the service is sound: no two of its characteristics share a
    /// name, and each allows an operation.
    pub open spec fn wf(self) -> bool {
        names_unique(self.characteristics) && all_accessible(self.characteristics)
    }
}

/// Whether each of the characteristics allows an operation.
pub open spec fn all_accessible(characteristics: Seq<CharacteristicModel>) -> bool {
    forall|i: int|
        0 <= i < characteristics.len() ==> (
        #[trigger] characteristics[i]).args.props.spec_accessible()
}

/// The service that a property list and a declaration stand for. The list
/// is read first; then the declaration must have named fields; then its
/// characteristics are read, each of which must allow an operation. The
/// event type is named after the declaration.
pub open spec fn service_of(args: Seq<Tok>, decl: StructModel) -> Result<ServiceModel, ErrorModel> {
    match parse_service(args) {
        Err(e) => Err(e),
        Ok(uuid) => match decl.fields {
            FieldsModel::Named(fields) => match characteristics_of(fields) {
                Err(e) => Err(e),
                Ok((found, retained)) => if all_accessible(found) {
                    Ok(
                        ServiceModel {
                            name: decl.name,
                            event_name: decl.name + "Event"@,
                            uuid,
                            retained,
                            characteristics: found,
                        },
                    )
                } else {
                    Err(ErrorModel::NoOperation)
                },
            },
            _ => Err(ErrorModel::ServiceNotNamed),
        },
    }
}

fn accessible(characteristics: &Vec<CharacteristicArtifact>) -> (r: bool)
    ensures
        r == all_accessible(characteristics.deep_view()),
{
    let mut i: usize = 0;
    while i < characteristics.len()
        invariant
            i <= characteristics.len(),
            forall|k: int|
                0 <= k < i ==> (#[trigger] characteristics.deep_view()[k]).args.props.spec_accessible(),
        decreases characteristics.len() - i,
    {
        assert(characteristics.deep_view()[i as int] == characteristics@[i as int]@);
        if !characteristics[i].args.props.accessible() {
            return false;
        }
        i = i + 1;
    }
    true
}

/// Compiles the declaration of a service: `args` is the property list of the
/// service, `decl` the struct whose fields declare its characteristics.
pub fn gatt_service(args: &[Token], decl: &StructDecl) -> (r: Result<ServiceArtifact, SchemaError>)
    ensures
        match r {
            Ok(service) => service@.wf() && service_of(args.deep_view(), decl@) == Ok::<
                ServiceModel,
                ErrorModel,
            >(service@),
            Err(e) => service_of(args.deep_view(), decl@) == Err::<ServiceModel, ErrorModel>(e@),
        },
{
    let service_args = ServiceArgs::parse(args)?;
    match &decl.fields {
        Fields::Named(fields) => {
            let (found, retained) = characteristics(fields)?;
            if !accessible(&found) {
                return Err(SchemaError::NoOperation);
            }
            Ok(
                ServiceArtifact {
                    name: decl.name.clone(),
                    event_name: with_suffix(decl.name.as_str(), "Event"),
                    uuid: service_args.uuid,
                    retained,
                    characteristics: found,
                },
            )
        },
        _ => Err(SchemaError::ServiceNotNamed),
    }
}

/// An operation that a service offers on one of its characteristics.
#[derive(Clone, Copy, Debug, PartialEq, Eq, Structural)]
pub enum ServiceOperation {
    /// Read the stored value.
    GetValue,
    /// Store a value.
    SetValue,
    /// Send a value to a peer as a notification.
    Notify,
    /// Send a value to a peer as an indication.
    Indicate,
}

/// A variant of the event type of a service.
#[derive(Clone, Copy, Debug, PartialEq, Eq, Structural)]
pub enum ServiceEventKind {
    /// A peer wrote the value.
    Write,
    /// A peer wrote the configuration descriptor.
    CccdWrite(CccdLayout),
}

/// The operations of a characteristic: get and set always, notify and
/// indicate where they are declared.
pub open spec fn service_operations(props: Properties) -> Seq<ServiceOperation> {
    seq![ServiceOperation::GetValue, ServiceOperation::SetValue] + (if props.notify {
        seq![ServiceOperation::Notify]
    } else {
        Seq::empty()
    }) + (if props.indicate {
        seq![ServiceOperation::Indicate]
    } else {
        Seq::empty()
    })
}

/// The event variants of a characteristic: one for writes of the value where
/// a peer may write it, and one for writes of the descriptor where the
/// characteristic notifies or indicates.
pub open spec fn service_events(props: Properties) -> Seq<ServiceEventKind> {
    (if props.spec_writable() {
        seq![ServiceEventKind::Write]
    } else {
        Seq::empty()
    }) + (match props.spec_cccd_layout() {
        Some(layout) => seq![ServiceEventKind::CccdWrite(layout)],
        None => Seq::empty(),
    })
}

impl ServiceOperation {
    /// What the name of the operation adds to the name of the characteristic.
    pub open spec fn spec_suffix(self) -> Seq<char> {
        match self {
            ServiceOperation::GetValue => "_get"@,
            ServiceOperation::SetValue => "_set"@,
            ServiceOperation::Notify => "_notify"@,
            ServiceOperation::Indicate => "_indicate"@,
        }
    }

    /// What the name of the operation adds to the name of the characteristic.
    pub fn suffix(self) -> (r: &'static str)
        ensures
            r@ == self.spec_suffix(),
    {
        match self {
            ServiceOperation::GetValue => "_get",
            ServiceOperation::SetValue => "_set",
            ServiceOperation::Notify => "_notify",
            ServiceOperation::Indicate => "_indicate",
        }
    }
}

impl ServiceOperation {
    /// The kind of failure that the operation reports.
    pub open spec fn spec_failure(self) -> FailureKind {
        match self {
            ServiceOperation::GetValue => FailureKind::GetValue,
            ServiceOperation::SetValue => FailureKind::SetValue,
            ServiceOperation::Notify => FailureKind::NotifyValue,
            ServiceOperation::Indicate => FailureKind::IndicateValue,
        }
    }

    /// The kind of failure that the operation reports.
    #[verifier::when_used_as_spec(spec_failure)]
    pub fn failure(self) -> (r: FailureKind)
        ensures
            r == self.spec_failure(),
    {
        match self {
            ServiceOperation::GetValue => FailureKind::GetValue,
            ServiceOperation::SetValue => FailureKind::SetValue,
            ServiceOperation::Notify => FailureKind::NotifyValue,
            ServiceOperation::Indicate => FailureKind::IndicateValue,
        }
    }
}

impl ServiceEventKind {
    /// What the name of the variant adds to the PascalCase name of the
    /// characteristic.
    pub open spec fn spec_suffix(self) -> Seq<char> {
        match self {
            ServiceEventKind::Write => "Write"@,
            ServiceEventKind::CccdWrite(_) => "CccdWrite"@,
        }
    }

    /// What the name of the variant adds to the PascalCase name.
    pub fn suffix(self) -> (r: &'static str)
        ensures
            r@ == self.spec_suffix(),
    {
        match self {
            ServiceEventKind::Write => "Write",
            ServiceEventKind::CccdWrite(_) => "CccdWrite",
        }
    }
}

impl CharacteristicArtifact {
    /// The operations that the service offers on the characteristic.
    pub fn service_operations(&self) -> (r: Vec<ServiceOperation>)
        ensures
            r@ == service_operations(self@.args.props),
    {
        let mut out: Vec<ServiceOperation> = Vec::new();
        out.push(ServiceOperation::GetValue);
        out.push(ServiceOperation::SetValue);
        if self.args.props.notify {
            out.push(ServiceOperation::Notify);
        }
        if self.args.props.indicate {
            out.push(ServiceOperation::Indicate);
        }
        out
    }

    /// The name of an operation of the service on the characteristic.
    pub fn service_operation_name(&self, operation: ServiceOperation) -> (r: String)
        ensures
            r@ == self@.name + operation.spec_suffix(),
    {
        with_suffix(self.name.as_str(), operation.suffix())
    }

    /// The variants that the characteristic adds to the event type.
    pub fn service_events(&self) -> (r: Vec<ServiceEventKind>)
        ensures
            r@ == service_events(self@.args.props),
    {
        let mut out: Vec<ServiceEventKind> = Vec::new();
        if self.args.props.writable() {
            out.push(ServiceEventKind::Write);
        }
        match self.args.props.cccd_layout() {
            Some(layout) => {
                out.push(ServiceEventKind::CccdWrite(layout));
            },
            None => {},
        }
        out
    }

    /// The name of a variant of the event type.
    pub fn service_event_name(&self, kind: ServiceEventKind) -> (r: String)
        ensures
            r@ == self@.pascal + kind.spec_suffix(),
    {
        with_suffix(self.pascal.as_str(), kind.suffix())
    }
}

/// The names of the handle fields of the first `upto` characteristics: for
/// each the handle of its value, then that of its descriptor if it has one.
pub open spec fn handle_fields(characteristics: Seq<CharacteristicModel>, upto: int) -> Seq<
    Seq<char>,
>
    decreases upto,
{
    if upto <= 0 {
        Seq::empty()
    } else {
        let c = characteristics[upto - 1];
        let before = handle_fields(characteristics, upto - 1).push(c.name + "_value_handle"@);
        if c.args.props.spec_subscribable() {
            before.push(c.name + "_cccd_handle"@)
        } else {
            before
        }
    }
}

impl ServiceArtifact {
    /// The names of the fields that generation adds to the declaration, in
    /// their order.
    pub fn handle_fields(&self) -> (r: Vec<String>)
        ensures
            r.deep_view() == handle_fields(self@.characteristics, self@.characteristics.len() as int),
    {
        let ghost models = self.characteristics.deep_view();
        let mut out: Vec<String> = Vec::new();
        let mut i: usize = 0;
        while i < self.characteristics.len()
            invariant
                i <= self.characteristics.len(),
                models == self.characteristics.deep_view(),
                out.deep_view() == handle_fields(models, i as int),
            decreases self.characteristics.len() - i,
        {
            let c = &self.characteristics[i];
            out.push(c.value_handle_field());
            if let Some(cccd) = c.cccd_handle_field() {
                out.push(cccd);
            }
            i = i + 1;
        }
        out
    }
}

/// The encoded sizes of the values of a type, in bytes.
#[derive(Clone, Copy, Debug, PartialEq, Eq, Structural)]
pub struct ValueSize {
    pub min: u16,
    pub max: u16,
}

/// Who may do what with a characteristic: its properties, and the security
/// asked for reading and for writing.
#[derive(Clone, Copy, Debug, PartialEq, Eq, Structural)]
pub struct Access {
    /// The security asked for reading, where the schema names one.
    pub read_security: Option<SecurityMode>,
    /// The security asked for writing, where the schema names one.
    pub write_security: Option<SecurityMode>,
    pub props: Properties,
}

/// How the attribute of a characteristic is registered.
#[derive(Debug)]
pub struct AttributePlan {
    /// The value that the attribute holds at first.
    pub initial_value: Vec<u8>,
    /// The greatest length of the value, where its length may vary.
    pub variable_len: Option<u16>,
    /// The security asked for reading, where the schema names one.
    pub read_security: Option<SecurityMode>,
    /// The security asked for writing, where the schema names one.
    pub write_security: Option<SecurityMode>,
    pub props: Properties,
}

/// The byte that fills the value of an attribute at registration.
pub const INITIAL_BYTE: u8 = 123;

impl CharacteristicArtifact {
    /// Who may do what with the characteristic: the declared properties, and
    /// the declared security for reading and writing alike.
    pub fn access(&self) -> (r: Access)
        ensures
            r.read_security == self@.args.security,
            r.write_security == self@.args.security,
            r.props == self@.args.props,
    {
        Access {
            read_security: self.args.security,
            write_security: self.args.security,
            props: self.args.props,
        }
    }

    /// How the characteristic is registered for values of the given sizes:
    /// the value starts at the least size, its length varies where the sizes
    /// differ, and the declared security holds for reading and writing alike.
    pub fn attribute(&self, size: ValueSize) -> (r: AttributePlan)
        ensures
            r.initial_value@ == Seq::new(size.min as nat, |i: int| INITIAL_BYTE),
            r.variable_len == (if size.max != size.min {
                Some(size.max)
            } else {
                None
            }),
            r.read_security == self@.args.security,
            r.write_security == self@.args.security,
            r.props == self@.args.props,
    {
        let mut initial: Vec<u8> = Vec::new();
        let mut i: u16 = 0;
        while i < size.min
            invariant
                i <= size.min,
                initial@ == Seq::new(i as nat, |k: int| INITIAL_BYTE),
            decreases size.min - i,
        {
            initial.push(INITIAL_BYTE);
            i = i + 1;
        }
        let access = self.access();
        AttributePlan {
            initial_value: initial,
            variable_len: if size.max != size.min {
                Some(size.max)
            } else {
                None
            },
            read_security: access.read_security,
            write_security: access.write_security,
            props: access.props,
        }
    }
}

/// A characteristic of a registered service.
#[derive(Clone, Copy, Debug, PartialEq, Eq, Structural)]
pub struct BoundCharacteristic {
    pub props: Properties,
    /// The least encoded size of a value.
    pub min_size: u16,
    /// The handle of the value.
    pub value_handle: u16,
    /// The handle of the configuration descriptor. It counts only where the
    /// characteristic notifies or indicates.
    pub cccd_handle: u16,
}

/// What registration returned for one characteristic.
#[derive(Clone, Copy, Debug, PartialEq, Eq, Structural)]
pub struct Registration {
    pub min_size: u16,
    pub value_handle: u16,
    pub cccd_handle: u16,
}

/// A registered service.
#[derive(Debug)]
pub struct RegisteredService {
    pub characteristics: Vec<BoundCharacteristic>,
}

/// Where the value of a write event comes from.
#[derive(Clone, Copy, Debug, PartialEq, Eq, Structural)]
pub enum WriteSource {
    /// The bytes that the peer wrote.
    Incoming,
    /// The value that the attribute holds: the peer wrote fewer bytes than a
    /// value has.
    Stored,
}

/// What an event of a service reports.
#[derive(Clone, Copy, Debug, PartialEq, Eq, Structural)]
pub enum EventBody {
    Write(WriteSource),
    CccdWrite(Subscription),
}

/// An event of a service: which characteristic, and what happened to it.
#[derive(Clone, Copy, Debug, PartialEq, Eq, Structural)]
pub struct ServiceEvent {
    /// The position of the characteristic in the service.
    pub characteristic: usize,
    pub body: EventBody,
}

/// The source of the value of a write event: the written bytes where they
/// are at least as many as the least encoded size, else the stored value.
pub open spec fn write_source(min_size: u16, len: nat) -> WriteSource {
    if len < min_size {
        WriteSource::Stored
    } else {
        WriteSource::Incoming
    }
}

/// What a write to `handle` means to one characteristic. A write to the
/// handle of its value is a write event where a peer may write the value. A
/// write to the handle of its descriptor that is not empty is a subscription
/// change where the characteristic notifies or indicates. Any other write
/// is not the characteristic's.
pub open spec fn claim(c: BoundCharacteristic, handle: u16, data: Seq<u8>) -> Option<EventBody> {
    if c.props.spec_writable() && handle == c.value_handle {
        Some(EventBody::Write(write_source(c.min_size, data.len())))
    } else if handle == c.cccd_handle {
        match spec_decode_cccd(c.props, data) {
            Some(state) => Some(EventBody::CccdWrite(state)),
            None => None,
        }
    } else {
        None
    }
}

/// The characteristic of the artifact at `i` with its registration.
pub open spec fn bound(c: CharacteristicModel, registration: Registration) -> BoundCharacteristic {
    BoundCharacteristic {
        props: c.args.props,
        min_size: registration.min_size,
        value_handle: registration.value_handle,
        cccd_handle: registration.cccd_handle,
    }
}

impl BoundCharacteristic {
    /// What a write to `handle` means to this characteristic.
    pub fn claim(&self, handle: u16, data: &[u8]) -> (r: Option<EventBody>)
        ensures
            r == claim(*self, handle, data@),
    {
        if self.props.writable() && handle == self.value_handle {
            if data.len() < self.min_size as usize {
                Some(EventBody::Write(WriteSource::Stored))
            } else {
                Some(EventBody::Write(WriteSource::Incoming))
            }
        } else if handle == self.cccd_handle {
            match decode_cccd(self.props, data) {
                Some(state) => Some(EventBody::CccdWrite(state)),
                None => None,
            }
        } else {
            None
        }
    }
}

impl ServiceArtifact {
    /// The service as it runs once each characteristic is registered.
    /// `registrations` holds one entry for each characteristic, in order; with
    /// any other number there is no service.
    pub fn bind(&self, registrations: &[Registration]) -> (r: Option<RegisteredService>)
        ensures
            match r {
                Some(service) => {
                    &&& registrations@.len() == self@.characteristics.len()
                    &&& service.characteristics@.len() == registrations@.len()
                    &&& forall|i: int|
                        0 <= i < registrations@.len() ==> #[trigger] service.characteristics@[i]
                            == bound(self@.characteristics[i], registrations@[i])
                },
                None => registrations@.len() != self@.characteristics.len(),
            },
    {
        if registrations.len() != self.characteristics.len() {
            return None;
        }
        let ghost models = self.characteristics.deep_view();
        let mut out: Vec<BoundCharacteristic> = Vec::new();
        let mut i: usize = 0;
        while i < registrations.len()
            invariant
                i <= registrations.len(),
                registrations.len() == self.characteristics.len(),
                models == self.characteristics.deep_view(),
                out@.len() == i,
                forall|k: int| 0 <= k < i ==> #[trigger] out@[k] == bound(models[k], registrations@[k]),
            decreases registrations.len() - i,
        {
            let c = &self.characteristics[i];
            let registration = registrations[i];
            out.push(
                BoundCharacteristic {
                    props: c.args.props,
                    min_size: registration.min_size,
                    value_handle: registration.value_handle,
                    cccd_handle: registration.cccd_handle,
                },
            );
            i = i + 1;
        }
        Some(RegisteredService { characteristics: out })
    }
}

/// Whether none of the characteristics before `upto` claims the write.
pub open spec fn unclaimed(
    characteristics: Seq<BoundCharacteristic>,
    upto: int,
    handle: u16,
    data: Seq<u8>,
) -> bool {
    forall|j: int| 0 <= j < upto ==> claim(#[trigger] characteristics[j], handle, data) is None
}

/// The event of a write: that of the first characteristic, in the order of
/// declaration, that claims it; none where no characteristic does.
pub open spec fn service_event(
    characteristics: Seq<BoundCharacteristic>,
    handle: u16,
    data: Seq<u8>,
    event: Option<ServiceEvent>,
) -> bool {
    match event {
        Some(e) => {
            &&& e.characteristic < characteristics.len()
            &&& claim(characteristics[e.characteristic as int], handle, data) == Some(e.body)
            &&& unclaimed(characteristics, e.characteristic as int, handle, data)
        },
        None => unclaimed(characteristics, characteristics.len() as int, handle, data),
    }
}

impl RegisteredService {
    /// The event that a write of `data` to `handle` stands for, if any.
    pub fn on_write(&self, handle: u16, data: &[u8]) -> (r: Option<ServiceEvent>)
        ensures
            service_event(self.characteristics@, handle, data@, r),
    {
        let mut i: usize = 0;
        while i < self.characteristics.len()
            invariant
                i <= self.characteristics.len(),
                unclaimed(self.characteristics@, i as int, handle, data@),
            decreases self.characteristics.len() - i,
        {
            match self.characteristics[i].claim(handle, data) {
                Some(body) => {
                    return Some(ServiceEvent { characteristic: i, body });
                },
                None => {},
            }
            i = i + 1;
        }
        None
    }
}

/// A write to the value of a writable characteristic that is shorter than
/// a value gives an event drawn from the stored value, never from the
/// written bytes; any other write to it gives an event drawn from the
/// written bytes.
pub proof fn lemma_write_source(c: BoundCharacteristic, handle: u16, data: Seq<u8>)
    requires
        c.props.spec_writable(),
        handle == c.value_handle,
    ensures
        data.len() < c.min_size ==> claim(c, handle, data) == Some(
            EventBody::Write(WriteSource::Stored),
        ),
        data.len() >= c.min_size ==> claim(c, handle, data) == Some(
            EventBody::Write(WriteSource::Incoming),
        ),
{
}

/// A write has one event at most: two events that both meet the rule of
/// `service_event` are the same.
pub proof fn lemma_service_event_unique(
    characteristics: Seq<BoundCharacteristic>,
    handle: u16,
    data: Seq<u8>,
    a: Option<ServiceEvent>,
    b: Option<ServiceEvent>,
)
    requires
        service_event(characteristics, handle, data, a),
        service_event(characteristics, handle, data, b),
    ensures
        a == b,
{
}

/// Whether `handle` is a handle of no characteristic but the one at `i`.
pub open spec fn names_only(characteristics: Seq<BoundCharacteristic>, i: int, handle: u16) -> bool {
    forall|j: int|
        0 <= j < characteristics.len() && j != i ==> (#[trigger] characteristics[j]).value_handle
            != handle && characteristics[j].cccd_handle != handle
}

/// A write to a handle that names one characteristic alone is claimed by no
/// characteristic before that one.
pub proof fn lemma_named_unclaimed(
    characteristics: Seq<BoundCharacteristic>,
    i: int,
    handle: u16,
    data: Seq<u8>,
)
    requires
        0 <= i < characteristics.len(),
        names_only(characteristics, i, handle),
    ensures
        unclaimed(characteristics, i, handle, data),
{
}

/// A write that is not empty, to the descriptor of a characteristic that
/// notifies or indicates, gives the subscription state in its first byte
/// as the event of that characteristic, where no characteristic before it
/// claims the write and the handle is not also that of its writable value.
pub proof fn lemma_cccd_write_event(
    characteristics: Seq<BoundCharacteristic>,
    i: int,
    handle: u16,
    data: Seq<u8>,
    event: Option<ServiceEvent>,
)
    requires
        0 <= i < characteristics.len() <= usize::MAX,
        unclaimed(characteristics, i, handle, data),
        handle == characteristics[i].cccd_handle,
        handle != characteristics[i].value_handle || !characteristics[i].props.spec_writable(),
        characteristics[i].props.spec_cccd_layout() is Some,
        data.len() >= 1,
        service_event(characteristics, handle, data, event),
    ensures
        event == Some(
            ServiceEvent {
                characteristic: i as usize,
                body: EventBody::CccdWrite(
                    characteristics[i].props.spec_cccd_layout().unwrap().spec_decode(data[0]),
                ),
            },
        ),
{
    let expected = Some(
        ServiceEvent {
            characteristic: i as usize,
            body: EventBody::CccdWrite(
                characteristics[i].props.spec_cccd_layout().unwrap().spec_decode(data[0]),
            ),
        },
    );
    assert(service_event(characteristics, handle, data, expected));
    lemma_service_event_unique(characteristics, handle, data, event, expected);
}

/// A write to the value of a writable characteristic gives a write event of
/// that characteristic, where no characteristic before it claims the write:
/// drawn from the stored value where fewer bytes are written than a value
/// has, whatever those bytes are, and from the written bytes else.
pub proof fn lemma_value_write_event(
    characteristics: Seq<BoundCharacteristic>,
    i: int,
    handle: u16,
    data: Seq<u8>,
    event: Option<ServiceEvent>,
)
    requires
        0 <= i < characteristics.len() <= usize::MAX,
        unclaimed(characteristics, i, handle, data),
        handle == characteristics[i].value_handle,
        characteristics[i].props.spec_writable(),
        service_event(characteristics, handle, data, event),
    ensures
        event == Some(
            ServiceEvent {
                characteristic: i as usize,
                body: EventBody::Write(write_source(characteristics[i].min_size, data.len())),
            },
        ),
        data.len() < characteristics[i].min_size ==> event == Some(
            ServiceEvent { characteristic: i as usize, body: EventBody::Write(WriteSource::Stored) },
        ),
        data.len() >= characteristics[i].min_size ==> event == Some(
            ServiceEvent {
                characteristic: i as usize,
                body: EventBody::Write(WriteSource::Incoming),
            },
        ),
{
    let expected = Some(
        ServiceEvent {
            characteristic: i as usize,
            body: EventBody::Write(write_source(characteristics[i].min_size, data.len())),
        },
    );
    assert(service_event(characteristics, handle, data, expected));
    lemma_service_event_unique(characteristics, handle, data, event, expected);
}

} // verus!
