//! GATT clients: what is generated for each characteristic, and how the
//! handles of a peer's characteristics are found.

use vstd::prelude::*;
use vstd::string::*;
use crate::artifact::{
    characteristics,
    characteristics_of,
    names_unique,
    CharacteristicArtifact,
    CharacteristicModel,
};
use crate::characteristic::Properties;
use crate::property_list::{parse_service, ServiceArgs};
use crate::error::{ErrorModel, FailureKind, SchemaError};
use crate::naming::with_suffix;
use crate::schema::{Fields, FieldsModel, StructDecl, StructModel};
use crate::token::{Tok, Token};
use crate::uuid::{le_bytes16, Uuid};

verus! {

/// A client, ready for generation.
#[derive(Debug)]
pub struct ClientArtifact {
    /// The name of the declaration.
    pub name: String,
    /// The name of the client's event type.
    pub event_name: String,
    /// The UUID of the service that the client looks for.
    pub uuid: Uuid,
    /// The positions, in the declaration, of the fields that stay as they
    /// are. The generated fields come after them.
    pub retained: Vec<usize>,
    pub characteristics: Vec<CharacteristicArtifact>,
}

/// A client as a value.
pub struct ClientModel {
    pub name: Seq<char>,
    pub event_name: Seq<char>,
    pub uuid: Seq<u8>,
    pub retained: Seq<usize>,
    pub characteristics: Seq<CharacteristicModel>,
}

impl View for ClientArtifact {
    type V = ClientModel;

    open spec fn view(&self) -> ClientModel {
        ClientModel {
            name: self.name@,
            event_name: self.event_name@,
            uuid: self.uuid@,
            retained: self.retained@,
            characteristics: self.characteristics.deep_view(),
        }
    }
}

impl ClientModel {
    /// Whether the client is sound: no two of its characteristics share a
    /// name.
    pub open spec fn wf(self) -> bool {
        names_unique(self.characteristics)
    }
}

/// The client that a property list and a declaration stand for. The list is
/// read first; then the declaration must have named fields; then its
/// characteristics are read. The event type is named after the declaration.
pub open spec fn client_of(args: Seq<Tok>, decl: StructModel) -> Result<ClientModel, ErrorModel> {
    match parse_service(args) {
        Err(e) => Err(e),
        Ok(uuid) => match decl.fields {
            FieldsModel::Named(fields) => match characteristics_of(fields) {
                Err(e) => Err(e),
                Ok((found, retained)) => Ok(
                    ClientModel {
                        name: decl.name,
                        event_name: decl.name + "Event"@,
                        uuid,
                        retained,
                        characteristics: found,
                    },
                ),
            },
            _ => Err(ErrorModel::ClientNotNamed),
        },
    }
}

/// Compiles the declaration of a client: `args` is the property list that
/// names the service, `decl` the struct whose fields declare the
/// characteristics that the client uses.
pub fn gatt_client(args: &[Token], decl: &StructDecl) -> (r: Result<ClientArtifact, SchemaError>)
    ensures
        match r {
            Ok(client) => client@.wf() && client_of(args.deep_view(), decl@) == Ok::<
                ClientModel,
                ErrorModel,
            >(client@),
            Err(e) => client_of(args.deep_view(), decl@) == Err::<ClientModel, ErrorModel>(e@),
        },
{
    let service_args = ServiceArgs::parse(args)?;
    match &decl.fields {
        Fields::Named(fields) => {
            let (found, retained) = characteristics(fields)?;
            Ok(
                ClientArtifact {
                    name: decl.name.clone(),
                    event_name: with_suffix(decl.name.as_str(), "Event"),
                    uuid: service_args.uuid,
                    retained,
                    characteristics: found,
                },
            )
        },
        _ => Err(SchemaError::ClientNotNamed),
    }
}

/// An operation that a client offers on one of its characteristics.
#[derive(Clone, Copy, Debug, PartialEq, Eq, Structural)]
pub enum ClientOperation {
    /// Read the value from the peer.
    Read,
    /// Write the value and wait for the peer to confirm.
    Write,
    /// Write the value without confirmation, waiting until it is queued.
    WriteWithoutResponse,
    /// Write the value without confirmation, or fail at once.
    TryWriteWithoutResponse,
}

impl ClientOperation {
    /// Whether a characteristic with the given properties offers the
    /// operation: reading where `read` is declared, the confirmed write
    /// where `write` is, and both writes without confirmation where
    /// `write_without_response` is.
    pub open spec fn spec_declared(self, props: Properties) -> bool {
        match self {
            ClientOperation::Read => props.read,
            ClientOperation::Write => props.write,
            ClientOperation::WriteWithoutResponse => props.write_without_response,
            ClientOperation::TryWriteWithoutResponse => props.write_without_response,
        }
    }

    /// Whether a characteristic with the given properties offers the operation.
    #[verifier::when_used_as_spec(spec_declared)]
    pub fn declared(self, props: Properties) -> (r: bool)
        ensures
            r == self.spec_declared(props),
    {
        match self {
            ClientOperation::Read => props.read,
            ClientOperation::Write => props.write,
            ClientOperation::WriteWithoutResponse => props.write_without_response,
            ClientOperation::TryWriteWithoutResponse => props.write_without_response,
        }
    }

    /// What the name of the operation adds to the name of the characteristic.
    pub open spec fn spec_suffix(self) -> Seq<char> {
        match self {
            ClientOperation::Read => "_read"@,
            ClientOperation::Write => "_write"@,
            ClientOperation::WriteWithoutResponse => "_write_without_response"@,
            ClientOperation::TryWriteWithoutResponse => "_try_write_without_response"@,
        }
    }

    /// What the name of the operation adds to the name of the characteristic.
    pub fn suffix(self) -> (r: &'static str)
        ensures
            r@ == self.spec_suffix(),
    {
        match self {
            ClientOperation::Read => "_read",
            ClientOperation::Write => "_write",
            ClientOperation::WriteWithoutResponse => "_write_without_response",
            ClientOperation::TryWriteWithoutResponse => "_try_write_without_response",
        }
    }
}

impl ClientOperation {
    /// The kind of failure that the operation reports.
    pub open spec fn spec_failure(self) -> FailureKind {
        match self {
            ClientOperation::Read => FailureKind::Read,
            ClientOperation::Write => FailureKind::Write,
            ClientOperation::WriteWithoutResponse => FailureKind::Write,
            ClientOperation::TryWriteWithoutResponse => FailureKind::TryWrite,
        }
    }

    /// The kind of failure that the operation reports.
    #[verifier::when_used_as_spec(spec_failure)]
    pub fn failure(self) -> (r: FailureKind)
        ensures
            r == self.spec_failure(),
    {
        match self {
            ClientOperation::Read => FailureKind::Read,
            ClientOperation::Write => FailureKind::Write,
            ClientOperation::WriteWithoutResponse => FailureKind::Write,
            ClientOperation::TryWriteWithoutResponse => FailureKind::TryWrite,
        }
    }
}

/// The operations of a characteristic on the client side, each where its
/// own capability is declared: the read, the confirmed write, and the two
/// writes without confirmation.
pub open spec fn client_operations(props: Properties) -> Seq<ClientOperation> {
    (if props.read {
        seq![ClientOperation::Read]
    } else {
        Seq::empty()
    }) + (if props.write {
        seq![ClientOperation::Write]
    } else {
        Seq::empty()
    }) + (if props.write_without_response {
        seq![ClientOperation::WriteWithoutResponse, ClientOperation::TryWriteWithoutResponse]
    } else {
        Seq::empty()
    })
}

/// An operation is among the operations of a characteristic exactly where
/// its capability is declared.
pub proof fn lemma_offered_where_declared(props: Properties, operation: ClientOperation)
    ensures
        client_operations(props).contains(operation) <==> operation.spec_declared(props),
{
    let first: Seq<ClientOperation> = if props.read {
        seq![ClientOperation::Read]
    } else {
        Seq::empty()
    };
    let second: Seq<ClientOperation> = if props.write {
        seq![ClientOperation::Write]
    } else {
        Seq::empty()
    };
    let third: Seq<ClientOperation> = if props.write_without_response {
        seq![ClientOperation::WriteWithoutResponse, ClientOperation::TryWriteWithoutResponse]
    } else {
        Seq::empty()
    };
    let all = first + second + third;
    assert(all == client_operations(props));
    if operation.spec_declared(props) {
        match operation {
            ClientOperation::Read => {
                assert(all[0] == operation);
            },
            ClientOperation::Write => {
                assert(all[first.len() as int] == operation);
            },
            ClientOperation::WriteWithoutResponse => {
                assert(all[(first.len() + second.len()) as int] == operation);
            },
            ClientOperation::TryWriteWithoutResponse => {
                assert(all[(first.len() + second.len() + 1) as int] == operation);
            },
        }
    }
    if all.contains(operation) {
        let i = choose|i: int| 0 <= i < all.len() && all[i] == operation;
        if i < first.len() {
            assert(first[i] == operation);
        } else if i < first.len() + second.len() {
            assert(second[i - first.len()] == operation);
        } else {
            assert(third[i - first.len() - second.len()] == operation);
        }
    }
}

impl CharacteristicArtifact {
    /// The name of the field that holds the UUID of the characteristic.
    pub fn uuid_field(&self) -> (r: String)
        ensures
            r@ == self@.name + "_uuid"@,
    {
        with_suffix(self.name.as_str(), "_uuid")
    }

    /// The operations that the client offers on the characteristic.
    pub fn client_operations(&self) -> (r: Vec<ClientOperation>)
        ensures
            r@ == client_operations(self@.args.props),
    {
        let mut out: Vec<ClientOperation> = Vec::new();
        if self.args.props.read {
            out.push(ClientOperation::Read);
        }
        if self.args.props.write {
            out.push(ClientOperation::Write);
        }
        if self.args.props.write_without_response {
            out.push(ClientOperation::WriteWithoutResponse);
            out.push(ClientOperation::TryWriteWithoutResponse);
        }
        assert(out@ =~= client_operations(self@.args.props));
        out
    }

    /// The name of an operation of the client on the characteristic.
    pub fn client_operation_name(&self, operation: ClientOperation) -> (r: String)
        ensures
            r@ == self@.name + operation.spec_suffix(),
    {
        with_suffix(self.name.as_str(), operation.suffix())
    }

    /// The name of the variant that the characteristic adds to the event
    /// type of the client. Only a characteristic that notifies has one.
    pub fn notification_variant(&self) -> (r: Option<String>)
        ensures
            match r {
                Some(name) => self@.args.props.notify && name@ == self@.pascal + "Notification"@,
                None => !self@.args.props.notify,
            },
    {
        if self.args.props.notify {
            Some(with_suffix(self.pascal.as_str(), "Notification"))
        } else {
            None
        }
    }
}

/// The names of the fields that generation adds for the first `upto`
/// characteristics, after the field of the connection: for each the handle
/// of its value, its UUID, and the handle of its descriptor if it has one.
pub open spec fn client_fields(characteristics: Seq<CharacteristicModel>, upto: int) -> Seq<
    Seq<char>,
>
    decreases upto,
{
    if upto <= 0 {
        seq!["conn"@]
    } else {
        let c = characteristics[upto - 1];
        let before = client_fields(characteristics, upto - 1).push(
            c.name + "_value_handle"@,
        ).push(c.name + "_uuid"@);
        if c.args.props.spec_subscribable() {
            before.push(c.name + "_cccd_handle"@)
        } else {
            before
        }
    }
}

impl ClientArtifact {
    /// The names of the fields that generation adds to the declaration, in
    /// their order.
    pub fn generated_fields(&self) -> (r: Vec<String>)
        ensures
            r.deep_view() == client_fields(self@.characteristics, self@.characteristics.len() as int),
    {
        let ghost models = self.characteristics.deep_view();
        let mut out: Vec<String> = Vec::new();
        let conn = String::from_str("conn");
        out.push(conn);
        let mut i: usize = 0;
        while i < self.characteristics.len()
            invariant
                i <= self.characteristics.len(),
                models == self.characteristics.deep_view(),
                out.deep_view() == client_fields(models, i as int),
            decreases self.characteristics.len() - i,
        {
            let c = &self.characteristics[i];
            let ghost before = out.deep_view();
            let value = c.value_handle_field();
            out.push(value);
            let uuid = c.uuid_field();
            out.push(uuid);
            assert(out.deep_view() =~= before.push(c@.name + "_value_handle"@).push(
                c@.name + "_uuid"@,
            ));
            if let Some(cccd) = c.cccd_handle_field() {
                out.push(cccd);
            }
            i = i + 1;
        }
        out
    }
}

/// The number of the client characteristic configuration descriptor among
/// the 16-bit UUIDs.
pub const CCCD_UUID16: u16 = 0x2902;

/// The UUID of the client characteristic configuration descriptor, by its
/// bytes.
pub open spec fn cccd_uuid() -> Seq<u8> {
    le_bytes16(CCCD_UUID16)
}

/// How far the discovery of a client has come.
#[derive(Clone, Copy, Debug, PartialEq, Eq, Structural)]
pub enum DiscoveryState {
    /// No characteristic of the peer was seen yet.
    Undiscovered,
    /// Characteristics of the peer are coming in.
    Discovering,
    /// Every handle that the client needs is known. No other state follows.
    Complete,
}

/// Why a client cannot go on.
#[derive(Clone, Copy, Debug, PartialEq, Eq, Structural)]
pub enum ClientError {
    /// Discovery ended with a needed handle still unknown.
    ServiceIncomplete,
    /// The operation was asked for before discovery was complete.
    NotDiscovered,
    /// The schema does not declare the operation for the characteristic.
    NotDeclared,
    /// The client has no characteristic at that position.
    NoSuchCharacteristic,
}

/// A characteristic as a client holds it. A handle of zero is not known yet.
#[derive(Clone, Copy, Debug)]
pub struct ClientCharacteristic {
    pub uuid: Uuid,
    pub props: Properties,
    pub value_handle: u16,
    pub cccd_handle: u16,
}

/// A characteristic of a client as a value.
pub struct ClientCharacteristicModel {
    pub uuid: Seq<u8>,
    pub props: Properties,
    pub value_handle: u16,
    pub cccd_handle: u16,
}

impl View for ClientCharacteristic {
    type V = ClientCharacteristicModel;

    open spec fn view(&self) -> ClientCharacteristicModel {
        ClientCharacteristicModel {
            uuid: self.uuid@,
            props: self.props,
            value_handle: self.value_handle,
            cccd_handle: self.cccd_handle,
        }
    }
}

impl DeepView for ClientCharacteristic {
    type V = ClientCharacteristicModel;

    open spec fn deep_view(&self) -> ClientCharacteristicModel {
        self@
    }
}

/// A characteristic that discovery found on the peer.
#[derive(Clone, Copy, Debug)]
pub struct DiscoveredCharacteristic {
    /// Its UUID, where the peer's answer held one that could be read.
    pub uuid: Option<Uuid>,
    /// The handle of its value.
    pub handle_value: u16,
}

/// A descriptor that discovery found under a characteristic.
#[derive(Clone, Copy, Debug)]
pub struct Descriptor {
    /// Its UUID, where the peer's answer held one that could be read.
    pub uuid: Option<Uuid>,
    pub handle: u16,
}

/// A descriptor as a value.
pub struct DescriptorModel {
    pub uuid: Option<Seq<u8>>,
    pub handle: u16,
}

impl View for Descriptor {
    type V = DescriptorModel;

    open spec fn view(&self) -> DescriptorModel {
        DescriptorModel {
            uuid: match self.uuid {
                Some(u) => Some(u@),
                None => None,
            },
            handle: self.handle,
        }
    }
}

impl DeepView for Descriptor {
    type V = DescriptorModel;

    open spec fn deep_view(&self) -> DescriptorModel {
        self@
    }
}

/// A client with the state of its discovery.
#[derive(Debug)]
pub struct Client {
    pub state: DiscoveryState,
    pub characteristics: Vec<ClientCharacteristic>,
}

/// A client as a value.
pub struct ClientState {
    pub state: DiscoveryState,
    pub characteristics: Seq<ClientCharacteristicModel>,
}

impl View for Client {
    type V = ClientState;

    open spec fn view(&self) -> ClientState {
        ClientState { state: self.state, characteristics: self.characteristics.deep_view() }
    }
}

impl ClientState {
    /// Whether the state is sound: a client that is complete has every
    /// handle that it needs.
    pub open spec fn wf(self) -> bool {
        self.state == DiscoveryState::Complete ==> discovered(self.characteristics)
    }
}

/// A characteristic of the schema before discovery: its UUID and properties
/// as declared, its handles unknown.
pub open spec fn undiscovered(c: CharacteristicModel) -> ClientCharacteristicModel {
    ClientCharacteristicModel {
        uuid: c.args.uuid,
        props: c.args.props,
        value_handle: 0,
        cccd_handle: 0,
    }
}

/// The handle of the configuration descriptor among the first `upto`
/// descriptors: that of the last descriptor with the UUID of the
/// configuration descriptor, or `known` where there is none.
pub open spec fn cccd_among(descriptors: Seq<DescriptorModel>, upto: int, known: u16) -> u16
    decreases upto,
{
    if upto <= 0 {
        known
    } else if descriptors[upto - 1].uuid == Some(cccd_uuid()) {
        descriptors[upto - 1].handle
    } else {
        cccd_among(descriptors, upto - 1, known)
    }
}

/// A characteristic of the client after one characteristic of the peer was
/// seen. Where the UUIDs agree, the handle of the value is taken, and that
/// of the configuration descriptor where the characteristic notifies or
/// indicates. Any other characteristic stays as it is.
pub open spec fn after_discovery(
    c: ClientCharacteristicModel,
    uuid: Option<Seq<u8>>,
    handle_value: u16,
    descriptors: Seq<DescriptorModel>,
) -> ClientCharacteristicModel {
    if uuid == Some(c.uuid) {
        ClientCharacteristicModel {
            value_handle: handle_value,
            cccd_handle: if c.props.spec_subscribable() {
                cccd_among(descriptors, descriptors.len() as int, c.cccd_handle)
            } else {
                c.cccd_handle
            },
            ..c
        }
    } else {
        c
    }
}

/// Whether each characteristic that declares one of read, write, notify and
/// indicate has the handle of its value. A characteristic that declares none
/// of them needs no handle.
pub open spec fn discovered(characteristics: Seq<ClientCharacteristicModel>) -> bool {
    forall|i: int|
        0 <= i < characteristics.len() && (
        #[trigger] characteristics[i]).props.spec_required_by_client()
            ==> characteristics[i].value_handle != 0
}

fn cccd_handle_among(descriptors: &[Descriptor], known: u16) -> (r: u16)
    ensures
        r == cccd_among(descriptors.deep_view(), descriptors.len() as int, known),
{
    let cccd = Uuid::Uuid16(CCCD_UUID16);
    let mut handle: u16 = known;
    let mut i: usize = 0;
    while i < descriptors.len()
        invariant
            i <= descriptors.len(),
            cccd@ == cccd_uuid(),
            handle == cccd_among(descriptors.deep_view(), i as int, known),
        decreases descriptors.len() - i,
    {
        match &descriptors[i].uuid {
            Some(uuid) => {
                if uuid.same(&cccd) {
                    handle = descriptors[i].handle;
                }
            },
            None => {},
        }
        i = i + 1;
    }
    handle
}

impl Client {
    /// A client for the characteristics of an artifact, before discovery.
    pub fn new_undiscovered(artifact: &ClientArtifact) -> (r: Client)
        ensures
            r@.wf(),
            r@.state == DiscoveryState::Undiscovered,
            r@.characteristics.len() == artifact@.characteristics.len(),
            forall|i: int|
                0 <= i < artifact@.characteristics.len() ==> #[trigger] r@.characteristics[i]
                    == undiscovered(artifact@.characteristics[i]),
    {
        let ghost models = artifact.characteristics.deep_view();
        let mut out: Vec<ClientCharacteristic> = Vec::new();
        let mut i: usize = 0;
        while i < artifact.characteristics.len()
            invariant
                i <= artifact.characteristics.len(),
                models == artifact.characteristics.deep_view(),
                out.deep_view().len() == i,
                forall|k: int|
                    0 <= k < i ==> #[trigger] out.deep_view()[k] == undiscovered(models[k]),
            decreases artifact.characteristics.len() - i,
        {
            let c = &artifact.characteristics[i];
            let ghost before = out.deep_view();
            let fresh = ClientCharacteristic {
                uuid: c.args.uuid,
                props: c.args.props,
                value_handle: 0,
                cccd_handle: 0,
            };
            out.push(fresh);
            assert(out.deep_view() =~= before.push(fresh@));
            i = i + 1;
        }
        Client { state: DiscoveryState::Undiscovered, characteristics: out }
    }

    /// Takes in one characteristic that discovery found on the peer, with its
    /// descriptors. A client that is complete stays as it is: its discovery
    /// is over.
    pub fn discovered_characteristic(
        &mut self,
        characteristic: &DiscoveredCharacteristic,
        descriptors: &[Descriptor],
    )
        ensures
            old(self)@.wf() ==> final(self)@.wf(),
            final(self)@.characteristics.len() == old(self)@.characteristics.len(),
            old(self)@.state == DiscoveryState::Complete ==> final(self)@ == old(self)@,
            old(self)@.state != DiscoveryState::Complete ==> final(self)@.state
                == DiscoveryState::Discovering,
            old(self)@.state != DiscoveryState::Complete ==> forall|i: int|
                0 <= i < old(self)@.characteristics.len() ==> #[trigger] final(self)@.characteristics[i]
                    == after_discovery(
                    old(self)@.characteristics[i],
                    match characteristic.uuid {
                        Some(u) => Some(u@),
                        None => None,
                    },
                    characteristic.handle_value,
                    descriptors.deep_view(),
                ),
    {
        if let DiscoveryState::Complete = self.state {
            return;
        }
        let ghost before = self.characteristics.deep_view();
        let ghost seen: Option<Seq<u8>> = match characteristic.uuid {
            Some(u) => Some(u@),
            None => None,
        };
        self.state = DiscoveryState::Discovering;
        let mut i: usize = 0;
        while i < self.characteristics.len()
            invariant
                i <= self.characteristics.len(),
                self.state == DiscoveryState::Discovering,
                self.characteristics.deep_view().len() == before.len(),
                seen == (match characteristic.uuid {
                    Some(u) => Some(u@),
                    None => None,
                }),
                forall|k: int|
                    0 <= k < i ==> #[trigger] self.characteristics.deep_view()[k]
                        == after_discovery(
                        before[k],
                        seen,
                        characteristic.handle_value,
                        descriptors.deep_view(),
                    ),
                forall|k: int|
                    i <= k < before.len() ==> #[trigger] self.characteristics.deep_view()[k]
                        == before[k],
            decreases self.characteristics.len() - i,
        {
            let current = self.characteristics[i];
            assert(self.characteristics.deep_view()[i as int] == current@);
            let matches = match &characteristic.uuid {
                Some(uuid) => uuid.same(&current.uuid),
                None => false,
            };
            if matches {
                let cccd_handle = if current.props.subscribable() {
                    cccd_handle_among(descriptors, current.cccd_handle)
                } else {
                    current.cccd_handle
                };
                let ghost views = self.characteristics.deep_view();
                let updated = ClientCharacteristic {
                    uuid: current.uuid,
                    props: current.props,
                    value_handle: characteristic.handle_value,
                    cccd_handle,
                };
                self.characteristics[i] = updated;
                assert(self.characteristics.deep_view() =~= views.update(i as int, updated@));
            }
            i = i + 1;
        }
    }

    /// Ends discovery. It succeeds, and the client is complete, where each
    /// characteristic that declares one of read, write, notify and indicate
    /// has the handle of its value; else the service is incomplete and the
    /// client stays as it is.
    pub fn discovery_complete(&mut self) -> (r: Result<(), ClientError>)
        ensures
            final(self)@.characteristics == old(self)@.characteristics,
            old(self)@.wf() ==> final(self)@.wf(),
            match r {
                Ok(_) => discovered(old(self)@.characteristics) && final(self)@.state
                    == DiscoveryState::Complete,
                Err(e) => !discovered(old(self)@.characteristics) && e
                    == ClientError::ServiceIncomplete && final(self)@.state == old(self)@.state,
            },
    {
        let ghost models = self.characteristics.deep_view();
        let mut i: usize = 0;
        while i < self.characteristics.len()
            invariant
                i <= self.characteristics.len(),
                models == self.characteristics.deep_view(),
                *self == *old(self),
                forall|k: int|
                    0 <= k < i && (#[trigger] models[k]).props.spec_required_by_client()
                        ==> models[k].value_handle != 0,
            decreases self.characteristics.len() - i,
        {
            let c = &self.characteristics[i];
            assert(models[i as int] == c@);
            if c.props.required_by_client() && c.value_handle == 0 {
                return Err(ClientError::ServiceIncomplete);
            }
            i = i + 1;
        }
        self.state = DiscoveryState::Complete;
        Ok(())
    }

    /// The handle on which an operation on the characteristic at `index` goes
    /// out. There is one only once discovery is complete, and only for an
    /// operation whose capability the schema declares. In a sound client the
    /// handle is known wherever the characteristic is one that discovery
    /// asks a handle of.
    pub fn operation_handle(&self, index: usize, operation: ClientOperation) -> (r: Result<
        u16,
        ClientError,
    >)
        ensures
            r == (if index >= self@.characteristics.len() {
                Err::<u16, ClientError>(ClientError::NoSuchCharacteristic)
            } else if self@.state != DiscoveryState::Complete {
                Err(ClientError::NotDiscovered)
            } else if !operation.spec_declared(self@.characteristics[index as int].props) {
                Err(ClientError::NotDeclared)
            } else {
                Ok(self@.characteristics[index as int].value_handle)
            }),
            self@.wf() && index < self@.characteristics.len()
                && self@.characteristics[index as int].props.spec_required_by_client() ==> (r matches Ok(
                handle,
            ) ==> handle != 0),
    {
        if index >= self.characteristics.len() {
            return Err(ClientError::NoSuchCharacteristic);
        }
        match self.state {
            DiscoveryState::Complete => {},
            _ => {
                return Err(ClientError::NotDiscovered);
            },
        }
        let c = &self.characteristics[index];
        if !operation.declared(c.props) {
            return Err(ClientError::NotDeclared);
        }
        Ok(c.value_handle)
    }
}

/// A characteristic that declares none of read, write, notify and indicate
/// asks for no handle: beside one that declares some, discovery is complete
/// exactly when that one has the handle of its value.
pub proof fn lemma_idle_needs_no_handle(
    active: ClientCharacteristicModel,
    idle: ClientCharacteristicModel,
)
    requires
        active.props.spec_required_by_client(),
        !idle.props.spec_required_by_client(),
    ensures
        discovered(seq![active, idle]) <==> active.value_handle != 0,
        discovered(seq![idle, active]) <==> active.value_handle != 0,
{
    let first = seq![active, idle];
    let second = seq![idle, active];
}

} // verus!
