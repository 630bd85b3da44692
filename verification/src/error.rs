//! Errors reported to the author of a schema.

use vstd::prelude::*;
use vstd::string::*;
use vstd::utf8::{decode_utf8, encode_utf8_decode_utf8, encode_utf8_valid_utf8, valid_utf8};
use crate::text::text_of;

verus! {

/// The fields an advertisement schema may declare, each at most once.
#[derive(Clone, Copy, Debug, PartialEq, Eq, Structural)]
pub enum AdvField {
    Flags,
    Services,
    ShortName,
    FullName,
}

/// Why a schema was rejected. A rejected schema produces no artifact at all.
#[derive(Clone, Debug, PartialEq, Eq)]
pub enum SchemaError {
    /// The schema text holds a byte that starts no token.
    UnexpectedByte,
    /// A string literal is not closed, or holds a backslash.
    BadStringLiteral,
    /// A token stands where the grammar expects another one.
    UnexpectedToken,
    /// The declaration of a server has tuple fields or none.
    ServerNotNamed,
    /// The declaration of a service has tuple fields or none.
    ServiceNotNamed,
    /// The declaration of a client has tuple fields or none.
    ClientNotNamed,
    /// A service of a server whose type is not one bare name.
    UnsupportedServiceType,
    /// A key that the schema does not know, by its bytes.
    UnknownField(Vec<u8>),
    /// The same key twice in one schema.
    MultipleField(AdvField),
    /// The same item twice in one set.
    DuplicateItem,
    /// A flag name that is not assigned.
    UnknownFlag,
    /// A service name that is not assigned.
    UnknownService,
    /// A service list that is none of the six width and completeness tags.
    UnknownServiceList,
    /// A service list without services.
    EmptyServiceList,
    /// A literal that is neither a 16-bit nor a 128-bit UUID.
    InvalidUuid,
    /// A property list without `uuid`.
    MissingUuid,
    /// The same property twice in one list.
    DuplicateProperty,
    /// A property that characteristics do not have.
    UnknownProperty,
    /// A value that is neither `true` nor `false` where a flag is set.
    InvalidBool,
    /// A security mode that is not known.
    UnknownSecurityMode,
    /// Two characteristics of one service share a name.
    DuplicateCharacteristic,
    /// A characteristic of a service that allows no operation.
    NoOperation,
    /// The payload of one structure does not fit its length byte.
    StructureTooLong,
}

/// An error as a value.
pub enum ErrorModel {
    UnexpectedByte,
    BadStringLiteral,
    UnexpectedToken,
    ServerNotNamed,
    ServiceNotNamed,
    ClientNotNamed,
    UnsupportedServiceType,
    UnknownField(Seq<u8>),
    MultipleField(AdvField),
    DuplicateItem,
    UnknownFlag,
    UnknownService,
    UnknownServiceList,
    EmptyServiceList,
    InvalidUuid,
    MissingUuid,
    DuplicateProperty,
    UnknownProperty,
    InvalidBool,
    UnknownSecurityMode,
    DuplicateCharacteristic,
    NoOperation,
    StructureTooLong,
}

impl View for SchemaError {
    type V = ErrorModel;

    open spec fn view(&self) -> ErrorModel {
        match *self {
            SchemaError::UnexpectedByte => ErrorModel::UnexpectedByte,
            SchemaError::BadStringLiteral => ErrorModel::BadStringLiteral,
            SchemaError::UnexpectedToken => ErrorModel::UnexpectedToken,
            SchemaError::ServerNotNamed => ErrorModel::ServerNotNamed,
            SchemaError::ServiceNotNamed => ErrorModel::ServiceNotNamed,
            SchemaError::ClientNotNamed => ErrorModel::ClientNotNamed,
            SchemaError::UnsupportedServiceType => ErrorModel::UnsupportedServiceType,
            SchemaError::UnknownField(key) => ErrorModel::UnknownField(key@),
            SchemaError::MultipleField(field) => ErrorModel::MultipleField(field),
            SchemaError::DuplicateItem => ErrorModel::DuplicateItem,
            SchemaError::UnknownFlag => ErrorModel::UnknownFlag,
            SchemaError::UnknownService => ErrorModel::UnknownService,
            SchemaError::UnknownServiceList => ErrorModel::UnknownServiceList,
            SchemaError::EmptyServiceList => ErrorModel::EmptyServiceList,
            SchemaError::InvalidUuid => ErrorModel::InvalidUuid,
            SchemaError::MissingUuid => ErrorModel::MissingUuid,
            SchemaError::DuplicateProperty => ErrorModel::DuplicateProperty,
            SchemaError::UnknownProperty => ErrorModel::UnknownProperty,
            SchemaError::InvalidBool => ErrorModel::InvalidBool,
            SchemaError::UnknownSecurityMode => ErrorModel::UnknownSecurityMode,
            SchemaError::DuplicateCharacteristic => ErrorModel::DuplicateCharacteristic,
            SchemaError::NoOperation => ErrorModel::NoOperation,
            SchemaError::StructureTooLong => ErrorModel::StructureTooLong,
        }
    }
}

impl DeepView for SchemaError {
    type V = ErrorModel;

    open spec fn deep_view(&self) -> ErrorModel {
        self@
    }
}

/// The kinds of failure that a generated operation reports at run time. A
/// caller tells them apart to decide what to do; none is tried again by
/// itself.
#[derive(Clone, Copy, Debug, PartialEq, Eq, Structural)]
pub enum FailureKind {
    /// A service could not be registered.
    Register,
    /// The stored value could not be read.
    GetValue,
    /// The value could not be stored.
    SetValue,
    /// A notification could not be sent.
    NotifyValue,
    /// An indication could not be sent.
    IndicateValue,
    /// Discovery ended without the handles that the client needs.
    Discover,
    /// The peer's value could not be read.
    Read,
    /// The peer's value could not be written.
    Write,
    /// The write could not be queued at once.
    TryWrite,
}

impl AdvField {
    /// The name of the field in a message.
    pub open spec fn spec_name(self) -> Seq<char> {
        match self {
            AdvField::Flags => "flag"@,
            AdvField::Services => "service"@,
            AdvField::ShortName => "short_name"@,
            AdvField::FullName => "full_name"@,
        }
    }

    /// The name of the field in a message.
    pub fn name(self) -> (r: &'static str)
        ensures
            r@ == self.spec_name(),
    {
        match self {
            AdvField::Flags => "flag",
            AdvField::Services => "service",
            AdvField::ShortName => "short_name",
            AdvField::FullName => "full_name",
        }
    }
}

impl ErrorModel {
    /// What the error says to the author of the schema, where it names
    /// nothing of the schema.
    pub open spec fn plain_message(self) -> Seq<char> {
        match self {
            ErrorModel::UnexpectedByte => "unexpected character in schema"@,
            ErrorModel::BadStringLiteral => "string literal is not closed or holds a backslash"@,
            ErrorModel::UnexpectedToken => "unexpected token"@,
            ErrorModel::ServerNotNamed => "gatt_server structs must have named fields, not tuples."@,
            ErrorModel::ServiceNotNamed => "gatt_service structs must have named fields, not tuples."@,
            ErrorModel::ClientNotNamed => "gatt_client structs must have named fields, not tuples."@,
            ErrorModel::UnsupportedServiceType => "the type of a service must be a plain name"@,
            ErrorModel::UnknownField(_) => "Unexpected adv data field"@,
            ErrorModel::MultipleField(_) => "multiple fields provided"@,
            ErrorModel::DuplicateItem => "Identifiers must be unique."@,
            ErrorModel::UnknownFlag => "Expected flag identifier."@,
            ErrorModel::UnknownService => "Expected service identifier."@,
            ErrorModel::UnknownServiceList => "Expected service list."@,
            ErrorModel::EmptyServiceList => "a service list must name a service"@,
            ErrorModel::InvalidUuid => "Could not parse string literal as UUID."@,
            ErrorModel::MissingUuid => "missing field `uuid`"@,
            ErrorModel::DuplicateProperty => "duplicate property"@,
            ErrorModel::UnknownProperty => "unknown property"@,
            ErrorModel::InvalidBool => "expected `true` or `false`"@,
            ErrorModel::UnknownSecurityMode => "unknown security mode"@,
            ErrorModel::DuplicateCharacteristic => "characteristic names must be unique"@,
            ErrorModel::NoOperation => "a characteristic must allow an operation"@,
            ErrorModel::StructureTooLong => "advertisement structure is longer than 255 bytes"@,
        }
    }

    /// What the error says to the author of the schema. A field that is
    /// declared twice is named: `multiple short_names provided`. So is a key
    /// that the schema does not know, between double quotes, where its
    /// bytes are text.
    pub open spec fn message(self) -> Seq<char> {
        match self {
            ErrorModel::MultipleField(field) => "multiple "@ + field.spec_name() + "s provided"@,
            ErrorModel::UnknownField(key) => if valid_utf8(key) {
                "Unexpected adv data field: \""@ + decode_utf8(key) + "\""@
            } else {
                self.plain_message()
            },
            _ => self.plain_message(),
        }
    }
}

impl SchemaError {
    /// What the error says to the author of the schema.
    pub fn message(&self) -> (r: String)
        ensures
            r@ == self@.message(),
    {
        let plain: &'static str = match self {
            SchemaError::MultipleField(field) => {
                return String::from_str("multiple ").concat(field.name()).concat("s provided");
            },
            SchemaError::UnknownField(key) => {
                match text_of(key.as_slice()) {
                    Some(name) => {
                        proof {
                            encode_utf8_valid_utf8(name@);
                            encode_utf8_decode_utf8(name@);
                        }
                        return String::from_str("Unexpected adv data field: \"").concat(
                            name,
                        ).concat("\"");
                    },
                    None => "Unexpected adv data field",
                }
            },
            SchemaError::UnexpectedByte => "unexpected character in schema",
            SchemaError::BadStringLiteral => "string literal is not closed or holds a backslash",
            SchemaError::UnexpectedToken => "unexpected token",
            SchemaError::ServerNotNamed => "gatt_server structs must have named fields, not tuples.",
            SchemaError::ServiceNotNamed => "gatt_service structs must have named fields, not tuples.",
            SchemaError::ClientNotNamed => "gatt_client structs must have named fields, not tuples.",
            SchemaError::UnsupportedServiceType => "the type of a service must be a plain name",
            SchemaError::DuplicateItem => "Identifiers must be unique.",
            SchemaError::UnknownFlag => "Expected flag identifier.",
            SchemaError::UnknownService => "Expected service identifier.",
            SchemaError::UnknownServiceList => "Expected service list.",
            SchemaError::EmptyServiceList => "a service list must name a service",
            SchemaError::InvalidUuid => "Could not parse string literal as UUID.",
            SchemaError::MissingUuid => "missing field `uuid`",
            SchemaError::DuplicateProperty => "duplicate property",
            SchemaError::UnknownProperty => "unknown property",
            SchemaError::InvalidBool => "expected `true` or `false`",
            SchemaError::UnknownSecurityMode => "unknown security mode",
            SchemaError::DuplicateCharacteristic => "characteristic names must be unique",
            SchemaError::NoOperation => "a characteristic must allow an operation",
            SchemaError::StructureTooLong => "advertisement structure is longer than 255 bytes",
        };
        String::from_str(plain)
    }
}

} // verus!
