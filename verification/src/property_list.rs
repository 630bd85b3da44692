//! The property lists of services and characteristics.
//!
//! A list holds properties parted by commas. A property is a name, alone
//! or with `=` and a word or a string literal. A characteristic takes
//! `uuid`, the flags `read`, `write`, `write_without_response`, `notify`
//! and `indicate`, and `security`; a service takes `uuid` alone.

use vstd::prelude::*;
use vstd::string::*;
use crate::characteristic::{Properties, SecurityMode};
use crate::error::{ErrorModel, SchemaError};
use crate::text::is_word;
use crate::token::{Tok, Token};
use crate::uuid::{parse_uuid, Uuid};

verus! {

/// What the property list of a characteristic declares.
#[derive(Clone, Copy, Debug)]
pub struct CharacteristicArgs {
    pub uuid: Uuid,
    pub props: Properties,
    pub security: Option<SecurityMode>,
}

/// A characteristic declaration as a value.
pub struct ArgsModel {
    pub uuid: Seq<u8>,
    pub props: Properties,
    pub security: Option<SecurityMode>,
}

impl View for CharacteristicArgs {
    type V = ArgsModel;

    open spec fn view(&self) -> ArgsModel {
        ArgsModel { uuid: self.uuid@, props: self.props, security: self.security }
    }
}

/// What the property list of a service declares.
#[derive(Clone, Copy, Debug)]
pub struct ServiceArgs {
    pub uuid: Uuid,
}

/// The lower-case form of an ASCII letter; any other byte as it is.
pub open spec fn ascii_lower(b: u8) -> u8 {
    if 0x41 <= b <= 0x5a {
        (b + 0x20) as u8
    } else {
        b
    }
}

/// A text with its ASCII letters in lower case.
pub open spec fn lower(s: Seq<u8>) -> Seq<u8> {
    Seq::new(s.len(), |i: int| ascii_lower(s[i]))
}

/// The security mode that a name stands for, whatever the case of its
/// letters.
pub open spec fn security_mode(name: Seq<u8>) -> Option<SecurityMode> {
    let l = lower(name);
    if l == "noaccess".spec_bytes() {
        Some(SecurityMode::NoAccess)
    } else if l == "open".spec_bytes() {
        Some(SecurityMode::Open)
    } else if l == "justworks".spec_bytes() {
        Some(SecurityMode::JustWorks)
    } else if l == "mitm".spec_bytes() {
        Some(SecurityMode::Mitm)
    } else if l == "lescmitm".spec_bytes() {
        Some(SecurityMode::LescMitm)
    } else if l == "signed".spec_bytes() {
        Some(SecurityMode::Signed)
    } else if l == "signedmitm".spec_bytes() {
        Some(SecurityMode::SignedMitm)
    } else {
        None
    }
}

fn to_lower(s: &[u8]) -> (r: Vec<u8>)
    ensures
        r@ == lower(s@),
{
    let mut out: Vec<u8> = Vec::new();
    let mut i: usize = 0;
    while i < s.len()
        invariant
            i <= s.len(),
            out@.len() == i,
            forall|j: int| 0 <= j < i ==> out@[j] == ascii_lower(s@[j]),
        decreases s.len() - i,
    {
        let b: u8 = s[i];
        if 0x41 <= b && b <= 0x5a {
            out.push(b + 0x20);
        } else {
            out.push(b);
        }
        i = i + 1;
    }
    out
}

impl SecurityMode {
    /// Reads a security mode from its name.
    pub fn parse(name: &[u8]) -> (r: Result<SecurityMode, SchemaError>)
        ensures
            match r {
                Ok(m) => security_mode(name@) == Some(m),
                Err(e) => security_mode(name@) is None && e@ == ErrorModel::UnknownSecurityMode,
            },
    {
        let l = to_lower(name);
        if is_word(l.as_slice(), "noaccess") {
            Ok(SecurityMode::NoAccess)
        } else if is_word(l.as_slice(), "open") {
            Ok(SecurityMode::Open)
        } else if is_word(l.as_slice(), "justworks") {
            Ok(SecurityMode::JustWorks)
        } else if is_word(l.as_slice(), "mitm") {
            Ok(SecurityMode::Mitm)
        } else if is_word(l.as_slice(), "lescmitm") {
            Ok(SecurityMode::LescMitm)
        } else if is_word(l.as_slice(), "signed") {
            Ok(SecurityMode::Signed)
        } else if is_word(l.as_slice(), "signedmitm") {
            Ok(SecurityMode::SignedMitm)
        } else {
            Err(SchemaError::UnknownSecurityMode)
        }
    }
}

/// The value that a property is given in a list.
pub enum PropertyValue {
    /// The property stands alone.
    Bare,
    /// `= word`
    Word(Seq<u8>),
    /// `= "text"`
    Text(Seq<u8>),
}

/// The value of the property whose name stands at `pos`, and where the
/// property ends. After the name may come `=` and a word or a string literal.
pub open spec fn property_value(toks: Seq<Tok>, pos: int) -> Result<(PropertyValue, int), ErrorModel> {
    if pos + 1 < toks.len() && toks[pos + 1] == Tok::Assign {
        if pos + 2 < toks.len() {
            match toks[pos + 2] {
                Tok::Ident(w) => Ok((PropertyValue::Word(w), pos + 3)),
                Tok::Str(t) => Ok((PropertyValue::Text(t), pos + 3)),
                _ => Err(ErrorModel::UnexpectedToken),
            }
        } else {
            Err(ErrorModel::UnexpectedToken)
        }
    } else {
        Ok((PropertyValue::Bare, pos + 1))
    }
}

/// The boolean that a flag is set to: `true` where it stands alone, else what
/// the word or the text after `=` says.
pub open spec fn flag_value(value: PropertyValue) -> Result<bool, ErrorModel> {
    match value {
        PropertyValue::Bare => Ok(true),
        PropertyValue::Word(w) | PropertyValue::Text(w) => if w == "true".spec_bytes() {
            Ok(true)
        } else if w == "false".spec_bytes() {
            Ok(false)
        } else {
            Err(ErrorModel::InvalidBool)
        },
    }
}

/// The properties read so far from a list. Each is unset until the list
/// names it.
pub struct Draft {
    pub uuid: Option<Seq<u8>>,
    pub read: Option<bool>,
    pub write: Option<bool>,
    pub write_without_response: Option<bool>,
    pub notify: Option<bool>,
    pub indicate: Option<bool>,
    pub security: Option<SecurityMode>,
}

/// A draft with nothing set.
pub open spec fn empty_draft() -> Draft {
    Draft {
        uuid: None,
        read: None,
        write: None,
        write_without_response: None,
        notify: None,
        indicate: None,
        security: None,
    }
}

/// Sets a flag that is still unset.
pub open spec fn set_flag(old_value: Option<bool>, value: PropertyValue) -> Result<
    Option<bool>,
    ErrorModel,
> {
    if old_value is Some {
        Err(ErrorModel::DuplicateProperty)
    } else {
        match flag_value(value) {
            Ok(b) => Ok(Some(b)),
            Err(e) => Err(e),
        }
    }
}

/// The draft after one more property. A service knows `uuid` alone; a
/// characteristic knows the five flags and `security` besides. A property
/// that is set already is a duplicate.
pub open spec fn with_property(
    draft: Draft,
    key: Seq<u8>,
    value: PropertyValue,
    service: bool,
) -> Result<Draft, ErrorModel> {
    if key == "uuid".spec_bytes() {
        if draft.uuid is Some {
            Err(ErrorModel::DuplicateProperty)
        } else {
            match value {
                PropertyValue::Text(t) => match parse_uuid(t) {
                    Some(u) => Ok(Draft { uuid: Some(u), ..draft }),
                    None => Err(ErrorModel::InvalidUuid),
                },
                _ => Err(ErrorModel::InvalidUuid),
            }
        }
    } else if service {
        Err(ErrorModel::UnknownProperty)
    } else if key == "read".spec_bytes() {
        match set_flag(draft.read, value) {
            Ok(f) => Ok(Draft { read: f, ..draft }),
            Err(e) => Err(e),
        }
    } else if key == "write".spec_bytes() {
        match set_flag(draft.write, value) {
            Ok(f) => Ok(Draft { write: f, ..draft }),
            Err(e) => Err(e),
        }
    } else if key == "write_without_response".spec_bytes() {
        match set_flag(draft.write_without_response, value) {
            Ok(f) => Ok(Draft { write_without_response: f, ..draft }),
            Err(e) => Err(e),
        }
    } else if key == "notify".spec_bytes() {
        match set_flag(draft.notify, value) {
            Ok(f) => Ok(Draft { notify: f, ..draft }),
            Err(e) => Err(e),
        }
    } else if key == "indicate".spec_bytes() {
        match set_flag(draft.indicate, value) {
            Ok(f) => Ok(Draft { indicate: f, ..draft }),
            Err(e) => Err(e),
        }
    } else if key == "security".spec_bytes() {
        if draft.security is Some {
            Err(ErrorModel::DuplicateProperty)
        } else {
            match value {
                PropertyValue::Text(t) => match security_mode(t) {
                    Some(m) => Ok(Draft { security: Some(m), ..draft }),
                    None => Err(ErrorModel::UnknownSecurityMode),
                },
                _ => Err(ErrorModel::UnknownSecurityMode),
            }
        }
    } else {
        Err(ErrorModel::UnknownProperty)
    }
}

/// The draft after the properties from `pos` on: properties parted by commas,
/// the last of which a comma may follow. The first fault ends the reading.
pub open spec fn read_properties(toks: Seq<Tok>, pos: int, draft: Draft, service: bool) -> Result<
    Draft,
    ErrorModel,
>
    decreases toks.len() - pos,
{
    if pos < 0 || pos >= toks.len() {
        Ok(draft)
    } else {
        match toks[pos] {
            Tok::Ident(key) => match property_value(toks, pos) {
                Err(e) => Err(e),
                Ok((value, next)) => match with_property(draft, key, value, service) {
                    Err(e) => Err(e),
                    Ok(after) => if next >= toks.len() {
                        Ok(after)
                    } else if toks[next] == Tok::Comma {
                        read_properties(toks, next + 1, after, service)
                    } else {
                        Err(ErrorModel::UnexpectedToken)
                    },
                },
            },
            _ => Err(ErrorModel::UnexpectedToken),
        }
    }
}

/// The declaration that a finished draft stands for: the UUID must be set,
/// and a flag that the list left out is off.
pub open spec fn finish(draft: Draft) -> Result<ArgsModel, ErrorModel> {
    match draft.uuid {
        None => Err(ErrorModel::MissingUuid),
        Some(uuid) => Ok(
            ArgsModel {
                uuid,
                props: Properties {
                    read: draft.read == Some(true),
                    write: draft.write == Some(true),
                    write_without_response: draft.write_without_response == Some(true),
                    notify: draft.notify == Some(true),
                    indicate: draft.indicate == Some(true),
                },
                security: draft.security,
            },
        ),
    }
}

/// What the property list of a characteristic declares.
pub open spec fn parse_characteristic(toks: Seq<Tok>) -> Result<ArgsModel, ErrorModel> {
    match read_properties(toks, 0, empty_draft(), false) {
        Ok(draft) => finish(draft),
        Err(e) => Err(e),
    }
}

/// The UUID that the property list of a service declares.
pub open spec fn parse_service(toks: Seq<Tok>) -> Result<Seq<u8>, ErrorModel> {
    match read_properties(toks, 0, empty_draft(), true) {
        Ok(draft) => match draft.uuid {
            Some(uuid) => Ok(uuid),
            None => Err(ErrorModel::MissingUuid),
        },
        Err(e) => Err(e),
    }
}

/// The properties read so far, as they are held while a list is read.
struct DraftArgs {
    uuid: Option<Uuid>,
    read: Option<bool>,
    write: Option<bool>,
    write_without_response: Option<bool>,
    notify: Option<bool>,
    indicate: Option<bool>,
    security: Option<SecurityMode>,
}

impl View for DraftArgs {
    type V = Draft;

    closed spec fn view(&self) -> Draft {
        Draft {
            uuid: match self.uuid {
                Some(u) => Some(u@),
                None => None,
            },
            read: self.read,
            write: self.write,
            write_without_response: self.write_without_response,
            notify: self.notify,
            indicate: self.indicate,
            security: self.security,
        }
    }
}

/// The value of a property, as it is held while a list is read.
enum Value<'a> {
    Bare,
    Word(&'a [u8]),
    Text(&'a [u8]),
}

impl<'a> View for Value<'a> {
    type V = PropertyValue;

    closed spec fn view(&self) -> PropertyValue {
        match *self {
            Value::Bare => PropertyValue::Bare,
            Value::Word(w) => PropertyValue::Word(w@),
            Value::Text(t) => PropertyValue::Text(t@),
        }
    }
}

fn value_at<'a>(tokens: &'a [Token], pos: usize) -> (r: Result<(Value<'a>, usize), SchemaError>)
    requires
        pos < tokens.len(),
    ensures
        match r {
            Ok((value, next)) => property_value(tokens.deep_view(), pos as int) == Ok::<
                (PropertyValue, int),
                ErrorModel,
            >((value@, next as int)) && pos < next <= tokens.len(),
            Err(e) => property_value(tokens.deep_view(), pos as int) == Err::<
                (PropertyValue, int),
                ErrorModel>(e@),
        },
{
    if pos + 1 < tokens.len() && tokens[pos + 1].is_assign() {
        if pos + 2 < tokens.len() {
            match &tokens[pos + 2] {
                Token::Ident(w) => Ok((Value::Word(w.as_slice()), pos + 3)),
                Token::Str(t) => Ok((Value::Text(t.as_slice()), pos + 3)),
                _ => Err(SchemaError::UnexpectedToken),
            }
        } else {
            Err(SchemaError::UnexpectedToken)
        }
    } else {
        Ok((Value::Bare, pos + 1))
    }
}

fn flag_of(value: &Value) -> (r: Result<bool, SchemaError>)
    ensures
        match r {
            Ok(b) => flag_value(value@) == Ok::<bool, ErrorModel>(b),
            Err(e) => flag_value(value@) == Err::<bool, ErrorModel>(e@),
        },
{
    match value {
        Value::Bare => Ok(true),
        Value::Word(w) | Value::Text(w) => if is_word(w, "true") {
            Ok(true)
        } else if is_word(w, "false") {
            Ok(false)
        } else {
            Err(SchemaError::InvalidBool)
        },
    }
}

fn flag_set(old_value: Option<bool>, value: &Value) -> (r: Result<Option<bool>, SchemaError>)
    ensures
        match r {
            Ok(flag) => set_flag(old_value, value@) == Ok::<Option<bool>, ErrorModel>(flag),
            Err(e) => set_flag(old_value, value@) == Err::<Option<bool>, ErrorModel>(e@),
        },
{
    if old_value.is_some() {
        Err(SchemaError::DuplicateProperty)
    } else {
        match flag_of(value) {
            Ok(b) => Ok(Some(b)),
            Err(e) => Err(e),
        }
    }
}

fn add_property(draft: DraftArgs, key: &[u8], value: &Value, service: bool) -> (r: Result<
    DraftArgs,
    SchemaError,
>)
    ensures
        match r {
            Ok(after) => with_property(draft@, key@, value@, service) == Ok::<Draft, ErrorModel>(
                after@,
            ),
            Err(e) => with_property(draft@, key@, value@, service) == Err::<Draft, ErrorModel>(e@),
        },
{
    let mut draft = draft;
    if is_word(key, "uuid") {
        if draft.uuid.is_some() {
            return Err(SchemaError::DuplicateProperty);
        }
        match value {
            Value::Text(t) => {
                let uuid = Uuid::parse(t)?;
                draft.uuid = Some(uuid);
            },
            _ => {
                return Err(SchemaError::InvalidUuid);
            },
        }
    } else if service {
        return Err(SchemaError::UnknownProperty);
    } else if is_word(key, "read") {
        draft.read = flag_set(draft.read, value)?;
    } else if is_word(key, "write") {
        draft.write = flag_set(draft.write, value)?;
    } else if is_word(key, "write_without_response") {
        draft.write_without_response = flag_set(draft.write_without_response, value)?;
    } else if is_word(key, "notify") {
        draft.notify = flag_set(draft.notify, value)?;
    } else if is_word(key, "indicate") {
        draft.indicate = flag_set(draft.indicate, value)?;
    } else if is_word(key, "security") {
        if draft.security.is_some() {
            return Err(SchemaError::DuplicateProperty);
        }
        match value {
            Value::Text(t) => {
                let mode = SecurityMode::parse(t)?;
                draft.security = Some(mode);
            },
            _ => {
                return Err(SchemaError::UnknownSecurityMode);
            },
        }
    } else {
        return Err(SchemaError::UnknownProperty);
    }
    Ok(draft)
}

fn read_list(tokens: &[Token], service: bool) -> (r: Result<DraftArgs, SchemaError>)
    ensures
        match r {
            Ok(draft) => read_properties(tokens.deep_view(), 0, empty_draft(), service) == Ok::<
                Draft,
                ErrorModel,
            >(draft@),
            Err(e) => read_properties(tokens.deep_view(), 0, empty_draft(), service) == Err::<
                Draft,
                ErrorModel>(e@),
        },
{
    let mut draft = DraftArgs {
        uuid: None,
        read: None,
        write: None,
        write_without_response: None,
        notify: None,
        indicate: None,
        security: None,
    };
    let ghost toks = tokens.deep_view();
    let mut pos: usize = 0;
    while pos < tokens.len()
        invariant
            pos <= tokens.len(),
            toks == tokens.deep_view(),
            read_properties(toks, 0, empty_draft(), service) == read_properties(
                toks,
                pos as int,
                draft@,
                service,
            ),
        decreases tokens.len() - pos,
    {
        match &tokens[pos] {
            Token::Ident(key) => {
                let (value, next) = value_at(tokens, pos)?;
                draft = add_property(draft, key.as_slice(), &value, service)?;
                if next >= tokens.len() {
                    return Ok(draft);
                }
                if !tokens[next].is_comma() {
                    return Err(SchemaError::UnexpectedToken);
                }
                pos = next + 1;
            },
            _ => {
                return Err(SchemaError::UnexpectedToken);
            },
        }
    }
    Ok(draft)
}

impl CharacteristicArgs {
    /// Reads the property list of a characteristic: `uuid = "…"`, which must
    /// be there, any of the flags `read`, `write`, `write_without_response`,
    /// `notify` and `indicate`, and `security = "…"`.
    pub fn parse(tokens: &[Token]) -> (r: Result<CharacteristicArgs, SchemaError>)
        ensures
            match r {
                Ok(args) => parse_characteristic(tokens.deep_view()) == Ok::<
                    ArgsModel,
                    ErrorModel,
                >(args@),
                Err(e) => parse_characteristic(tokens.deep_view()) == Err::<
                    ArgsModel,
                    ErrorModel>(e@),
            },
    {
        let draft = read_list(tokens, false)?;
        match draft.uuid {
            None => Err(SchemaError::MissingUuid),
            Some(uuid) => Ok(
                CharacteristicArgs {
                    uuid,
                    props: Properties {
                        read: flag_on(draft.read),
                        write: flag_on(draft.write),
                        write_without_response: flag_on(draft.write_without_response),
                        notify: flag_on(draft.notify),
                        indicate: flag_on(draft.indicate),
                    },
                    security: draft.security,
                },
            ),
        }
    }
}

impl ServiceArgs {
    /// Reads the property list of a service or a client: `uuid = "…"` and
    /// nothing else.
    pub fn parse(tokens: &[Token]) -> (r: Result<ServiceArgs, SchemaError>)
        ensures
            match r {
                Ok(args) => parse_service(tokens.deep_view()) == Ok::<Seq<u8>, ErrorModel>(
                    args.uuid@,
                ),
                Err(e) => parse_service(tokens.deep_view()) == Err::<Seq<u8>, ErrorModel>(e@),
            },
    {
        let draft = read_list(tokens, true)?;
        match draft.uuid {
            None => Err(SchemaError::MissingUuid),
            Some(uuid) => Ok(ServiceArgs { uuid }),
        }
    }
}

fn flag_on(flag: Option<bool>) -> (r: bool)
    ensures
        r == (flag == Some(true)),
{
    match flag {
        Some(b) => b,
        None => false,
    }
}

} // verus!
