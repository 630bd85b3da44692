//! Reads an advertisement schema from its tokens.
//!
//! A schema is a list of `key: value` pairs parted by commas. The keys are
//! `flags`, `services`, `short_name` and `full_name`; none may come twice.
//! Flags are a set in parentheses; services are a set in parentheses behind
//! the tag of their width and completeness; a name is a string literal. A
//! comma may follow the last item of a set or of the schema.

use vstd::prelude::*;
use vstd::slice::slice_to_vec;
use vstd::string::*;
use vstd::utf8::{is_ascii_chars, is_ascii_chars_encode_utf8};
use crate::advertisement::{
    flag_named,
    AdvertisementData,
    AdvertisementModel,
    Flag,
    FlagSet,
    Service,
    ServiceItem,
    Services,
    ServicesModel,
    Width,
};
use crate::basic_service::{basic_service, BasicService};
use crate::error::{AdvField, ErrorModel, SchemaError};
use crate::text::is_word;
use crate::token::{Tok, Token};
use crate::uuid::{parse_uuid, Uuid};

verus! {

/// A result that spans `k` tokens more.
pub open spec fn advance<T>(r: Result<(T, nat), ErrorModel>, k: nat) -> Result<
    (T, nat),
    ErrorModel,
> {
    match r {
        Ok((value, n)) => Ok((value, n + k)),
        Err(e) => Err(e),
    }
}

/// The flags of a set whose items start at `pos`, after `found`, and the
/// number of tokens up to and with the closing parenthesis. Each item is the
/// name of a flag; an item that was found before is a duplicate.
pub open spec fn flag_items(toks: Seq<Tok>, pos: int, found: Seq<Flag>) -> Result<
    (Seq<Flag>, nat),
    ErrorModel,
>
    decreases toks.len() - pos,
{
    if pos < 0 || pos >= toks.len() {
        Err(ErrorModel::UnexpectedToken)
    } else {
        match toks[pos] {
            Tok::Close => Ok((found, 1)),
            Tok::Ident(name) => match flag_named(name) {
                None => Err(ErrorModel::UnknownFlag),
                Some(flag) => if found.contains(flag) {
                    Err(ErrorModel::DuplicateItem)
                } else if pos + 1 < toks.len() && toks[pos + 1] == Tok::Comma {
                    advance(flag_items(toks, pos + 2, found.push(flag)), 2)
                } else if pos + 1 < toks.len() && toks[pos + 1] == Tok::Close {
                    Ok((found.push(flag), 2))
                } else {
                    Err(ErrorModel::UnexpectedToken)
                },
            },
            _ => Err(ErrorModel::UnexpectedToken),
        }
    }
}

/// The flag set that starts at `pos` with its opening parenthesis.
pub open spec fn flag_set(toks: Seq<Tok>, pos: int) -> Result<(Seq<Flag>, nat), ErrorModel> {
    if 0 <= pos < toks.len() && toks[pos] == Tok::Open {
        advance(flag_items(toks, pos + 1, Seq::empty()), 1)
    } else {
        Err(ErrorModel::UnexpectedToken)
    }
}

/// The service written at `pos`, and the number of its tokens: the name of
/// an assigned service, or `Custom` with a UUID literal in parentheses.
pub open spec fn service_at(toks: Seq<Tok>, pos: int) -> Result<(ServiceItem, nat), ErrorModel> {
    if pos < 0 || pos >= toks.len() {
        Err(ErrorModel::UnexpectedToken)
    } else {
        match toks[pos] {
            Tok::Ident(name) => if name == "Custom".spec_bytes() {
                if pos + 3 < toks.len() && toks[pos + 1] == Tok::Open && toks[pos + 3]
                    == Tok::Close {
                    match toks[pos + 2] {
                        Tok::Str(text) => match parse_uuid(text) {
                            Some(uuid) => Ok((ServiceItem::Custom(uuid), 4)),
                            None => Err(ErrorModel::InvalidUuid),
                        },
                        _ => Err(ErrorModel::UnexpectedToken),
                    }
                } else {
                    Err(ErrorModel::UnexpectedToken)
                }
            } else {
                match basic_service(name) {
                    Some(service) => Ok((ServiceItem::Basic16(service), 1)),
                    None => Err(ErrorModel::UnknownService),
                }
            },
            _ => Err(ErrorModel::UnexpectedToken),
        }
    }
}

/// The services of a set whose items start at `pos`, after `found`, and the
/// number of tokens up to and with the closing parenthesis.
pub open spec fn service_items(toks: Seq<Tok>, pos: int, found: Seq<ServiceItem>) -> Result<
    (Seq<ServiceItem>, nat),
    ErrorModel,
>
    decreases toks.len() - pos,
{
    if pos < 0 || pos >= toks.len() {
        Err(ErrorModel::UnexpectedToken)
    } else if toks[pos] == Tok::Close {
        Ok((found, 1))
    } else {
        match service_at(toks, pos) {
            Err(e) => Err(e),
            Ok((service, n)) => if found.contains(service) {
                Err(ErrorModel::DuplicateItem)
            } else if pos + n < toks.len() && toks[pos + n] == Tok::Comma {
                advance(service_items(toks, pos + n + 1, found.push(service)), n + 1)
            } else if pos + n < toks.len() && toks[pos + n] == Tok::Close {
                Ok((found.push(service), n + 1))
            } else {
                Err(ErrorModel::UnexpectedToken)
            },
        }
    }
}

/// The width and completeness that the tag of a service list stands for.
pub open spec fn list_tag(name: Seq<u8>) -> Option<(Width, bool)> {
    if name == "Incomplete16".spec_bytes() {
        Some((Width::Bits16, false))
    } else if name == "Complete16".spec_bytes() {
        Some((Width::Bits16, true))
    } else if name == "Incomplete32".spec_bytes() {
        Some((Width::Bits32, false))
    } else if name == "Complete32".spec_bytes() {
        Some((Width::Bits32, true))
    } else if name == "Incomplete128".spec_bytes() {
        Some((Width::Bits128, false))
    } else if name == "Complete128".spec_bytes() {
        Some((Width::Bits128, true))
    } else {
        None
    }
}

/// The service list that starts at `pos` with its tag. The set behind the
/// tag is read before the tag is looked up, and a sound list holds at least
/// one service.
pub open spec fn service_list(toks: Seq<Tok>, pos: int) -> Result<(ServicesModel, nat), ErrorModel> {
    if 0 <= pos && pos + 1 < toks.len() && toks[pos] is Ident && toks[pos + 1] == Tok::Open {
        match service_items(toks, pos + 2, Seq::empty()) {
            Err(e) => Err(e),
            Ok((items, n)) => match list_tag(toks[pos]->Ident_0) {
                None => Err(ErrorModel::UnknownServiceList),
                Some((width, complete)) => if items.len() == 0 {
                    Err(ErrorModel::EmptyServiceList)
                } else {
                    Ok((ServicesModel { width, complete, items }, n + 2))
                },
            },
        }
    } else {
        Err(ErrorModel::UnexpectedToken)
    }
}

/// The string literal at `pos`.
pub open spec fn name_at(toks: Seq<Tok>, pos: int) -> Result<(Seq<u8>, nat), ErrorModel> {
    if 0 <= pos < toks.len() && toks[pos] is Str {
        Ok((toks[pos]->Str_0, 1))
    } else {
        Err(ErrorModel::UnexpectedToken)
    }
}

/// An advertisement in which nothing is declared.
pub open spec fn empty_advertisement() -> AdvertisementModel {
    AdvertisementModel { flags: None, services: None, short_name: None, full_name: None }
}

/// The advertisement after the field `key`, whose value starts at `pos`, and
/// the number of tokens of the value. A key that was declared before is
/// refused before its value is read; a key that is none of the four is
/// refused by its name.
pub open spec fn with_field(toks: Seq<Tok>, pos: int, key: Seq<u8>, data: AdvertisementModel) -> Result<
    (AdvertisementModel, nat),
    ErrorModel,
> {
    if key == "flags".spec_bytes() {
        if data.flags is Some {
            Err(ErrorModel::MultipleField(AdvField::Flags))
        } else {
            match flag_set(toks, pos) {
                Ok((flags, n)) => Ok((AdvertisementModel { flags: Some(flags), ..data }, n)),
                Err(e) => Err(e),
            }
        }
    } else if key == "services".spec_bytes() {
        if data.services is Some {
            Err(ErrorModel::MultipleField(AdvField::Services))
        } else {
            match service_list(toks, pos) {
                Ok((services, n)) => Ok(
                    (AdvertisementModel { services: Some(services), ..data }, n),
                ),
                Err(e) => Err(e),
            }
        }
    } else if key == "short_name".spec_bytes() {
        if data.short_name is Some {
            Err(ErrorModel::MultipleField(AdvField::ShortName))
        } else {
            match name_at(toks, pos) {
                Ok((name, n)) => Ok((AdvertisementModel { short_name: Some(name), ..data }, n)),
                Err(e) => Err(e),
            }
        }
    } else if key == "full_name".spec_bytes() {
        if data.full_name is Some {
            Err(ErrorModel::MultipleField(AdvField::FullName))
        } else {
            match name_at(toks, pos) {
                Ok((name, n)) => Ok((AdvertisementModel { full_name: Some(name), ..data }, n)),
                Err(e) => Err(e),
            }
        }
    } else {
        Err(ErrorModel::UnknownField(key))
    }
}

/// The advertisement after the fields from `pos` on. The first fault ends
/// the reading.
pub open spec fn fields_from(toks: Seq<Tok>, pos: int, data: AdvertisementModel) -> Result<
    AdvertisementModel,
    ErrorModel,
>
    decreases toks.len() - pos,
{
    if pos < 0 || pos >= toks.len() {
        Ok(data)
    } else {
        match toks[pos] {
            Tok::Ident(key) => if pos + 1 < toks.len() && toks[pos + 1] == Tok::Colon {
                match with_field(toks, pos + 2, key, data) {
                    Err(e) => Err(e),
                    Ok((after, n)) => if pos + 2 + n >= toks.len() {
                        Ok(after)
                    } else if toks[pos + 2 + n] == Tok::Comma {
                        fields_from(toks, pos + 2 + n + 1, after)
                    } else {
                        Err(ErrorModel::UnexpectedToken)
                    },
                }
            } else {
                Err(ErrorModel::UnexpectedToken)
            },
            _ => Err(ErrorModel::UnexpectedToken),
        }
    }
}

/// The advertisement that a schema declares.
pub open spec fn parse_advertisement(toks: Seq<Tok>) -> Result<AdvertisementModel, ErrorModel> {
    fields_from(toks, 0, empty_advertisement())
}

fn has_flag(items: &Vec<Flag>, flag: Flag) -> (r: bool)
    ensures
        r == items@.contains(flag),
{
    let mut i: usize = 0;
    while i < items.len()
        invariant
            i <= items.len(),
            forall|j: int| 0 <= j < i ==> items@[j] != flag,
        decreases items.len() - i,
    {
        if items[i] == flag {
            return true;
        }
        i = i + 1;
    }
    false
}

fn has_service(items: &Vec<Service>, service: &Service) -> (r: bool)
    ensures
        r == items.deep_view().contains(service@),
{
    let mut i: usize = 0;
    while i < items.len()
        invariant
            i <= items.len(),
            forall|j: int| 0 <= j < i ==> items.deep_view()[j] != service@,
        decreases items.len() - i,
    {
        assert(items.deep_view()[i as int] == items@[i as int]@);
        if items[i].same(service) {
            return true;
        }
        i = i + 1;
    }
    false
}

/// A sequence without duplicates stays so when an item that it does not
/// hold is added.
proof fn lemma_push_fresh<T>(items: Seq<T>, item: T)
    requires
        items.no_duplicates(),
        !items.contains(item),
    ensures
        items.push(item).no_duplicates(),
{
    let after = items.push(item);
    assert forall|i: int, j: int| 0 <= i < after.len() && 0 <= j < after.len() && i != j implies after[i]
        != after[j] by {
        if i < items.len() && j >= items.len() {
            assert(items.contains(items[i]));
        }
        if j < items.len() && i >= items.len() {
            assert(items.contains(items[j]));
        }
    }
}

/// Reads the flag set that starts at `pos` with its opening parenthesis.
pub fn parse_flag_set(tokens: &[Token], pos: usize) -> (r: Result<(FlagSet, usize), SchemaError>)
    ensures
        match r {
            Ok((set, next)) => pos < next <= tokens.len() && set.wf() && flag_set(
                tokens.deep_view(),
                pos as int,
            ) == Ok::<(Seq<Flag>, nat), ErrorModel>((set@, (next - pos) as nat)),
            Err(e) => flag_set(tokens.deep_view(), pos as int) == Err::<
                (Seq<Flag>, nat),
                ErrorModel>(e@),
        },
{
    if pos >= tokens.len() || !tokens[pos].is_open() {
        return Err(SchemaError::UnexpectedToken);
    }
    let ghost toks = tokens.deep_view();
    let mut items: Vec<Flag> = Vec::new();
    let mut cur: usize = pos + 1;
    while cur < tokens.len()
        invariant
            pos < cur <= tokens.len(),
            toks == tokens.deep_view(),
            toks[pos as int] == Tok::Open,
            items@.no_duplicates(),
            flag_items(toks, pos + 1, Seq::empty()) == advance(
                flag_items(toks, cur as int, items@),
                (cur - pos - 1) as nat,
            ),
        decreases tokens.len() - cur,
    {
        match &tokens[cur] {
            Token::Close => {
                return Ok((FlagSet { items }, cur + 1));
            },
            Token::Ident(name) => {
                match Flag::from_name(name.as_slice()) {
                    None => {
                        return Err(SchemaError::UnknownFlag);
                    },
                    Some(flag) => {
                        if has_flag(&items, flag) {
                            return Err(SchemaError::DuplicateItem);
                        }
                        proof {
                            lemma_push_fresh(items@, flag);
                        }
                        items.push(flag);
                        if cur + 1 < tokens.len() && tokens[cur + 1].is_comma() {
                            cur = cur + 2;
                        } else if cur + 1 < tokens.len() && tokens[cur + 1].is_close() {
                            return Ok((FlagSet { items }, cur + 2));
                        } else {
                            return Err(SchemaError::UnexpectedToken);
                        }
                    },
                }
            },
            _ => {
                return Err(SchemaError::UnexpectedToken);
            },
        }
    }
    Err(SchemaError::UnexpectedToken)
}

/// Reads the service written at `pos`.
pub fn parse_service(tokens: &[Token], pos: usize) -> (r: Result<(Service, usize), SchemaError>)
    ensures
        match r {
            Ok((service, next)) => pos < next <= tokens.len() && service_at(
                tokens.deep_view(),
                pos as int,
            ) == Ok::<(ServiceItem, nat), ErrorModel>((service@, (next - pos) as nat)),
            Err(e) => service_at(tokens.deep_view(), pos as int) == Err::<
                (ServiceItem, nat),
                ErrorModel>(e@),
        },
{
    if pos >= tokens.len() {
        return Err(SchemaError::UnexpectedToken);
    }
    match &tokens[pos] {
        Token::Ident(name) => {
            if is_word(name.as_slice(), "Custom") {
                if tokens.len() - pos > 3 && tokens[pos + 1].is_open() && tokens[pos + 3].is_close() {
                    match &tokens[pos + 2] {
                        Token::Str(text) => {
                            let uuid = Uuid::parse(text.as_slice())?;
                            Ok((Service::Custom(uuid), pos + 4))
                        },
                        _ => Err(SchemaError::UnexpectedToken),
                    }
                } else {
                    Err(SchemaError::UnexpectedToken)
                }
            } else {
                match BasicService::from_name(name.as_slice()) {
                    Some(service) => Ok((Service::Basic16(service), pos + 1)),
                    None => Err(SchemaError::UnknownService),
                }
            }
        },
        _ => Err(SchemaError::UnexpectedToken),
    }
}

fn parse_service_items(tokens: &[Token], pos: usize) -> (r: Result<(Vec<Service>, usize), SchemaError>)
    requires
        pos <= tokens.len(),
    ensures
        match r {
            Ok((items, next)) => pos < next <= tokens.len() && items.deep_view().no_duplicates()
                && service_items(tokens.deep_view(), pos as int, Seq::empty()) == Ok::<
                (Seq<ServiceItem>, nat),
                ErrorModel,
            >((items.deep_view(), (next - pos) as nat)),
            Err(e) => service_items(tokens.deep_view(), pos as int, Seq::empty()) == Err::<
                (Seq<ServiceItem>, nat),
                ErrorModel>(e@),
        },
{
    let ghost toks = tokens.deep_view();
    let mut items: Vec<Service> = Vec::new();
    let mut cur: usize = pos;
    assert(items.deep_view() =~= Seq::empty());
    while cur < tokens.len()
        invariant
            pos <= cur <= tokens.len(),
            toks == tokens.deep_view(),
            items.deep_view().no_duplicates(),
            service_items(toks, pos as int, Seq::empty()) == advance(
                service_items(toks, cur as int, items.deep_view()),
                (cur - pos) as nat,
            ),
        decreases tokens.len() - cur,
    {
        if tokens[cur].is_close() {
            return Ok((items, cur + 1));
        }
        let (service, next) = parse_service(tokens, cur)?;
        if has_service(&items, &service) {
            return Err(SchemaError::DuplicateItem);
        }
        let ghost before = items.deep_view();
        proof {
            lemma_push_fresh(before, service@);
        }
        items.push(service);
        assert(items.deep_view() =~= before.push(service@));
        if next < tokens.len() && tokens[next].is_comma() {
            cur = next + 1;
        } else if next < tokens.len() && tokens[next].is_close() {
            return Ok((items, next + 1));
        } else {
            return Err(SchemaError::UnexpectedToken);
        }
    }
    Err(SchemaError::UnexpectedToken)
}

fn tag_of(name: &[u8]) -> (r: Option<(Width, bool)>)
    ensures
        r == list_tag(name@),
{
    if is_word(name, "Incomplete16") {
        Some((Width::Bits16, false))
    } else if is_word(name, "Complete16") {
        Some((Width::Bits16, true))
    } else if is_word(name, "Incomplete32") {
        Some((Width::Bits32, false))
    } else if is_word(name, "Complete32") {
        Some((Width::Bits32, true))
    } else if is_word(name, "Incomplete128") {
        Some((Width::Bits128, false))
    } else if is_word(name, "Complete128") {
        Some((Width::Bits128, true))
    } else {
        None
    }
}

/// Reads the service list that starts at `pos` with its tag.
pub fn parse_services(tokens: &[Token], pos: usize) -> (r: Result<(Services, usize), SchemaError>)
    ensures
        match r {
            Ok((services, next)) => pos < next <= tokens.len() && services.wf() && service_list(
                tokens.deep_view(),
                pos as int,
            ) == Ok::<(ServicesModel, nat), ErrorModel>((services@, (next - pos) as nat)),
            Err(e) => service_list(tokens.deep_view(), pos as int) == Err::<
                (ServicesModel, nat),
                ErrorModel>(e@),
        },
{
    if tokens.len() < 2 || pos >= tokens.len() - 1 {
        return Err(SchemaError::UnexpectedToken);
    }
    match &tokens[pos] {
        Token::Ident(name) => {
            if !tokens[pos + 1].is_open() {
                return Err(SchemaError::UnexpectedToken);
            }
            let (items, next) = parse_service_items(tokens, pos + 2)?;
            match tag_of(name.as_slice()) {
                None => Err(SchemaError::UnknownServiceList),
                Some((width, complete)) => {
                    if items.len() == 0 {
                        Err(SchemaError::EmptyServiceList)
                    } else {
                        Ok((Services { width, complete, items }, next))
                    }
                },
            }
        },
        _ => Err(SchemaError::UnexpectedToken),
    }
}

fn parse_name(tokens: &[Token], pos: usize) -> (r: Result<(Vec<u8>, usize), SchemaError>)
    ensures
        match r {
            Ok((name, next)) => pos < next <= tokens.len() && name_at(
                tokens.deep_view(),
                pos as int,
            ) == Ok::<(Seq<u8>, nat), ErrorModel>((name@, (next - pos) as nat)),
            Err(e) => name_at(tokens.deep_view(), pos as int) == Err::<
                (Seq<u8>, nat),
                ErrorModel>(e@),
        },
{
    if pos >= tokens.len() {
        return Err(SchemaError::UnexpectedToken);
    }
    match &tokens[pos] {
        Token::Str(text) => {
            let name = text.clone();
            Ok((name, pos + 1))
        },
        _ => Err(SchemaError::UnexpectedToken),
    }
}

fn add_field(tokens: &[Token], pos: usize, key: &[u8], data: AdvertisementData) -> (r: Result<
    (AdvertisementData, usize),
    SchemaError,
>)
    requires
        data@.wf(),
    ensures
        match r {
            Ok((after, next)) => pos < next <= tokens.len() && after@.wf() && with_field(
                tokens.deep_view(),
                pos as int,
                key@,
                data@,
            ) == Ok::<(AdvertisementModel, nat), ErrorModel>((after@, (next - pos) as nat)),
            Err(e) => with_field(tokens.deep_view(), pos as int, key@, data@) == Err::<
                (AdvertisementModel, nat),
                ErrorModel>(e@),
        },
{
    let mut data = data;
    if is_word(key, "flags") {
        if data.flags.is_some() {
            return Err(SchemaError::MultipleField(AdvField::Flags));
        }
        let (flags, next) = parse_flag_set(tokens, pos)?;
        data.flags = Some(flags);
        Ok((data, next))
    } else if is_word(key, "services") {
        if data.services.is_some() {
            return Err(SchemaError::MultipleField(AdvField::Services));
        }
        let (services, next) = parse_services(tokens, pos)?;
        data.services = Some(services);
        Ok((data, next))
    } else if is_word(key, "short_name") {
        if data.short_name.is_some() {
            return Err(SchemaError::MultipleField(AdvField::ShortName));
        }
        let (name, next) = parse_name(tokens, pos)?;
        data.short_name = Some(name);
        Ok((data, next))
    } else if is_word(key, "full_name") {
        if data.full_name.is_some() {
            return Err(SchemaError::MultipleField(AdvField::FullName));
        }
        let (name, next) = parse_name(tokens, pos)?;
        data.full_name = Some(name);
        Ok((data, next))
    } else {
        Err(SchemaError::UnknownField(slice_to_vec(key)))
    }
}

impl AdvertisementData {
    /// Reads an advertisement schema. What comes out names no flag and no
    /// service twice.
    pub fn parse(tokens: &[Token]) -> (r: Result<AdvertisementData, SchemaError>)
        ensures
            match r {
                Ok(data) => data@.wf() && parse_advertisement(tokens.deep_view()) == Ok::<
                    AdvertisementModel,
                    ErrorModel,
                >(data@),
                Err(e) => parse_advertisement(tokens.deep_view()) == Err::<
                    AdvertisementModel,
                    ErrorModel>(e@),
            },
    {
        let ghost toks = tokens.deep_view();
        let mut data = AdvertisementData {
            flags: None,
            services: None,
            short_name: None,
            full_name: None,
        };
        let mut pos: usize = 0;
        while pos < tokens.len()
            invariant
                pos <= tokens.len(),
                toks == tokens.deep_view(),
                data@.wf(),
                parse_advertisement(toks) == fields_from(toks, pos as int, data@),
            decreases tokens.len() - pos,
        {
            match &tokens[pos] {
                Token::Ident(key) => {
                    if !(tokens.len() - pos > 1 && tokens[pos + 1].is_colon()) {
                        return Err(SchemaError::UnexpectedToken);
                    }
                    let (after, next) = add_field(tokens, pos + 2, key.as_slice(), data)?;
                    data = after;
                    if next >= tokens.len() {
                        return Ok(data);
                    }
                    if !tokens[next].is_comma() {
                        return Err(SchemaError::UnexpectedToken);
                    }
                    pos = next + 1;
                },
                _ => {
                    return Err(SchemaError::UnexpectedToken);
                },
            }
        }
        Ok(data)
    }
}

/// The key under which a field is declared.
pub open spec fn field_key(field: AdvField) -> Seq<u8> {
    match field {
        AdvField::Flags => "flags".spec_bytes(),
        AdvField::Services => "services".spec_bytes(),
        AdvField::ShortName => "short_name".spec_bytes(),
        AdvField::FullName => "full_name".spec_bytes(),
    }
}

/// Whether an advertisement declares a field.
pub open spec fn declares(data: AdvertisementModel, field: AdvField) -> bool {
    match field {
        AdvField::Flags => data.flags is Some,
        AdvField::Services => data.services is Some,
        AdvField::ShortName => data.short_name is Some,
        AdvField::FullName => data.full_name is Some,
    }
}

/// The four keys are four different words.
pub proof fn lemma_keys_differ(a: AdvField, b: AdvField)
    requires
        a != b,
    ensures
        field_key(a) != field_key(b),
{
    reveal_strlit("flags");
    reveal_strlit("services");
    reveal_strlit("short_name");
    reveal_strlit("full_name");
    is_ascii_chars_encode_utf8("flags"@);
    is_ascii_chars_encode_utf8("services"@);
    is_ascii_chars_encode_utf8("short_name"@);
    is_ascii_chars_encode_utf8("full_name"@);
}

/// A field that is declared already is refused when its key comes again,
/// whatever follows the key.
pub proof fn lemma_repeated_field(
    toks: Seq<Tok>,
    pos: int,
    field: AdvField,
    data: AdvertisementModel,
)
    requires
        declares(data, field),
    ensures
        with_field(toks, pos, field_key(field), data) == Err::<
            (AdvertisementModel, nat),
            ErrorModel,
        >(ErrorModel::MultipleField(field)),
{
    if field != AdvField::Flags {
        lemma_keys_differ(field, AdvField::Flags);
    }
    if field != AdvField::Services {
        lemma_keys_differ(field, AdvField::Services);
    }
    if field != AdvField::ShortName {
        lemma_keys_differ(field, AdvField::ShortName);
    }
}

/// No flag set that is accepted names a flag twice.
pub proof fn lemma_flags_unique(toks: Seq<Tok>, pos: int, found: Seq<Flag>)
    requires
        found.no_duplicates(),
    ensures
        flag_items(toks, pos, found) matches Ok((items, _)) ==> items.no_duplicates(),
    decreases toks.len() - pos,
{
    if 0 <= pos < toks.len() {
        match toks[pos] {
            Tok::Ident(name) => match flag_named(name) {
                Some(flag) => {
                    if !found.contains(flag) {
                        lemma_push_fresh(found, flag);
                        if pos + 1 < toks.len() && toks[pos + 1] == Tok::Comma {
                            lemma_flags_unique(toks, pos + 2, found.push(flag));
                        }
                    }
                },
                None => {},
            },
            _ => {},
        }
    }
}

/// No service set that is accepted names a service twice.
pub proof fn lemma_services_unique(toks: Seq<Tok>, pos: int, found: Seq<ServiceItem>)
    requires
        found.no_duplicates(),
    ensures
        service_items(toks, pos, found) matches Ok((items, _)) ==> items.no_duplicates(),
    decreases toks.len() - pos,
{
    if 0 <= pos < toks.len() && toks[pos] != Tok::Close {
        match service_at(toks, pos) {
            Ok((service, n)) => {
                if !found.contains(service) {
                    lemma_push_fresh(found, service);
                    if pos + n < toks.len() && toks[pos + n] == Tok::Comma {
                        lemma_services_unique(toks, pos + n + 1, found.push(service));
                    }
                }
            },
            Err(_) => {},
        }
    }
}

/// A schema that is accepted names no flag and no service twice: a set
/// with the same item twice is refused.
pub proof fn lemma_accepted_is_sound(toks: Seq<Tok>)
    ensures
        parse_advertisement(toks) matches Ok(data) ==> data.wf(),
{
    lemma_fields_sound(toks, 0, empty_advertisement());
}

proof fn lemma_fields_sound(toks: Seq<Tok>, pos: int, data: AdvertisementModel)
    requires
        data.wf(),
    ensures
        fields_from(toks, pos, data) matches Ok(after) ==> after.wf(),
    decreases toks.len() - pos,
{
    if 0 <= pos < toks.len() {
        match toks[pos] {
            Tok::Ident(key) => {
                if pos + 1 < toks.len() && toks[pos + 1] == Tok::Colon {
                    lemma_flags_unique(toks, pos + 3, Seq::empty());
                    lemma_services_unique(toks, pos + 4, Seq::empty());
                    match with_field(toks, pos + 2, key, data) {
                        Ok((after, n)) => {
                            if pos + 2 + n < toks.len() && toks[pos + 2 + n] == Tok::Comma {
                                lemma_fields_sound(toks, pos + 2 + n + 1, after);
                            }
                        },
                        Err(_) => {},
                    }
                }
            },
            _ => {},
        }
    }
}

/// A flag that the set holds already is refused where it is named again.
pub proof fn lemma_second_flag_refused(toks: Seq<Tok>, pos: int, found: Seq<Flag>, flag: Flag)
    requires
        0 <= pos < toks.len(),
        toks[pos] matches Tok::Ident(name) && flag_named(name) == Some(flag),
        found.contains(flag),
    ensures
        flag_items(toks, pos, found) == Err::<(Seq<Flag>, nat), ErrorModel>(
            ErrorModel::DuplicateItem,
        ),
{
}

/// A service that the set holds already is refused where it is written
/// again.
pub proof fn lemma_second_service_refused(
    toks: Seq<Tok>,
    pos: int,
    found: Seq<ServiceItem>,
    service: ServiceItem,
)
    requires
        0 <= pos < toks.len(),
        service_at(toks, pos) matches Ok((s, _)) && s == service,
        found.contains(service),
    ensures
        service_items(toks, pos, found) == Err::<(Seq<ServiceItem>, nat), ErrorModel>(
            ErrorModel::DuplicateItem,
        ),
{
}

} // verus!
