//! Renders the fields of an advertisement into advertising-data structures.

use vstd::prelude::*;
use crate::ad_structure::{
    all_fit,
    encode_all,
    lemma_encode_concat,
    lemma_encode_one,
    AdModel,
    MAX_PAYLOAD,
};
use crate::advertisement::{
    services_ad_type,
    spec_services_ad_type,
    AdvertisementData,
    AdvertisementModel,
    Flag,
    FlagSet,
    Service,
    ServiceItem,
    Services,
    ServicesModel,
};
use crate::error::{ErrorModel, SchemaError};
use crate::uuid::{half_word_to_reversed_bytes, le_bytes16};

verus! {

/// The type byte of the flags structure.
pub const AD_FLAGS: u8 = 0x01;

/// The type byte of a shortened local name.
pub const AD_SHORT_NAME: u8 = 0x08;

/// The type byte of a complete local name.
pub const AD_FULL_NAME: u8 = 0x09;

/// The flags byte: the bitwise OR of the bits of the flags.
pub open spec fn flags_byte(flags: Seq<Flag>) -> u8
    decreases flags.len(),
{
    if flags.len() == 0 {
        0
    } else {
        flags_byte(flags.drop_last()) | flags.last().spec_bit()
    }
}

/// The payload of a service list: the bytes of each service, in order.
pub open spec fn services_payload(items: Seq<ServiceItem>) -> Seq<u8>
    decreases items.len(),
{
    if items.len() == 0 {
        Seq::empty()
    } else {
        services_payload(items.drop_last()) + items.last().bytes()
    }
}

/// The structure that a flag set renders to.
pub open spec fn flags_structure(flags: Seq<Flag>) -> AdModel {
    AdModel { ad_type: AD_FLAGS, payload: seq![flags_byte(flags)] }
}

/// The structure that a service list renders to.
pub open spec fn services_structure(services: ServicesModel) -> AdModel {
    AdModel {
        ad_type: spec_services_ad_type(services.width, services.complete),
        payload: services_payload(services.items),
    }
}

/// The structure that a name renders to: the bytes of the name under the
/// type of a complete name or of a shortened one.
pub open spec fn name_structure(full: bool, name: Seq<u8>) -> AdModel {
    AdModel {
        ad_type: if full {
            AD_FULL_NAME
        } else {
            AD_SHORT_NAME
        },
        payload: name,
    }
}

/// The structure of a field that may be missing.
pub open spec fn optional(structure: Option<AdModel>) -> Seq<AdModel> {
    match structure {
        Some(s) => seq![s],
        None => Seq::empty(),
    }
}

/// The structures of an advertisement, one for each field that is there, in
/// the order flags, services, short name, full name.
pub open spec fn structures_of(data: AdvertisementModel) -> Seq<AdModel> {
    optional(
        match data.flags {
            Some(flags) => Some(flags_structure(flags)),
            None => None,
        },
    ) + optional(
        match data.services {
            Some(services) => Some(services_structure(services)),
            None => None,
        },
    ) + optional(
        match data.short_name {
            Some(name) => Some(name_structure(false, name)),
            None => None,
        },
    ) + optional(
        match data.full_name {
            Some(name) => Some(name_structure(true, name)),
            None => None,
        },
    )
}

/// What rendering a structure comes to: its length byte and its bytes where
/// the payload fits the length byte, else a fault.
pub open spec fn rendered(structure: AdModel, r: Result<(u8, Vec<u8>), SchemaError>) -> bool {
    match r {
        Ok((length, bytes)) => structure.fits() && length == structure.length()
            && bytes@ == structure.encode(),
        Err(e) => !structure.fits() && e@ == ErrorModel::StructureTooLong,
    }
}

fn render(ad_type: u8, payload: &Vec<u8>) -> (r: Result<(u8, Vec<u8>), SchemaError>)
    ensures
        rendered(AdModel { ad_type, payload: payload@ }, r),
{
    if payload.len() > MAX_PAYLOAD {
        return Err(SchemaError::StructureTooLong);
    }
    let length: u8 = (payload.len() + 1) as u8;
    let mut bytes: Vec<u8> = Vec::new();
    bytes.push(length);
    bytes.push(ad_type);
    let mut i: usize = 0;
    while i < payload.len()
        invariant
            i <= payload.len(),
            bytes@ == seq![length, ad_type] + payload@.subrange(0, i as int),
        decreases payload.len() - i,
    {
        bytes.push(payload[i]);
        i = i + 1;
    }
    assert(payload@.subrange(0, payload@.len() as int) =~= payload@);
    Ok((length, bytes))
}

/// Renders a flag set: always the three bytes `02 01` and the flags byte.
pub fn render_flags(input: &FlagSet) -> (r: (u8, Vec<u8>))
    ensures
        r.0 == 2,
        r.1@ == seq![2u8, AD_FLAGS, flags_byte(input@)],
        r.1@ == flags_structure(input@).encode(),
{
    let mut byte: u8 = 0;
    let mut i: usize = 0;
    while i < input.items.len()
        invariant
            i <= input.items.len(),
            byte == flags_byte(input.items@.subrange(0, i as int)),
        decreases input.items.len() - i,
    {
        assert(input.items@.subrange(0, i + 1).drop_last() =~= input.items@.subrange(0, i as int));
        byte = byte | input.items[i].bit();
        i = i + 1;
    }
    assert(input.items@.subrange(0, i as int) =~= input@);
    let mut bytes: Vec<u8> = Vec::new();
    bytes.push(2);
    bytes.push(AD_FLAGS);
    bytes.push(byte);
    (2, bytes)
}

/// Renders a service list: the bytes of each service's UUID after the type
/// byte that its width and completeness select.
pub fn render_services(services: &Services) -> (r: Result<(u8, Vec<u8>), SchemaError>)
    ensures
        rendered(services_structure(services@), r),
{
    let ghost items = services.items.deep_view();
    let mut payload: Vec<u8> = Vec::new();
    let mut i: usize = 0;
    while i < services.items.len()
        invariant
            i <= services.items.len(),
            items == services.items.deep_view(),
            payload@ == services_payload(items.subrange(0, i as int)),
        decreases services.items.len() - i,
    {
        assert(items.subrange(0, i + 1).drop_last() =~= items.subrange(0, i as int));
        match &services.items[i] {
            Service::Basic16(service) => {
                let (small, big) = half_word_to_reversed_bytes(service.uuid16());
                payload.push(small);
                payload.push(big);
                assert(payload@ =~= services_payload(items.subrange(0, i as int)) + seq![
                    small,
                    big,
                ]);
            },
            Service::Custom(uuid) => {
                let ghost before = payload@;
                let bytes = uuid.to_le_bytes();
                let mut k: usize = 0;
                while k < bytes.len()
                    invariant
                        k <= bytes.len(),
                        payload@ == before + bytes@.subrange(0, k as int),
                    decreases bytes.len() - k,
                {
                    payload.push(bytes[k]);
                    k = k + 1;
                }
            },
        }
        i = i + 1;
    }
    assert(items.subrange(0, i as int) =~= items);
    render(services_ad_type(services.width, services.complete), &payload)
}

/// Renders a name: its bytes after the type byte of a complete name where
/// `full` is set, of a shortened name where it is not.
pub fn render_name(full: bool, input: &Vec<u8>) -> (r: Result<(u8, Vec<u8>), SchemaError>)
    ensures
        rendered(name_structure(full, input@), r),
{
    let ad_type: u8 = if full {
        AD_FULL_NAME
    } else {
        AD_SHORT_NAME
    };
    render(ad_type, input)
}

/// What rendering an advertisement comes to: the number of its bytes and the
/// bytes of its structures, one after the other, where each structure fits
/// its length byte; else a fault.
pub open spec fn rendered_data(data: AdvertisementModel, r: Result<(usize, Vec<u8>), SchemaError>) -> bool {
    match r {
        Ok((length, bytes)) => all_fit(structures_of(data)) && bytes@ == encode_all(
            structures_of(data),
        ) && length == bytes@.len(),
        Err(e) => !all_fit(structures_of(data)) && e@ == ErrorModel::StructureTooLong,
    }
}

fn append(out: &mut Vec<u8>, bytes: &Vec<u8>)
    ensures
        final(out)@ == old(out)@ + bytes@,
{
    let ghost before = out@;
    let mut k: usize = 0;
    while k < bytes.len()
        invariant
            k <= bytes.len(),
            out@ == before + bytes@.subrange(0, k as int),
        decreases bytes.len() - k,
    {
        out.push(bytes[k]);
        k = k + 1;
    }
}

/// Renders the fields of an advertisement, one structure for each field that
/// is there, in the order flags, services, short name, full name. No limit
/// is put on the number of bytes.
pub fn render_data(data: &AdvertisementData) -> (r: Result<(usize, Vec<u8>), SchemaError>)
    ensures
        rendered_data(data@, r),
{
    let mut out: Vec<u8> = Vec::new();
    let ghost mut done: Seq<AdModel> = Seq::empty();
    let ghost first = optional(
        match data@.flags {
            Some(flags) => Some(flags_structure(flags)),
            None => None,
        },
    );
    let ghost second = optional(
        match data@.services {
            Some(services) => Some(services_structure(services)),
            None => None,
        },
    );
    let ghost third = optional(
        match data@.short_name {
            Some(name) => Some(name_structure(false, name)),
            None => None,
        },
    );
    let ghost fourth = optional(
        match data@.full_name {
            Some(name) => Some(name_structure(true, name)),
            None => None,
        },
    );
    if let Some(flags) = &data.flags {
        let (_, bytes) = render_flags(flags);
        append(&mut out, &bytes);
        proof {
            lemma_encode_one(flags_structure(flags@));
            lemma_encode_concat(done, first);
        }
    }
    proof {
        done = done + first;
    }
    assert(out@ == encode_all(done) && all_fit(done));
    if let Some(services) = &data.services {
        match render_services(services) {
            Ok((_, bytes)) => {
                append(&mut out, &bytes);
                proof {
                    lemma_encode_one(services_structure(services@));
                    lemma_encode_concat(done, second);
                }
            },
            Err(e) => {
                assert(!structures_of(data@)[done.len() as int].fits());
                return Err(e);
            },
        }
    }
    proof {
        done = done + second;
    }
    assert(out@ == encode_all(done) && all_fit(done));
    if let Some(name) = &data.short_name {
        match render_name(false, name) {
            Ok((_, bytes)) => {
                append(&mut out, &bytes);
                proof {
                    lemma_encode_one(name_structure(false, name@));
                    lemma_encode_concat(done, third);
                }
            },
            Err(e) => {
                assert(!structures_of(data@)[done.len() as int].fits());
                return Err(e);
            },
        }
    }
    proof {
        done = done + third;
    }
    assert(out@ == encode_all(done) && all_fit(done));
    if let Some(name) = &data.full_name {
        match render_name(true, name) {
            Ok((_, bytes)) => {
                append(&mut out, &bytes);
                proof {
                    lemma_encode_one(name_structure(true, name@));
                    lemma_encode_concat(done, fourth);
                }
            },
            Err(e) => {
                assert(!structures_of(data@)[done.len() as int].fits());
                return Err(e);
            },
        }
    }
    proof {
        done = done + fourth;
    }
    assert(done == structures_of(data@));
    Ok((out.len(), out))
}

/// The flags byte has the bit of a flag set exactly where the set holds the
/// flag.
pub proof fn lemma_flags_byte_bits(flags: Seq<Flag>, flag: Flag)
    ensures
        (flags_byte(flags) & flag.spec_bit() != 0) <==> flags.contains(flag),
    decreases flags.len(),
{
    let f = flag.spec_bit();
    if flags.len() == 0 {
        assert(0u8 & f == 0) by (bit_vector);
    } else {
        let init = flags.drop_last();
        let last = flags.last();
        let x = flags_byte(init);
        let b = last.spec_bit();
        lemma_flags_byte_bits(init, flag);
        assert(((x | b) & f != 0) <==> (x & f != 0) || (b & f != 0)) by (bit_vector);
        assert((b == 1 || b == 2 || b == 4 || b == 8 || b == 16) && (f == 1 || f == 2 || f == 4
            || f == 8 || f == 16) ==> ((b & f != 0) <==> b == f)) by (bit_vector);
        if flags.contains(flag) {
            let i = choose|i: int| 0 <= i < flags.len() && flags[i] == flag;
            if i < init.len() {
                assert(init[i] == flag);
            }
        }
    }
}

} // verus!
