//! From the tokens of an advertisement schema to the bytes of the
//! advertisement.

use vstd::prelude::*;
use crate::ad_structure::{
    all_fit,
    decode_all,
    encode_all,
    lemma_decode_encode,
    lemma_encoded_length,
    total_length,
};
use crate::adv_parser::parse_advertisement;
use crate::advertisement::{AdvertisementData, AdvertisementModel};
use crate::encoder::{render_data, structures_of};
use crate::error::{ErrorModel, SchemaError};
use crate::token::{Tok, Token};

verus! {

/// The bytes that an advertisement schema renders to: those of its
/// structures, one after the other, where the schema is sound and each
/// structure fits its length byte.
pub open spec fn adv_data_of(toks: Seq<Tok>) -> Result<Seq<u8>, ErrorModel> {
    match parse_advertisement(toks) {
        Err(e) => Err(e),
        Ok(data) => if all_fit(structures_of(data)) {
            Ok(encode_all(structures_of(data)))
        } else {
            Err(ErrorModel::StructureTooLong)
        },
    }
}

/// The number of bytes that an advertisement takes: the sum, over its
/// structures, of the length byte and what it counts.
pub open spec fn adv_length_of(toks: Seq<Tok>) -> nat {
    match parse_advertisement(toks) {
        Ok(data) => total_length(structures_of(data)),
        Err(_) => 0,
    }
}

/// Reads an advertisement schema and renders it. Besides the bytes it gives
/// their number, on which it puts no limit.
pub fn generate_data(tokens: &[Token]) -> (r: Result<(usize, Vec<u8>), SchemaError>)
    ensures
        match r {
            Ok((length, bytes)) => adv_data_of(tokens.deep_view()) == Ok::<Seq<u8>, ErrorModel>(
                bytes@,
            ) && length == bytes@.len() && length == adv_length_of(tokens.deep_view()),
            Err(e) => adv_data_of(tokens.deep_view()) == Err::<Seq<u8>, ErrorModel>(e@),
        },
{
    let data = AdvertisementData::parse(tokens)?;
    proof {
        lemma_encoded_length(structures_of(data@));
    }
    render_data(&data)
}

/// The bytes of the advertisement that a schema declares.
pub fn generate_adv_data(tokens: &[Token]) -> (r: Result<Vec<u8>, SchemaError>)
    ensures
        match r {
            Ok(bytes) => adv_data_of(tokens.deep_view()) == Ok::<Seq<u8>, ErrorModel>(bytes@),
            Err(e) => adv_data_of(tokens.deep_view()) == Err::<Seq<u8>, ErrorModel>(e@),
        },
{
    let (_, bytes) = generate_data(tokens)?;
    Ok(bytes)
}

/// Reading the rendered bytes of an advertisement back into structures
/// gives the structures of its fields: the same types, lengths and
/// payloads, in the order in which the fields are rendered.
pub proof fn lemma_render_round_trip(data: AdvertisementModel)
    requires
        all_fit(structures_of(data)),
    ensures
        decode_all(encode_all(structures_of(data))) == Some(structures_of(data)),
{
    lemma_decode_encode(structures_of(data));
}

} // verus!
