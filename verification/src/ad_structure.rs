//! Advertising-data structures: a length byte, a type byte and a payload.

use vstd::prelude::*;

verus! {

/// One structure of an advertisement. Its length byte counts the type byte
/// and the payload.
#[derive(Debug)]
pub struct AdStructure {
    pub ad_type: u8,
    pub payload: Vec<u8>,
}

/// A structure as a value.
pub struct AdModel {
    pub ad_type: u8,
    pub payload: Seq<u8>,
}

impl View for AdStructure {
    type V = AdModel;

    open spec fn view(&self) -> AdModel {
        AdModel { ad_type: self.ad_type, payload: self.payload@ }
    }
}

impl DeepView for AdStructure {
    type V = AdModel;

    open spec fn deep_view(&self) -> AdModel {
        self@
    }
}

/// The greatest payload that a length byte can announce.
pub const MAX_PAYLOAD: usize = 254;

impl AdModel {
    /// What the length byte says: the payload and the type byte.
    pub open spec fn length(self) -> nat {
        self.payload.len() + 1
    }

    /// Whether the length fits its byte.
    pub open spec fn fits(self) -> bool {
        self.payload.len() <= MAX_PAYLOAD
    }

    /// The bytes of the structure: length, type, payload.
    pub open spec fn encode(self) -> Seq<u8> {
        seq![self.length() as u8, self.ad_type] + self.payload
    }
}

/// Whether each of the structures fits its length byte.
pub open spec fn all_fit(structures: Seq<AdModel>) -> bool {
    forall|i: int| 0 <= i < structures.len() ==> (#[trigger] structures[i]).fits()
}

/// The bytes of a run of structures, one after the other.
pub open spec fn encode_all(structures: Seq<AdModel>) -> Seq<u8>
    decreases structures.len(),
{
    if structures.len() == 0 {
        Seq::empty()
    } else {
        structures[0].encode() + encode_all(structures.drop_first())
    }
}

/// The structures that a run of bytes holds, if it is made of structures and
/// nothing else. A length of zero announces no structure, and a length that
/// reaches past the end is cut short: neither is a run of structures.
pub open spec fn decode_all(bytes: Seq<u8>) -> Option<Seq<AdModel>>
    decreases bytes.len(),
{
    if bytes.len() == 0 {
        Some(Seq::empty())
    } else {
        let length = bytes[0] as int;
        if length == 0 || 1 + length > bytes.len() {
            None
        } else {
            match decode_all(bytes.skip(1 + length)) {
                Some(rest) => Some(
                    seq![AdModel { ad_type: bytes[1], payload: bytes.subrange(2, 1 + length) }]
                        + rest,
                ),
                None => None,
            }
        }
    }
}

/// Reading back what was written gives the same structures, with their
/// types, lengths and payloads, in the same order.
pub proof fn lemma_decode_encode(structures: Seq<AdModel>)
    requires
        all_fit(structures),
    ensures
        decode_all(encode_all(structures)) == Some(structures),
    decreases structures.len(),
{
    if structures.len() > 0 {
        let first = structures[0];
        let rest = structures.drop_first();
        let bytes = encode_all(structures);
        assert(all_fit(rest)) by {
            assert forall|i: int| 0 <= i < rest.len() implies (#[trigger] rest[i]).fits() by {
            }
        }
        lemma_decode_encode(rest);
        let head = first.encode();
        assert(bytes.skip(1 + bytes[0] as int) =~= encode_all(rest));
        assert(bytes.subrange(2, 1 + bytes[0] as int) =~= first.payload);
    } else {
    }
}

/// Reads the structures out of the bytes of an advertisement.
pub fn parse_ad_structures(bytes: &[u8]) -> (r: Option<Vec<AdStructure>>)
    ensures
        match r {
            Some(structures) => decode_all(bytes@) == Some(structures.deep_view()),
            None => decode_all(bytes@) is None,
        },
{
    let mut out: Vec<AdStructure> = Vec::new();
    let mut pos: usize = 0;
    assert(bytes@.skip(0) =~= bytes@);
    while pos < bytes.len()
        invariant
            pos <= bytes.len(),
            decode_all(bytes@) == (match decode_all(bytes@.skip(pos as int)) {
                Some(rest) => Some(out.deep_view() + rest),
                None => None,
            }),
        decreases bytes.len() - pos,
    {
        let ghost tail = bytes@.skip(pos as int);
        let length: usize = bytes[pos] as usize;
        if length == 0 || length > bytes.len() - pos - 1 {
            return None;
        }
        let mut payload: Vec<u8> = Vec::new();
        let mut k: usize = pos + 2;
        while k < pos + 1 + length
            invariant
                pos + 2 <= k <= pos + 1 + length,
                pos + 1 + length <= bytes.len(),
                payload@ == bytes@.subrange(pos + 2, k as int),
            decreases pos + 1 + length - k,
        {
            payload.push(bytes[k]);
            k = k + 1;
        }
        let structure = AdStructure { ad_type: bytes[pos + 1], payload };
        assert(structure@.payload =~= tail.subrange(2, 1 + length as int));
        assert(tail.skip(1 + length as int) =~= bytes@.skip(pos + 1 + length));
        out.push(structure);
        pos = pos + 1 + length;
    }
    Some(out)
}

/// The bytes of two runs of structures, one after the other, are the bytes
/// of the first run followed by those of the second.
pub proof fn lemma_encode_concat(a: Seq<AdModel>, b: Seq<AdModel>)
    ensures
        encode_all(a + b) == encode_all(a) + encode_all(b),
    decreases a.len(),
{
    if a.len() > 0 {
        lemma_encode_concat(a.drop_first(), b);
        assert((a + b).drop_first() =~= a.drop_first() + b);
    }
}

/// The bytes of a run of one structure are the bytes of that structure.
pub proof fn lemma_encode_one(s: AdModel)
    ensures
        encode_all(seq![s]) == s.encode(),
{
    assert(encode_all(seq![s]) =~= s.encode() + encode_all(seq![s].drop_first()));
}

/// The number of bytes that a run of structures takes: for each structure
/// its length byte and what the length byte counts.
pub open spec fn total_length(structures: Seq<AdModel>) -> nat
    decreases structures.len(),
{
    if structures.len() == 0 {
        0
    } else {
        1 + structures[0].length() + total_length(structures.drop_first())
    }
}

/// The bytes of a run of structures are as many as the lengths of the
/// structures say.
pub proof fn lemma_encoded_length(structures: Seq<AdModel>)
    ensures
        encode_all(structures).len() == total_length(structures),
    decreases structures.len(),
{
    if structures.len() > 0 {
        lemma_encoded_length(structures.drop_first());
    }
}

} // verus!
