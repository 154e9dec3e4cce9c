//! Auxiliary payload and its canonical encoding.
//!
//! A payload is a tagged tuple: the tag records which call produced the
//! record, and some calls add a caller-supplied number.  The encoding is
//! self-describing — a fixed-width length prefix for the tag and a flag
//! byte for the optional number — so decoding is unambiguous and a decode
//! failure is detectable.

use vstd::prelude::*;
use vstd::bytes::*;

verus! {

/// Flag byte marking a payload without a number.
pub const FLAG_NO_VALUE: u8 = 0;

/// Flag byte marking a payload that carries a number.
pub const FLAG_HAS_VALUE: u8 = 1;

/// An auxiliary payload: which call produced the record, and, for some
/// calls, a caller-supplied number.
#[derive(Debug, PartialEq, Eq)]
pub struct IndexingData {
    pub tag: Vec<u8>,
    pub value: Option<u64>,
}

/// The mathematical view of an auxiliary payload.
pub struct IndexingDataView {
    pub tag: Seq<u8>,
    pub value: Option<u64>,
}

impl View for IndexingData {
    type V = IndexingDataView;

    open spec fn view(&self) -> IndexingDataView {
        IndexingDataView { tag: self.tag@, value: self.value }
    }
}

/// The canonical encoding of a payload: an eight-byte little-endian length
/// prefix, the tag bytes, then either the no-value flag alone or the
/// has-value flag followed by the eight-byte little-endian number.
pub open spec fn encode_spec(d: IndexingDataView) -> Seq<u8>
    recommends
        d.tag.len() <= u64::MAX,
{
    spec_u64_to_le_bytes(d.tag.len() as u64) + d.tag + (match d.value {
        Option::None => seq![FLAG_NO_VALUE],
        Option::Some(v) => seq![FLAG_HAS_VALUE] + spec_u64_to_le_bytes(v),
    })
}

/// The decoding of a byte sequence: `Some` exactly on sequences of the
/// canonical form, with nothing left over, and `None` on every other input.
pub open spec fn decode_spec(s: Seq<u8>) -> Option<IndexingDataView> {
    if s.len() < 9 {
        Option::None
    } else {
        let tag_len = spec_u64_from_le_bytes(s.subrange(0, 8)) as int;
        if s.len() < 9 + tag_len {
            Option::None
        } else {
            let tag = s.subrange(8, 8 + tag_len);
            let flag = s[8 + tag_len];
            if flag == FLAG_NO_VALUE && s.len() == 9 + tag_len {
                Option::Some(IndexingDataView { tag, value: Option::None })
            } else if flag == FLAG_HAS_VALUE && s.len() == 17 + tag_len {
                let value = spec_u64_from_le_bytes(s.subrange(9 + tag_len, 17 + tag_len));
                Option::Some(IndexingDataView { tag, value: Option::Some(value) })
            } else {
                Option::None
            }
        }
    }
}

/// Encodes a payload in the canonical form.
pub fn encode(d: &IndexingData) -> (bytes: Vec<u8>)
    ensures
        bytes@ == encode_spec(d@),
{
    let mut bytes = u64_to_le_bytes(d.tag.len() as u64);
    let mut i: usize = 0;
    while i < d.tag.len()
        invariant
            i <= d.tag@.len(),
            bytes@ == spec_u64_to_le_bytes(d.tag@.len() as u64) + d.tag@.take(i as int),
        decreases d.tag@.len() - i,
    {
        bytes.push(d.tag[i]);
        i = i + 1;
    }
    match d.value {
        Option::None => {
            bytes.push(FLAG_NO_VALUE);
        },
        Option::Some(v) => {
            bytes.push(FLAG_HAS_VALUE);
            let mut encoded_value = u64_to_le_bytes(v);
            bytes.append(&mut encoded_value);
        },
    }
    proof {
        assert(bytes@ =~= encode_spec(d@));
    }
    bytes
}

/// Decodes a byte sequence, accepting exactly the canonical encodings.
pub fn decode(bytes: &Vec<u8>) -> (r: Option<IndexingData>)
    ensures
        match r {
            Option::Some(d) => decode_spec(bytes@) == Option::Some(d@),
            Option::None => decode_spec(bytes@) is None,
        },
{
    if bytes.len() < 9 {
        return Option::None;
    }
    let prefix = vstd::slice::slice_subrange(bytes.as_slice(), 0, 8);
    let tag_len64 = u64_from_le_bytes(prefix);
    proof {
        assert(prefix@ =~= bytes@.subrange(0, 8));
    }
    if tag_len64 > (bytes.len() - 9) as u64 {
        return Option::None;
    }
    let tag_len = tag_len64 as usize;
    let mut tag: Vec<u8> = Vec::new();
    let mut i: usize = 0;
    while i < tag_len
        invariant
            i <= tag_len,
            tag_len + 9 <= bytes@.len(),
            bytes@.len() <= usize::MAX,
            tag@ == bytes@.subrange(8, 8 + i as int),
        decreases tag_len - i,
    {
        tag.push(bytes[8 + i]);
        proof {
            assert(tag@ =~= bytes@.subrange(8, 8 + (i + 1) as int));
        }
        i = i + 1;
    }
    let flag = bytes[8 + tag_len];
    if flag == FLAG_NO_VALUE && bytes.len() == 9 + tag_len {
        Option::Some(IndexingData { tag, value: Option::None })
    } else if flag == FLAG_HAS_VALUE && bytes.len() - 9 - tag_len == 8 {
        let value_bytes = vstd::slice::slice_subrange(bytes.as_slice(), 9 + tag_len, 17 + tag_len);
        let value = u64_from_le_bytes(value_bytes);
        proof {
            assert(value_bytes@ =~= bytes@.subrange(9 + tag_len as int, 17 + tag_len as int));
        }
        Option::Some(IndexingData { tag, value: Option::Some(value) })
    } else {
        Option::None
    }
}

/// Round trip: decoding a canonical encoding recovers exactly the payload
/// that was encoded.
pub proof fn lemma_encode_decode_round_trip(d: IndexingDataView)
    requires
        d.tag.len() <= u64::MAX,
    ensures
        decode_spec(encode_spec(d)) == Option::Some(d),
{
    lemma_auto_spec_u64_to_from_le_bytes();
    let s = encode_spec(d);
    assert(s.subrange(0, 8) =~= spec_u64_to_le_bytes(d.tag.len() as u64));
    assert(spec_u64_from_le_bytes(s.subrange(0, 8)) == d.tag.len());
    assert(s.subrange(8, 8 + d.tag.len() as int) =~= d.tag);
    match d.value {
        Option::None => {
            assert(s[8 + d.tag.len() as int] == FLAG_NO_VALUE);
            assert(s.len() == 9 + d.tag.len());
        },
        Option::Some(v) => {
            assert(s[8 + d.tag.len() as int] == FLAG_HAS_VALUE);
            assert(s.len() == 17 + d.tag.len());
            assert(s.subrange(9 + d.tag.len() as int, 17 + d.tag.len() as int)
                =~= spec_u64_to_le_bytes(v));
            assert(spec_u64_from_le_bytes(spec_u64_to_le_bytes(v)) == v);
        },
    }
}

} // verus!
