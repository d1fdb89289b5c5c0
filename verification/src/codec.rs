//! The byte record that both delivery channels carry.
//!
//! A record is an event's 8-byte tag followed by the event's serialized
//! payload, exactly in that order and with nothing else: the tag always
//! occupies the first 8 bytes, and a decoder must read exactly those 8 bytes
//! before it touches the payload. Payload bytes come from an external binary
//! serializer and pass through here opaque; producing and parsing them is the
//! serializer's and the observer's job.

use vstd::prelude::*;

use crate::bytes::{append_bytes, take_prefix};
use crate::discriminator::TAG_LEN;

verus! {

/// The record carrying `payload` under `tag`: the tag, then the payload.
pub open spec fn encoded_record(tag: Seq<u8>, payload: Seq<u8>) -> Seq<u8> {
    tag + payload
}

/// Lay `payload` out under `tag` as one record.
pub fn encode_record(tag: &Vec<u8>, payload: &Vec<u8>) -> (record: Vec<u8>)
    requires
        tag@.len() == TAG_LEN,
    ensures
        record@ == encoded_record(tag@, payload@),
        record@.len() == TAG_LEN + payload@.len(),
{
    let mut record: Vec<u8> = Vec::new();
    append_bytes(&mut record, tag);
    append_bytes(&mut record, payload);
    proof {
        assert(record@ =~= encoded_record(tag@, payload@));
    }
    record
}

/// Split a record into its leading 8-byte tag and the payload after it.
/// A record too short to hold a whole tag is rejected, never mis-split.
pub fn decode_record(record: &Vec<u8>) -> (parts: Option<(Vec<u8>, Vec<u8>)>)
    ensures
        parts is Some <==> record@.len() >= TAG_LEN,
        (parts matches Some(p) ==> p.0@ == record@.take(TAG_LEN as int) && p.1@ == record@.skip(
            TAG_LEN as int,
        )),
{
    if record.len() < TAG_LEN {
        return None;
    }
    let tag = take_prefix(record, TAG_LEN);
    let mut payload: Vec<u8> = Vec::new();
    let mut i: usize = TAG_LEN;
    while i < record.len()
        invariant
            TAG_LEN <= i <= record@.len(),
            payload@ == record@.subrange(TAG_LEN as int, i as int),
        decreases record@.len() - i,
    {
        proof {
            assert(record@.subrange(TAG_LEN as int, i as int + 1) =~= record@.subrange(
                TAG_LEN as int,
                i as int,
            ).push(record@[i as int]));
        }
        payload.push(record[i]);
        i = i + 1;
    }
    proof {
        assert(payload@ =~= record@.skip(TAG_LEN as int));
    }
    Some((tag, payload))
}

/// Does this record carry the given tag? An observer dispatches payload
/// decoding on the answer and rejects records whose tag it does not know.
pub fn record_has_tag(record: &Vec<u8>, tag: &Vec<u8>) -> (r: bool)
    requires
        tag@.len() == TAG_LEN,
    ensures
        r <==> record@.len() >= TAG_LEN && record@.take(TAG_LEN as int) == tag@,
{
    if record.len() < TAG_LEN {
        return false;
    }
    let prefix = take_prefix(record, TAG_LEN);
    let mut i: usize = 0;
    while i < TAG_LEN
        invariant
            i <= TAG_LEN,
            prefix@ == record@.take(TAG_LEN as int),
            prefix@.len() == TAG_LEN,
            tag@.len() == TAG_LEN,
            record@.len() >= TAG_LEN,
            forall|j: int| 0 <= j < i ==> prefix@[j] == tag@[j],
        decreases TAG_LEN - i,
    {
        if prefix[i] != tag[i] {
            proof {
                assert(record@.take(TAG_LEN as int)[i as int] != tag@[i as int]);
            }
            return false;
        }
        i = i + 1;
    }
    proof {
        assert(record@.take(TAG_LEN as int) =~= tag@);
    }
    true
}

/// Encoding then decoding is lossless: the tag comes back as exactly the
/// first 8 bytes and the payload as exactly the rest, for every payload,
/// the empty one included.
pub proof fn lemma_record_round_trip(tag: Seq<u8>, payload: Seq<u8>)
    requires
        tag.len() == TAG_LEN,
    ensures
        encoded_record(tag, payload).len() >= TAG_LEN,
        encoded_record(tag, payload).take(TAG_LEN as int) == tag,
        encoded_record(tag, payload).skip(TAG_LEN as int) == payload,
{
    assert(encoded_record(tag, payload).take(TAG_LEN as int) =~= tag);
    assert(encoded_record(tag, payload).skip(TAG_LEN as int) =~= payload);
}

} // verus!
