//! Stable 8-byte tags for event types and for the self-call envelope.
//!
//! An event type's tag is the first 8 bytes of the SHA-256 digest of
//! `"event:"` followed by the type's name, so it can be computed once, at
//! type-definition time, by anyone who knows the name — no central registry.
//! The self-call envelope carries its own tag, cut from the digest of the
//! reserved preimage `"anchor:event"`. The two preimage namespaces never
//! overlap, so the envelope tag is distinct from any honest event tag unless
//! the digest itself collides.

use vstd::prelude::*;

use crate::bytes::{append_bytes, take_prefix};
use crate::digest::{sha256, sha256_of};

verus! {

/// Every tag is this many bytes: a record's tag prefix, and the envelope tag.
pub const TAG_LEN: usize = 8;

/// The bytes of `"event:"`, the preimage prefix of every user event tag.
pub open spec fn event_namespace() -> Seq<u8> {
    seq![101u8, 118u8, 101u8, 110u8, 116u8, 58u8]
}

/// The bytes of `"anchor:event"`, the reserved preimage of the envelope tag.
pub open spec fn reserved_namespace() -> Seq<u8> {
    seq![97u8, 110u8, 99u8, 104u8, 111u8, 114u8, 58u8, 101u8, 118u8, 101u8, 110u8, 116u8]
}

/// The digest preimage for an event type of the given name.
pub open spec fn event_preimage(name: Seq<u8>) -> Seq<u8> {
    event_namespace() + name
}

/// The tag of an event type: the first 8 digest bytes of its preimage.
pub open spec fn event_tag_of(name: Seq<u8>) -> Seq<u8> {
    sha256_of(event_preimage(name)).take(TAG_LEN as int)
}

/// The reserved tag of the self-call envelope: the first 8 digest bytes of
/// the reserved preimage, read as one big-endian 64-bit word and laid out in
/// that word's little-endian byte order — the digest prefix reversed. This is
/// the exact prefix observers scan instruction data for.
pub open spec fn envelope_tag() -> Seq<u8> {
    sha256_of(reserved_namespace()).take(TAG_LEN as int).reverse()
}

/// The bytes of `"event:"`.
fn event_namespace_bytes() -> (prefix: Vec<u8>)
    ensures
        prefix@ == event_namespace(),
{
    let mut prefix: Vec<u8> = Vec::new();
    prefix.push(101);
    prefix.push(118);
    prefix.push(101);
    prefix.push(110);
    prefix.push(116);
    prefix.push(58);
    proof {
        assert(prefix@ =~= event_namespace());
    }
    prefix
}

/// The bytes of `"anchor:event"`.
fn reserved_namespace_bytes() -> (preimage: Vec<u8>)
    ensures
        preimage@ == reserved_namespace(),
{
    let mut preimage: Vec<u8> = Vec::new();
    preimage.push(97);
    preimage.push(110);
    preimage.push(99);
    preimage.push(104);
    preimage.push(111);
    preimage.push(114);
    preimage.push(58);
    preimage.push(101);
    preimage.push(118);
    preimage.push(101);
    preimage.push(110);
    preimage.push(116);
    proof {
        assert(preimage@ =~= reserved_namespace());
    }
    preimage
}

/// The 8-byte tag of the event type named `name` (the type's identifier, as
/// UTF-8 bytes). A pure function of the name: every call with the same name
/// returns the same tag, on any machine, so the tag can be computed once and
/// treated as a constant of the type.
pub fn derive_event_discriminator(name: &Vec<u8>) -> (tag: Vec<u8>)
    ensures
        tag@ == event_tag_of(name@),
        tag@.len() == TAG_LEN,
{
    let mut preimage = event_namespace_bytes();
    append_bytes(&mut preimage, name);
    let digest = sha256(&preimage);
    take_prefix(&digest, TAG_LEN)
}

/// The reserved 8-byte tag that prefixes every self-call envelope. Derived
/// like an event tag but from the reserved preimage — so it lies outside the
/// preimage namespace of user event types — and laid out in the little-endian
/// order of [`envelope_tag`].
pub fn instruction_envelope_tag() -> (tag: Vec<u8>)
    ensures
        tag@ == envelope_tag(),
        tag@.len() == TAG_LEN,
{
    let preimage = reserved_namespace_bytes();
    let digest = sha256(&preimage);
    let mut tag: Vec<u8> = Vec::new();
    let mut i: usize = 0;
    while i < TAG_LEN
        invariant
            i <= TAG_LEN,
            digest@ == sha256_of(reserved_namespace()),
            digest@.len() == 32,
            tag@.len() == i,
            forall|j: int| 0 <= j < i ==> tag@[j] == digest@[TAG_LEN - 1 - j],
        decreases TAG_LEN - i,
    {
        tag.push(digest[TAG_LEN - 1 - i]);
        i = i + 1;
    }
    proof {
        assert(tag@ =~= envelope_tag());
    }
    tag
}

/// Distinct event type names have distinct digest preimages, so two event
/// tags coincide only if the digest itself collides on distinct inputs.
pub proof fn lemma_event_preimage_injective(n1: Seq<u8>, n2: Seq<u8>)
    requires
        n1 != n2,
    ensures
        event_preimage(n1) != event_preimage(n2),
{
    if event_preimage(n1) == event_preimage(n2) {
        assert(event_preimage(n1).len() == event_namespace().len() + n1.len());
        assert(event_preimage(n2).len() == event_namespace().len() + n2.len());
        assert(n1.len() == n2.len());
        assert forall|i: int| 0 <= i < n1.len() implies n1[i] == n2[i] by {
            assert(event_preimage(n1)[event_namespace().len() + i] == n1[i]);
            assert(event_preimage(n2)[event_namespace().len() + i] == n2[i]);
        }
        assert(n1 =~= n2);
    }
}

/// The reserved preimage of the envelope tag is never the preimage of any
/// event type's tag, whatever the type is named: the envelope tag equals an
/// event tag only if the digest collides on distinct inputs.
pub proof fn lemma_reserved_preimage_distinct(name: Seq<u8>)
    ensures
        reserved_namespace() != event_preimage(name),
{
    assert(reserved_namespace()[0] == 97u8);
    assert(event_preimage(name)[0] == 101u8);
}

} // verus!
