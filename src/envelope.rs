//! Classification of stored encrypted values by their leading bytes.
use vstd::prelude::*;

verus! {

/// What the leading bytes of a stored value say about it.
#[derive(PartialEq, Eq, Structural, Clone, Copy, Debug)]
pub enum EnvelopeKind {
    /// No known version tag: the bytes are taken as plaintext.
    Unrecognized,
    /// Tag `v10`: the rest is a CBC ciphertext.
    LegacyCbc,
    /// Tag `v11`: as `LegacyCbc`, and trailing NUL or backtick characters of
    /// the recovered text are dropped.
    TrimmedCbc,
}

/// Length of the version tag in front of a per-cookie ciphertext.
pub const TAG_LEN: usize = 3;

/// The ASCII tag `v10`.
pub open spec fn tag_v10() -> Seq<u8> {
    seq![0x76u8, 0x31u8, 0x30u8]
}

/// The ASCII tag `v11`.
pub open spec fn tag_v11() -> Seq<u8> {
    seq![0x76u8, 0x31u8, 0x31u8]
}

/// The ASCII marker `DPAPI` in front of a wrapped master key.
pub open spec fn dpapi_marker() -> Seq<u8> {
    seq![0x44u8, 0x50u8, 0x41u8, 0x50u8, 0x49u8]
}

pub open spec fn envelope_kind(envelope: Seq<u8>) -> EnvelopeKind {
    if envelope.len() <= 3 {
        EnvelopeKind::Unrecognized
    } else if envelope.subrange(0, 3) == tag_v10() {
        EnvelopeKind::LegacyCbc
    } else if envelope.subrange(0, 3) == tag_v11() {
        EnvelopeKind::TrimmedCbc
    } else {
        EnvelopeKind::Unrecognized
    }
}

/// The bytes after the version tag.
pub open spec fn envelope_payload(envelope: Seq<u8>) -> Seq<u8> {
    envelope.subrange(3, envelope.len() as int)
}

/// A decoded wrapped-key blob with its `DPAPI` marker removed, if it has one.
pub open spec fn without_dpapi_marker(blob: Seq<u8>) -> Seq<u8> {
    if blob.len() >= 5 && blob.subrange(0, 5) == dpapi_marker() {
        blob.subrange(5, blob.len() as int)
    } else {
        blob
    }
}

/// Whether the first three bytes of `bytes` (which holds at least three) are
/// `v`, `1` and `digit`.
fn has_tag(bytes: &[u8], digit: u8) -> (r: bool)
    requires
        bytes@.len() >= 3,
    ensures
        r <==> bytes@.subrange(0, 3) == seq![0x76u8, 0x31u8, digit],
{
    let r = bytes[0] == 0x76 && bytes[1] == 0x31 && bytes[2] == digit;
    assert(r <==> bytes@.subrange(0, 3) =~= seq![0x76u8, 0x31u8, digit]);
    r
}

/// Classifies a stored value by its first three bytes; a value of three
/// bytes or fewer is never recognized.
pub fn classify(envelope: &[u8]) -> (r: EnvelopeKind)
    ensures
        r == envelope_kind(envelope@),
{
    if envelope.len() <= TAG_LEN {
        EnvelopeKind::Unrecognized
    } else if has_tag(envelope, 0x30) {
        EnvelopeKind::LegacyCbc
    } else if has_tag(envelope, 0x31) {
        EnvelopeKind::TrimmedCbc
    } else {
        EnvelopeKind::Unrecognized
    }
}

/// Whether `envelope` starts with the tag `v10`.
pub fn starts_with_v10(envelope: &[u8]) -> (r: bool)
    ensures
        r <==> envelope@.len() >= 3 && envelope@.subrange(0, 3) == tag_v10(),
{
    envelope.len() >= TAG_LEN && has_tag(envelope, 0x30)
}

/// The bytes after the version tag of an envelope of more than three bytes.
pub fn payload_of(envelope: &[u8]) -> (r: &[u8])
    requires
        envelope@.len() > 3,
    ensures
        r@ == envelope_payload(envelope@),
{
    &envelope[TAG_LEN..envelope.len()]
}

/// Drops the leading `DPAPI` marker of a decoded wrapped-key blob, if present.
pub fn strip_dpapi_marker(blob: Vec<u8>) -> (r: Vec<u8>)
    ensures
        r@ == without_dpapi_marker(blob@),
{
    let marked = blob.len() >= 5 && blob[0] == 0x44 && blob[1] == 0x50 && blob[2] == 0x41
        && blob[3] == 0x50 && blob[4] == 0x49;
    assert(marked <==> (blob@.len() >= 5 && blob@.subrange(0, 5) =~= dpapi_marker()));
    if !marked {
        return blob;
    }
    let mut rest: Vec<u8> = Vec::with_capacity(blob.len() - 5);
    let mut i: usize = 5;
    while i < blob.len()
        invariant
            5 <= i <= blob@.len(),
            rest@ =~= blob@.subrange(5, i as int),
        decreases blob@.len() - i,
    {
        rest.push(blob[i]);
        i = i + 1;
    }
    rest
}

} // verus!
