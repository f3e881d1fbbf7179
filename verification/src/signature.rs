//! Classification of an entry by the first bytes of its content, and the
//! one-byte repair of a structured entry's format marker.

use vstd::prelude::*;

verus! {

/// What an entry's signature says it is.
#[derive(Clone, Copy, Debug, PartialEq, Eq, Structural)]
pub enum EntryKind {
    /// A structured binary document, in either byte order.
    Structured,
    /// A message table.
    MessageTable,
    /// An archive container.
    NestedArchive,
    /// Anything else.
    Opaque,
}

/// The content starts with `BY`: a structured document in big-endian order.
pub open spec fn is_big_structured(data: Seq<u8>) -> bool {
    data.len() >= 2 && data[0] == 0x42 && data[1] == 0x59
}

/// The content starts with `YB`: a structured document in little-endian order.
pub open spec fn is_little_structured(data: Seq<u8>) -> bool {
    data.len() >= 2 && data[0] == 0x59 && data[1] == 0x42
}

/// The content starts with `MsgStdBn`.
pub open spec fn is_message_table(data: Seq<u8>) -> bool {
    data.len() >= 8 && data[0] == 0x4d && data[1] == 0x73 && data[2] == 0x67 && data[3] == 0x53
        && data[4] == 0x74 && data[5] == 0x64 && data[6] == 0x42 && data[7] == 0x6e
}

/// The content starts with `SARC`.
pub open spec fn is_archive(data: Seq<u8>) -> bool {
    data.len() >= 4 && data[0] == 0x53 && data[1] == 0x41 && data[2] == 0x52 && data[3] == 0x43
}

/// The kind that the signature gives. The four signatures exclude each other
/// by their first two bytes.
pub open spec fn kind_of(data: Seq<u8>) -> EntryKind {
    if is_big_structured(data) || is_little_structured(data) {
        EntryKind::Structured
    } else if is_message_table(data) {
        EntryKind::MessageTable
    } else if is_archive(data) {
        EntryKind::NestedArchive
    } else {
        EntryKind::Opaque
    }
}

/// The content with its marker byte set to the canonical value: byte 3
/// becomes 4 in a big-endian document, byte 2 becomes 2 in a little-endian
/// one. Content that is too short to hold the byte, and content of any other
/// kind, stays as it is.
pub open spec fn normalized(data: Seq<u8>) -> Seq<u8> {
    if is_big_structured(data) && data.len() > 3 {
        data.update(3, 4u8)
    } else if is_little_structured(data) && data.len() > 2 {
        data.update(2, 2u8)
    } else {
        data
    }
}

/// The marker byte already has the canonical value.
pub open spec fn is_canonical(data: Seq<u8>) -> bool {
    &&& is_big_structured(data) && data.len() > 3 ==> data[3] == 4
    &&& is_little_structured(data) && data.len() > 2 ==> data[2] == 2
}

/// Classifies content by its signature.
pub fn classify(data: &[u8]) -> (kind: EntryKind)
    ensures
        kind == kind_of(data@),
{
    let n: usize = data.len();
    if n >= 2 && ((data[0] == 0x42 && data[1] == 0x59) || (data[0] == 0x59 && data[1] == 0x42)) {
        EntryKind::Structured
    } else if n >= 8 && data[0] == 0x4d && data[1] == 0x73 && data[2] == 0x67 && data[3] == 0x53
        && data[4] == 0x74 && data[5] == 0x64 && data[6] == 0x42 && data[7] == 0x6e {
        EntryKind::MessageTable
    } else if n >= 4 && data[0] == 0x53 && data[1] == 0x41 && data[2] == 0x52 && data[3] == 0x43 {
        EntryKind::NestedArchive
    } else {
        EntryKind::Opaque
    }
}

/// Sets the marker byte of a structured document in place. The length and
/// every other byte stay, and so does the kind.
pub fn normalize_marker(data: &mut Vec<u8>)
    ensures
        final(data)@ == normalized(old(data)@),
        final(data)@.len() == old(data)@.len(),
        kind_of(final(data)@) == kind_of(old(data)@),
{
    let n: usize = data.len();
    if n >= 2 {
        if data[0] == 0x42 && data[1] == 0x59 {
            if n > 3 {
                data.set(3, 4u8);
            }
        } else if data[0] == 0x59 && data[1] == 0x42 {
            if n > 2 {
                data.set(2, 2u8);
            }
        }
    }
}

/// Normalizing twice is normalizing once.
pub proof fn lemma_normalize_idempotent(data: Seq<u8>)
    ensures
        normalized(normalized(data)) == normalized(data),
{
    assert(normalized(normalized(data)) =~= normalized(data));
}

/// Normalizing content whose marker is canonical changes nothing, and
/// normalized content is canonical.
pub proof fn lemma_normalize_canonical(data: Seq<u8>)
    ensures
        is_canonical(data) <==> normalized(data) == data,
        is_canonical(normalized(data)),
{
    if is_canonical(data) {
        assert(normalized(data) =~= data);
    }
}

/// Normalizing touches at most the marker byte: two structured documents of
/// one byte order that differ in that byte alone normalize to the same
/// content.
pub proof fn lemma_normalize_forgets_marker(a: Seq<u8>, b: Seq<u8>)
    requires
        a.len() == b.len(),
        kind_of(a) == EntryKind::Structured,
        is_big_structured(a) ==> forall|i: int| 0 <= i < a.len() && i != 3 ==> a[i] == b[i],
        is_little_structured(a) ==> forall|i: int| 0 <= i < a.len() && i != 2 ==> a[i] == b[i],
    ensures
        normalized(a) == normalized(b),
{
    assert(normalized(a) =~= normalized(b));
}

} // verus!
