//! The byte layout shared by every stored record: one kind byte, then each
//! field as an eight-byte little-endian length followed by that many bytes.

use vstd::bytes::*;
use vstd::prelude::*;
use vstd::slice::*;

verus! {

/// Bytes taken by the length that precedes each field.
pub const LENGTH_PREFIX: usize = 8;

/// One field on the wire: its length, then its bytes.
pub open spec fn field_frame(field: Seq<u8>) -> Seq<u8> {
    spec_u64_to_le_bytes(field.len() as u64) + field
}

/// The fields on the wire, one after another.
pub open spec fn fields_frame(fields: Seq<Seq<u8>>) -> Seq<u8>
    decreases fields.len(),
{
    if fields.len() == 0 {
        Seq::empty()
    } else {
        field_frame(fields[0]) + fields_frame(fields.drop_first())
    }
}

/// A whole record on the wire: the kind byte, then the fields.
pub open spec fn frame(kind: u8, fields: Seq<Seq<u8>>) -> Seq<u8> {
    seq![kind] + fields_frame(fields)
}

/// The fields that `bytes` holds, if `bytes` is a run of well-formed fields
/// with nothing left over.
pub open spec fn fields_unframe(bytes: Seq<u8>) -> Option<Seq<Seq<u8>>>
    decreases bytes.len(),
{
    if bytes.len() == 0 {
        Some(Seq::empty())
    } else if bytes.len() < 8 {
        None
    } else {
        let len = spec_u64_from_le_bytes(bytes.take(8)) as int;
        if len > bytes.len() - 8 {
            None
        } else {
            match fields_unframe(bytes.skip(8 + len)) {
                Some(rest) => Some(seq![bytes.subrange(8, 8 + len)] + rest),
                None => None,
            }
        }
    }
}

/// The kind and the fields that `bytes` holds, if `bytes` is a record on the wire.
pub open spec fn unframe(bytes: Seq<u8>) -> Option<(u8, Seq<Seq<u8>>)> {
    if bytes.len() == 0 {
        None
    } else {
        match fields_unframe(bytes.skip(1)) {
            Some(fields) => Some((bytes[0], fields)),
            None => None,
        }
    }
}

/// Every field is short enough for its length to be written in eight bytes.
pub open spec fn fields_fit(fields: Seq<Seq<u8>>) -> bool {
    forall|i: int| 0 <= i < fields.len() ==> (#[trigger] fields[i]).len() <= u64::MAX
}

/// The sum of the field lengths, each with its length prefix.
pub open spec fn fields_size(fields: Seq<Seq<u8>>) -> nat
    decreases fields.len(),
{
    if fields.len() == 0 {
        0
    } else {
        8 + fields[0].len() + fields_size(fields.drop_first())
    }
}

/// The framed fields take as many bytes as `fields_size` counts.
pub proof fn lemma_fields_frame_len(fields: Seq<Seq<u8>>)
    ensures
        fields_frame(fields).len() == fields_size(fields),
    decreases fields.len(),
{
    lemma_auto_spec_u64_to_from_le_bytes();
    if fields.len() > 0 {
        lemma_fields_frame_len(fields.drop_first());
    }
}

/// Framing distributes over concatenation, and so does the size.
pub proof fn lemma_fields_frame_concat(a: Seq<Seq<u8>>, b: Seq<Seq<u8>>)
    ensures
        fields_frame(a + b) == fields_frame(a) + fields_frame(b),
        fields_size(a + b) == fields_size(a) + fields_size(b),
    decreases a.len(),
{
    if a.len() > 0 {
        assert((a + b).drop_first() =~= a.drop_first() + b);
        lemma_fields_frame_concat(a.drop_first(), b);
    }
}

/// No field is longer than the framed whole.
pub proof fn lemma_field_within_size(fields: Seq<Seq<u8>>, i: int)
    requires
        0 <= i < fields.len(),
    ensures
        fields[i].len() + 8 <= fields_size(fields),
    decreases fields.len(),
{
    if i > 0 {
        lemma_field_within_size(fields.drop_first(), i - 1);
    }
}

/// Reading framed fields gives the fields back.
pub proof fn lemma_fields_round_trip(fields: Seq<Seq<u8>>)
    requires
        fields_fit(fields),
    ensures
        fields_unframe(fields_frame(fields)) == Some(fields),
    decreases fields.len(),
{
    lemma_auto_spec_u64_to_from_le_bytes();
    if fields.len() > 0 {
        let head = fields[0];
        let tail = fields.drop_first();
        let bytes = fields_frame(fields);
        let prefix = spec_u64_to_le_bytes(head.len() as u64);
        lemma_fields_round_trip(tail);
        assert(bytes.take(8) =~= prefix);
        assert(bytes.subrange(8, 8 + head.len() as int) =~= head);
        assert(bytes.skip(8 + head.len() as int) =~= fields_frame(tail));
    }
}

/// Reading a framed record gives the kind and the fields back.
pub proof fn lemma_frame_round_trip(kind: u8, fields: Seq<Seq<u8>>)
    requires
        fields_fit(fields),
    ensures
        unframe(frame(kind, fields)) == Some((kind, fields)),
{
    lemma_fields_round_trip(fields);
    assert(frame(kind, fields).skip(1) =~= fields_frame(fields));
}

/// The byte strings that a vector of fields holds.
pub open spec fn field_views(fields: Seq<Vec<u8>>) -> Seq<Seq<u8>> {
    Seq::new(fields.len(), |i: int| fields[i]@)
}

/// Lays a record out on the wire.
pub fn write_frame(kind: u8, fields: &Vec<Vec<u8>>) -> (out: Vec<u8>)
    ensures
        out@ == frame(kind, field_views(fields@)),
        unframe(out@) == Some((kind, field_views(fields@))),
{
    let ghost all = field_views(fields@);
    let mut out: Vec<u8> = Vec::new();
    out.push(kind);
    let mut i: usize = 0;
    while i < fields.len()
        invariant
            0 <= i <= fields.len(),
            all == field_views(fields@),
            out@ == seq![kind] + fields_frame(all.take(i as int)),
        decreases fields.len() - i,
    {
        let field = &fields[i];
        let prefix = u64_to_le_bytes(field.len() as u64);
        out.extend_from_slice(prefix.as_slice());
        out.extend_from_slice(field.as_slice());
        proof {
            let one = seq![field@];
            assert(all.take(i + 1) =~= all.take(i as int) + one);
            lemma_fields_frame_concat(all.take(i as int), one);
            assert(fields_frame(one.drop_first()) =~= Seq::<u8>::empty());
        }
        i = i + 1;
    }
    proof {
        assert(all.take(i as int) =~= all);
        assert(fields_fit(all)) by {
            assert forall|j: int| 0 <= j < all.len() implies (#[trigger] all[j]).len()
                <= u64::MAX by {
                vstd::std_specs::vec::axiom_spec_len(&fields@[j]);
            }
        }
        lemma_frame_round_trip(kind, all);
    }
    out
}

/// Takes a record on the wire apart: `Some` exactly when `bytes` is a kind
/// byte followed by well-formed fields with nothing left over.
pub fn read_frame(bytes: &[u8]) -> (r: Option<(u8, Vec<Vec<u8>>)>)
    ensures
        match r {
            Some((kind, fields)) => unframe(bytes@) == Some((kind, field_views(fields@))),
            None => unframe(bytes@) is None,
        },
{
    let n: usize = bytes.len();
    if n == 0 {
        return None;
    }
    let kind: u8 = bytes[0];
    let mut fields: Vec<Vec<u8>> = Vec::new();
    let mut pos: usize = 1;
    let ghost whole = fields_unframe(bytes@.skip(1));
    while pos < n
        invariant
            1 <= pos <= n,
            n == bytes@.len(),
            whole == fields_unframe(bytes@.skip(1)),
            whole == match fields_unframe(bytes@.skip(pos as int)) {
                Some(rest) => Some(field_views(fields@) + rest),
                None => None,
            },
        decreases n - pos,
    {
        let ghost here = bytes@.skip(pos as int);
        if n - pos < LENGTH_PREFIX {
            return None;
        }
        let len: u64 = u64_from_le_bytes(slice_subrange(bytes, pos, pos + LENGTH_PREFIX));
        assert(bytes@.subrange(pos as int, pos + 8) =~= here.take(8));
        if len > (n - pos - LENGTH_PREFIX) as u64 {
            return None;
        }
        let start: usize = pos + LENGTH_PREFIX;
        let end: usize = start + len as usize;
        let field = slice_to_vec(slice_subrange(bytes, start, end));
        proof {
            assert(field@ =~= here.subrange(8, 8 + len));
            assert(here.skip(8 + len) =~= bytes@.skip(end as int));
        }
        fields.push(field);
        pos = end;
    }
    Some((kind, fields))
}

} // verus!
