//! Shared resources: the record, the payload that upserts one, and the
//! record's encoding.

use crate::codec::{
    flag_field, flag_of, lemma_fields_read_back, number_field, number_of, take_flag, take_number,
    take_text, text_field, text_of, Entity,
};
use crate::frame::{
    field_views, frame, lemma_field_within_size, lemma_fields_frame_len, lemma_frame_round_trip,
    read_frame, unframe, write_frame,
};
use vstd::bytes::u64_to_le_bytes;
use vstd::prelude::*;
use vstd::string::*;

verus! {

/// The kind byte that opens an encoded resource.
pub const RESOURCE_KIND: u8 = 4;

/// A resource that the members share.
#[derive(Clone, Debug, PartialEq, Eq)]
pub struct Resource {
    pub id: String,
    pub name: String,
    pub quantity: u64,
    pub available: bool,
    pub created_at: String,
}

/// A resource as a mathematical value.
pub struct ResourceView {
    pub id: Seq<char>,
    pub name: Seq<char>,
    pub quantity: u64,
    pub available: bool,
    pub created_at: Seq<char>,
}

impl View for Resource {
    type V = ResourceView;

    open spec fn view(&self) -> ResourceView {
        ResourceView {
            id: self.id@,
            name: self.name@,
            quantity: self.quantity,
            available: self.available,
            created_at: self.created_at@,
        }
    }
}

/// What a caller supplies to upsert a resource.
#[derive(Clone, Debug, PartialEq, Eq)]
pub struct ResourcePayload {
    pub name: String,
    pub quantity: u64,
    pub available: bool,
}

/// A resource payload as a mathematical value.
pub struct ResourcePayloadView {
    pub name: Seq<char>,
    pub quantity: u64,
    pub available: bool,
}

impl View for ResourcePayload {
    type V = ResourcePayloadView;

    open spec fn view(&self) -> ResourcePayloadView {
        ResourcePayloadView {
            name: self.name@,
            quantity: self.quantity,
            available: self.available,
        }
    }
}

/// The fields of an encoded resource, in order.
pub open spec fn resource_fields(v: ResourceView) -> Seq<Seq<u8>> {
    seq![
        text_field(v.id),
        text_field(v.name),
        number_field(v.quantity),
        flag_field(v.available),
        text_field(v.created_at),
    ]
}

/// The resource that five fields stand for, if each holds a value of its type.
pub open spec fn resource_of_fields(f: Seq<Seq<u8>>) -> Option<ResourceView> {
    if f.len() == 5 && text_of(f[0]) is Some && text_of(f[1]) is Some && number_of(f[2]) is Some
        && flag_of(f[3]) is Some && text_of(f[4]) is Some {
        Some(
            ResourceView {
                id: text_of(f[0])->0,
                name: text_of(f[1])->0,
                quantity: number_of(f[2])->0,
                available: flag_of(f[3])->0,
                created_at: text_of(f[4])->0,
            },
        )
    } else {
        None
    }
}

impl Entity for Resource {
    open spec fn encoding(v: ResourceView) -> Seq<u8> {
        frame(RESOURCE_KIND, resource_fields(v))
    }

    open spec fn decoding(bytes: Seq<u8>) -> Option<ResourceView> {
        match unframe(bytes) {
            Some((kind, fields)) => if kind == RESOURCE_KIND {
                resource_of_fields(fields)
            } else {
                None
            },
            None => None,
        }
    }

    proof fn lemma_round_trip(v: ResourceView) {
        let fields = resource_fields(v);
        lemma_fields_frame_len(fields);
        assert forall|i: int| 0 <= i < fields.len() implies (#[trigger] fields[i]).len()
            <= u64::MAX by {
            lemma_field_within_size(fields, i);
        }
        lemma_frame_round_trip(RESOURCE_KIND, fields);
        lemma_fields_read_back(v.id, v.quantity, v.available);
        lemma_fields_read_back(v.name, v.quantity, v.available);
        lemma_fields_read_back(v.created_at, v.quantity, v.available);
    }

    fn encode(&self) -> (bytes: Vec<u8>) {
        let mut fields: Vec<Vec<u8>> = Vec::new();
        fields.push(self.id.as_str().as_bytes_vec());
        fields.push(self.name.as_str().as_bytes_vec());
        fields.push(u64_to_le_bytes(self.quantity));
        let mut flag: Vec<u8> = Vec::new();
        flag.push(if self.available { 1u8 } else { 0u8 });
        fields.push(flag);
        fields.push(self.created_at.as_str().as_bytes_vec());
        let bytes = write_frame(RESOURCE_KIND, &fields);
        proof {
            assert(field_views(fields@) =~= resource_fields(self@));
            vstd::std_specs::vec::axiom_spec_len(&bytes);
            Self::lemma_round_trip(self@);
        }
        bytes
    }

    fn decode(bytes: &[u8]) -> (r: Option<Resource>) {
        let (kind, mut fields) = match read_frame(bytes) {
            Some(parts) => parts,
            None => return None,
        };
        if kind != RESOURCE_KIND || fields.len() != 5 {
            return None;
        }
        let created_at = take_text(&mut fields);
        let available = take_flag(&mut fields);
        let quantity = take_number(&mut fields);
        let name = take_text(&mut fields);
        let id = take_text(&mut fields);
        match (id, name, quantity, available, created_at) {
            (Some(id), Some(name), Some(quantity), Some(available), Some(created_at)) => Some(
                Resource { id, name, quantity, available, created_at },
            ),
            _ => None,
        }
    }
}

} // verus!
