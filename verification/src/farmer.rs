//! Farmers: the record, the payload that creates or updates one, and the
//! record's encoding.

use crate::codec::{lemma_fields_read_back, take_text, text_field, text_of, Entity};
use crate::frame::{
    field_views, frame, lemma_field_within_size, lemma_fields_frame_len, lemma_frame_round_trip,
    read_frame, unframe, write_frame,
};
use vstd::prelude::*;
use vstd::string::*;

verus! {

/// The kind byte that opens an encoded farmer.
pub const FARMER_KIND: u8 = 1;

/// A registered farmer.
#[derive(Clone, Debug, PartialEq, Eq)]
pub struct Farmer {
    pub farmer_id: String,
    pub owner: String,
    pub name: String,
    pub email: String,
    pub phone_number: String,
    pub created_at: String,
}

/// A farmer as a mathematical value.
pub struct FarmerView {
    pub farmer_id: Seq<char>,
    pub owner: Seq<char>,
    pub name: Seq<char>,
    pub email: Seq<char>,
    pub phone_number: Seq<char>,
    pub created_at: Seq<char>,
}

impl View for Farmer {
    type V = FarmerView;

    open spec fn view(&self) -> FarmerView {
        FarmerView {
            farmer_id: self.farmer_id@,
            owner: self.owner@,
            name: self.name@,
            email: self.email@,
            phone_number: self.phone_number@,
            created_at: self.created_at@,
        }
    }
}

/// What a caller supplies to create or update a farmer.
#[derive(Clone, Debug, PartialEq, Eq)]
pub struct FarmerPayload {
    pub name: String,
    pub email: String,
    pub phone_number: String,
}

/// A farmer payload as a mathematical value.
pub struct FarmerPayloadView {
    pub name: Seq<char>,
    pub email: Seq<char>,
    pub phone_number: Seq<char>,
}

impl View for FarmerPayload {
    type V = FarmerPayloadView;

    open spec fn view(&self) -> FarmerPayloadView {
        FarmerPayloadView {
            name: self.name@,
            email: self.email@,
            phone_number: self.phone_number@,
        }
    }
}

/// The fields of an encoded farmer, in order.
pub open spec fn farmer_fields(v: FarmerView) -> Seq<Seq<u8>> {
    seq![
        text_field(v.farmer_id),
        text_field(v.owner),
        text_field(v.name),
        text_field(v.email),
        text_field(v.phone_number),
        text_field(v.created_at),
    ]
}

/// The farmer that six fields stand for, if each holds text.
pub open spec fn farmer_of_fields(f: Seq<Seq<u8>>) -> Option<FarmerView> {
    if f.len() == 6 && text_of(f[0]) is Some && text_of(f[1]) is Some && text_of(f[2]) is Some
        && text_of(f[3]) is Some && text_of(f[4]) is Some && text_of(f[5]) is Some {
        Some(
            FarmerView {
                farmer_id: text_of(f[0])->0,
                owner: text_of(f[1])->0,
                name: text_of(f[2])->0,
                email: text_of(f[3])->0,
                phone_number: text_of(f[4])->0,
                created_at: text_of(f[5])->0,
            },
        )
    } else {
        None
    }
}

impl Entity for Farmer {
    open spec fn encoding(v: FarmerView) -> Seq<u8> {
        frame(FARMER_KIND, farmer_fields(v))
    }

    open spec fn decoding(bytes: Seq<u8>) -> Option<FarmerView> {
        match unframe(bytes) {
            Some((kind, fields)) => if kind == FARMER_KIND {
                farmer_of_fields(fields)
            } else {
                None
            },
            None => None,
        }
    }

    proof fn lemma_round_trip(v: FarmerView) {
        let fields = farmer_fields(v);
        lemma_fields_frame_len(fields);
        assert forall|i: int| 0 <= i < fields.len() implies (#[trigger] fields[i]).len()
            <= u64::MAX by {
            lemma_field_within_size(fields, i);
        }
        lemma_frame_round_trip(FARMER_KIND, fields);
        lemma_fields_read_back(v.farmer_id, 0, true);
        lemma_fields_read_back(v.owner, 0, true);
        lemma_fields_read_back(v.name, 0, true);
        lemma_fields_read_back(v.email, 0, true);
        lemma_fields_read_back(v.phone_number, 0, true);
        lemma_fields_read_back(v.created_at, 0, true);
    }

    fn encode(&self) -> (bytes: Vec<u8>) {
        let mut fields: Vec<Vec<u8>> = Vec::new();
        fields.push(self.farmer_id.as_str().as_bytes_vec());
        fields.push(self.owner.as_str().as_bytes_vec());
        fields.push(self.name.as_str().as_bytes_vec());
        fields.push(self.email.as_str().as_bytes_vec());
        fields.push(self.phone_number.as_str().as_bytes_vec());
        fields.push(self.created_at.as_str().as_bytes_vec());
        let bytes = write_frame(FARMER_KIND, &fields);
        proof {
            assert(field_views(fields@) =~= farmer_fields(self@));
            vstd::std_specs::vec::axiom_spec_len(&bytes);
            Self::lemma_round_trip(self@);
        }
        bytes
    }

    fn decode(bytes: &[u8]) -> (r: Option<Farmer>) {
        let (kind, mut fields) = match read_frame(bytes) {
            Some(parts) => parts,
            None => return None,
        };
        if kind != FARMER_KIND || fields.len() != 6 {
            return None;
        }
        let created_at = take_text(&mut fields);
        let phone_number = take_text(&mut fields);
        let email = take_text(&mut fields);
        let name = take_text(&mut fields);
        let owner = take_text(&mut fields);
        let farmer_id = take_text(&mut fields);
        match (farmer_id, owner, name, email, phone_number, created_at) {
            (
                Some(farmer_id),
                Some(owner),
                Some(name),
                Some(email),
                Some(phone_number),
                Some(created_at),
            ) => Some(Farmer { farmer_id, owner, name, email, phone_number, created_at }),
            _ => None,
        }
    }
}

} // verus!
