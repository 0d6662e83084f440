//! Farming activities: the record, the payload that creates or updates one,
//! and the record's encoding.

use crate::codec::{lemma_fields_read_back, take_text, text_field, text_of, Entity};
use crate::frame::{
    field_views, frame, lemma_field_within_size, lemma_fields_frame_len, lemma_frame_round_trip,
    read_frame, unframe, write_frame,
};
use vstd::prelude::*;
use vstd::string::*;

verus! {

/// The kind byte that opens an encoded activity.
pub const ACTIVITY_KIND: u8 = 3;

/// Something done on a plot on some date.
#[derive(Clone, Debug, PartialEq, Eq)]
pub struct FarmingActivity {
    pub id: String,
    pub plot_id: String,
    pub description: String,
    pub date: String,
    pub created_at: String,
}

/// An activity as a mathematical value.
pub struct FarmingActivityView {
    pub id: Seq<char>,
    pub plot_id: Seq<char>,
    pub description: Seq<char>,
    pub date: Seq<char>,
    pub created_at: Seq<char>,
}

impl View for FarmingActivity {
    type V = FarmingActivityView;

    open spec fn view(&self) -> FarmingActivityView {
        FarmingActivityView {
            id: self.id@,
            plot_id: self.plot_id@,
            description: self.description@,
            date: self.date@,
            created_at: self.created_at@,
        }
    }
}

/// What a caller supplies to create or update an activity.
#[derive(Clone, Debug, PartialEq, Eq)]
pub struct ActivityPayload {
    pub plot_id: String,
    pub description: String,
    pub date: String,
}

/// An activity payload as a mathematical value.
pub struct ActivityPayloadView {
    pub plot_id: Seq<char>,
    pub description: Seq<char>,
    pub date: Seq<char>,
}

impl View for ActivityPayload {
    type V = ActivityPayloadView;

    open spec fn view(&self) -> ActivityPayloadView {
        ActivityPayloadView {
            plot_id: self.plot_id@,
            description: self.description@,
            date: self.date@,
        }
    }
}

/// The fields of an encoded activity, in order.
pub open spec fn activity_fields(v: FarmingActivityView) -> Seq<Seq<u8>> {
    seq![
        text_field(v.id),
        text_field(v.plot_id),
        text_field(v.description),
        text_field(v.date),
        text_field(v.created_at),
    ]
}

/// The activity that five fields stand for, if each holds text.
pub open spec fn activity_of_fields(f: Seq<Seq<u8>>) -> Option<FarmingActivityView> {
    if f.len() == 5 && text_of(f[0]) is Some && text_of(f[1]) is Some && text_of(f[2]) is Some
        && text_of(f[3]) is Some && text_of(f[4]) is Some {
        Some(
            FarmingActivityView {
                id: text_of(f[0])->0,
                plot_id: text_of(f[1])->0,
                description: text_of(f[2])->0,
                date: text_of(f[3])->0,
                created_at: text_of(f[4])->0,
            },
        )
    } else {
        None
    }
}

impl Entity for FarmingActivity {
    open spec fn encoding(v: FarmingActivityView) -> Seq<u8> {
        frame(ACTIVITY_KIND, activity_fields(v))
    }

    open spec fn decoding(bytes: Seq<u8>) -> Option<FarmingActivityView> {
        match unframe(bytes) {
            Some((kind, fields)) => if kind == ACTIVITY_KIND {
                activity_of_fields(fields)
            } else {
                None
            },
            None => None,
        }
    }

    proof fn lemma_round_trip(v: FarmingActivityView) {
        let fields = activity_fields(v);
        lemma_fields_frame_len(fields);
        assert forall|i: int| 0 <= i < fields.len() implies (#[trigger] fields[i]).len()
            <= u64::MAX by {
            lemma_field_within_size(fields, i);
        }
        lemma_frame_round_trip(ACTIVITY_KIND, fields);
        lemma_fields_read_back(v.id, 0, true);
        lemma_fields_read_back(v.plot_id, 0, true);
        lemma_fields_read_back(v.description, 0, true);
        lemma_fields_read_back(v.date, 0, true);
        lemma_fields_read_back(v.created_at, 0, true);
    }

    fn encode(&self) -> (bytes: Vec<u8>) {
        let mut fields: Vec<Vec<u8>> = Vec::new();
        fields.push(self.id.as_str().as_bytes_vec());
        fields.push(self.plot_id.as_str().as_bytes_vec());
        fields.push(self.description.as_str().as_bytes_vec());
        fields.push(self.date.as_str().as_bytes_vec());
        fields.push(self.created_at.as_str().as_bytes_vec());
        let bytes = write_frame(ACTIVITY_KIND, &fields);
        proof {
            assert(field_views(fields@) =~= activity_fields(self@));
            vstd::std_specs::vec::axiom_spec_len(&bytes);
            Self::lemma_round_trip(self@);
        }
        bytes
    }

    fn decode(bytes: &[u8]) -> (r: Option<FarmingActivity>) {
        let (kind, mut fields) = match read_frame(bytes) {
            Some(parts) => parts,
            None => return None,
        };
        if kind != ACTIVITY_KIND || fields.len() != 5 {
            return None;
        }
        let created_at = take_text(&mut fields);
        let date = take_text(&mut fields);
        let description = take_text(&mut fields);
        let plot_id = take_text(&mut fields);
        let id = take_text(&mut fields);
        match (id, plot_id, description, date, created_at) {
            (Some(id), Some(plot_id), Some(description), Some(date), Some(created_at)) => Some(
                FarmingActivity { id, plot_id, description, date, created_at },
            ),
            _ => None,
        }
    }
}

} // verus!
