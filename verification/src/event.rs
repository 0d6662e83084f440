//! Events: the record, the payload that upserts one, and the record's
//! encoding.

use crate::codec::{lemma_fields_read_back, take_text, text_field, text_of, Entity};
use crate::frame::{
    field_views, frame, lemma_field_within_size, lemma_fields_frame_len, lemma_frame_round_trip,
    read_frame, unframe, write_frame,
};
use vstd::prelude::*;
use vstd::string::*;

verus! {

/// The kind byte that opens an encoded event.
pub const EVENT_KIND: u8 = 5;

/// A gathering of the members.
#[derive(Clone, Debug, PartialEq, Eq)]
pub struct Event {
    pub id: String,
    pub title: String,
    pub description: String,
    pub date: String,
    pub location: String,
    pub created_at: String,
}

/// An event as a mathematical value.
pub struct EventView {
    pub id: Seq<char>,
    pub title: Seq<char>,
    pub description: Seq<char>,
    pub date: Seq<char>,
    pub location: Seq<char>,
    pub created_at: Seq<char>,
}

impl View for Event {
    type V = EventView;

    open spec fn view(&self) -> EventView {
        EventView {
            id: self.id@,
            title: self.title@,
            description: self.description@,
            date: self.date@,
            location: self.location@,
            created_at: self.created_at@,
        }
    }
}

/// What a caller supplies to upsert an event.
#[derive(Clone, Debug, PartialEq, Eq)]
pub struct EventPayload {
    pub title: String,
    pub description: String,
    pub date: String,
    pub location: String,
}

/// An event payload as a mathematical value.
pub struct EventPayloadView {
    pub title: Seq<char>,
    pub description: Seq<char>,
    pub date: Seq<char>,
    pub location: Seq<char>,
}

impl View for EventPayload {
    type V = EventPayloadView;

    open spec fn view(&self) -> EventPayloadView {
        EventPayloadView {
            title: self.title@,
            description: self.description@,
            date: self.date@,
            location: self.location@,
        }
    }
}

/// The fields of an encoded event, in order.
pub open spec fn event_fields(v: EventView) -> Seq<Seq<u8>> {
    seq![
        text_field(v.id),
        text_field(v.title),
        text_field(v.description),
        text_field(v.date),
        text_field(v.location),
        text_field(v.created_at),
    ]
}

/// The event that six fields stand for, if each holds text.
pub open spec fn event_of_fields(f: Seq<Seq<u8>>) -> Option<EventView> {
    if f.len() == 6 && text_of(f[0]) is Some && text_of(f[1]) is Some && text_of(f[2]) is Some
        && text_of(f[3]) is Some && text_of(f[4]) is Some && text_of(f[5]) is Some {
        Some(
            EventView {
                id: text_of(f[0])->0,
                title: text_of(f[1])->0,
                description: text_of(f[2])->0,
                date: text_of(f[3])->0,
                location: text_of(f[4])->0,
                created_at: text_of(f[5])->0,
            },
        )
    } else {
        None
    }
}

impl Entity for Event {
    open spec fn encoding(v: EventView) -> Seq<u8> {
        frame(EVENT_KIND, event_fields(v))
    }

    open spec fn decoding(bytes: Seq<u8>) -> Option<EventView> {
        match unframe(bytes) {
            Some((kind, fields)) => if kind == EVENT_KIND {
                event_of_fields(fields)
            } else {
                None
            },
            None => None,
        }
    }

    proof fn lemma_round_trip(v: EventView) {
        let fields = event_fields(v);
        lemma_fields_frame_len(fields);
        assert forall|i: int| 0 <= i < fields.len() implies (#[trigger] fields[i]).len()
            <= u64::MAX by {
            lemma_field_within_size(fields, i);
        }
        lemma_frame_round_trip(EVENT_KIND, fields);
        lemma_fields_read_back(v.id, 0, true);
        lemma_fields_read_back(v.title, 0, true);
        lemma_fields_read_back(v.description, 0, true);
        lemma_fields_read_back(v.date, 0, true);
        lemma_fields_read_back(v.location, 0, true);
        lemma_fields_read_back(v.created_at, 0, true);
    }

    fn encode(&self) -> (bytes: Vec<u8>) {
        let mut fields: Vec<Vec<u8>> = Vec::new();
        fields.push(self.id.as_str().as_bytes_vec());
        fields.push(self.title.as_str().as_bytes_vec());
        fields.push(self.description.as_str().as_bytes_vec());
        fields.push(self.date.as_str().as_bytes_vec());
        fields.push(self.location.as_str().as_bytes_vec());
        fields.push(self.created_at.as_str().as_bytes_vec());
        let bytes = write_frame(EVENT_KIND, &fields);
        proof {
            assert(field_views(fields@) =~= event_fields(self@));
            vstd::std_specs::vec::axiom_spec_len(&bytes);
            Self::lemma_round_trip(self@);
        }
        bytes
    }

    fn decode(bytes: &[u8]) -> (r: Option<Event>) {
        let (kind, mut fields) = match read_frame(bytes) {
            Some(parts) => parts,
            None => return None,
        };
        if kind != EVENT_KIND || fields.len() != 6 {
            return None;
        }
        let created_at = take_text(&mut fields);
        let location = take_text(&mut fields);
        let date = take_text(&mut fields);
        let description = take_text(&mut fields);
        let title = take_text(&mut fields);
        let id = take_text(&mut fields);
        match (id, title, description, date, location, created_at) {
            (
                Some(id),
                Some(title),
                Some(description),
                Some(date),
                Some(location),
                Some(created_at),
            ) => Some(Event { id, title, description, date, location, created_at }),
            _ => None,
        }
    }
}

} // verus!
