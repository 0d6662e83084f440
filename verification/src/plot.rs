//! Farm plots: the record, the payload that creates or updates one, and the
//! record's encoding.

use crate::codec::{lemma_fields_read_back, take_text, text_field, text_of, Entity};
use crate::frame::{
    field_views, frame, lemma_field_within_size, lemma_fields_frame_len, lemma_frame_round_trip,
    read_frame, unframe, write_frame,
};
use vstd::prelude::*;
use vstd::string::*;

verus! {

/// The kind byte that opens an encoded plot.
pub const PLOT_KIND: u8 = 2;

/// A plot of land worked by one farmer.
#[derive(Clone, Debug, PartialEq, Eq)]
pub struct FarmPlot {
    pub id: String,
    pub farmer_id: String,
    pub size: String,
    pub location: String,
    pub reserved_until: String,
    pub created_at: String,
}

/// A plot as a mathematical value.
pub struct FarmPlotView {
    pub id: Seq<char>,
    pub farmer_id: Seq<char>,
    pub size: Seq<char>,
    pub location: Seq<char>,
    pub reserved_until: Seq<char>,
    pub created_at: Seq<char>,
}

impl View for FarmPlot {
    type V = FarmPlotView;

    open spec fn view(&self) -> FarmPlotView {
        FarmPlotView {
            id: self.id@,
            farmer_id: self.farmer_id@,
            size: self.size@,
            location: self.location@,
            reserved_until: self.reserved_until@,
            created_at: self.created_at@,
        }
    }
}

/// What a caller supplies to create or update a plot.
#[derive(Clone, Debug, PartialEq, Eq)]
pub struct PlotPayload {
    pub farmer_id: String,
    pub size: String,
    pub location: String,
    pub reserved_until: String,
}

/// A plot payload as a mathematical value.
pub struct PlotPayloadView {
    pub farmer_id: Seq<char>,
    pub size: Seq<char>,
    pub location: Seq<char>,
    pub reserved_until: Seq<char>,
}

impl View for PlotPayload {
    type V = PlotPayloadView;

    open spec fn view(&self) -> PlotPayloadView {
        PlotPayloadView {
            farmer_id: self.farmer_id@,
            size: self.size@,
            location: self.location@,
            reserved_until: self.reserved_until@,
        }
    }
}

/// The fields of an encoded plot, in order.
pub open spec fn plot_fields(v: FarmPlotView) -> Seq<Seq<u8>> {
    seq![
        text_field(v.id),
        text_field(v.farmer_id),
        text_field(v.size),
        text_field(v.location),
        text_field(v.reserved_until),
        text_field(v.created_at),
    ]
}

/// The plot that six fields stand for, if each holds text.
pub open spec fn plot_of_fields(f: Seq<Seq<u8>>) -> Option<FarmPlotView> {
    if f.len() == 6 && text_of(f[0]) is Some && text_of(f[1]) is Some && text_of(f[2]) is Some
        && text_of(f[3]) is Some && text_of(f[4]) is Some && text_of(f[5]) is Some {
        Some(
            FarmPlotView {
                id: text_of(f[0])->0,
                farmer_id: text_of(f[1])->0,
                size: text_of(f[2])->0,
                location: text_of(f[3])->0,
                reserved_until: text_of(f[4])->0,
                created_at: text_of(f[5])->0,
            },
        )
    } else {
        None
    }
}

impl Entity for FarmPlot {
    open spec fn encoding(v: FarmPlotView) -> Seq<u8> {
        frame(PLOT_KIND, plot_fields(v))
    }

    open spec fn decoding(bytes: Seq<u8>) -> Option<FarmPlotView> {
        match unframe(bytes) {
            Some((kind, fields)) => if kind == PLOT_KIND {
                plot_of_fields(fields)
            } else {
                None
            },
            None => None,
        }
    }

    proof fn lemma_round_trip(v: FarmPlotView) {
        let fields = plot_fields(v);
        lemma_fields_frame_len(fields);
        assert forall|i: int| 0 <= i < fields.len() implies (#[trigger] fields[i]).len()
            <= u64::MAX by {
            lemma_field_within_size(fields, i);
        }
        lemma_frame_round_trip(PLOT_KIND, fields);
        lemma_fields_read_back(v.id, 0, true);
        lemma_fields_read_back(v.farmer_id, 0, true);
        lemma_fields_read_back(v.size, 0, true);
        lemma_fields_read_back(v.location, 0, true);
        lemma_fields_read_back(v.reserved_until, 0, true);
        lemma_fields_read_back(v.created_at, 0, true);
    }

    fn encode(&self) -> (bytes: Vec<u8>) {
        let mut fields: Vec<Vec<u8>> = Vec::new();
        fields.push(self.id.as_str().as_bytes_vec());
        fields.push(self.farmer_id.as_str().as_bytes_vec());
        fields.push(self.size.as_str().as_bytes_vec());
        fields.push(self.location.as_str().as_bytes_vec());
        fields.push(self.reserved_until.as_str().as_bytes_vec());
        fields.push(self.created_at.as_str().as_bytes_vec());
        let bytes = write_frame(PLOT_KIND, &fields);
        proof {
            assert(field_views(fields@) =~= plot_fields(self@));
            vstd::std_specs::vec::axiom_spec_len(&bytes);
            Self::lemma_round_trip(self@);
        }
        bytes
    }

    fn decode(bytes: &[u8]) -> (r: Option<FarmPlot>) {
        let (kind, mut fields) = match read_frame(bytes) {
            Some(parts) => parts,
            None => return None,
        };
        if kind != PLOT_KIND || fields.len() != 6 {
            return None;
        }
        let created_at = take_text(&mut fields);
        let reserved_until = take_text(&mut fields);
        let location = take_text(&mut fields);
        let size = take_text(&mut fields);
        let farmer_id = take_text(&mut fields);
        let id = take_text(&mut fields);
        match (id, farmer_id, size, location, reserved_until, created_at) {
            (
                Some(id),
                Some(farmer_id),
                Some(size),
                Some(location),
                Some(reserved_until),
                Some(created_at),
            ) => Some(FarmPlot { id, farmer_id, size, location, reserved_until, created_at }),
            _ => None,
        }
    }
}

} // verus!
