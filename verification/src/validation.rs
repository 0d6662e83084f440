//! The validation pipeline: the ordered checks that a payload passes before a
//! table is touched. Each check either passes or names the fault that stops
//! the operation; the first fault wins.

use crate::activity::{ActivityPayload, ActivityPayloadView};
use crate::decimal::{parse_id, parsed_id};
use crate::event::{EventPayload, EventPayloadView};
use crate::farmer::{Farmer, FarmerPayload, FarmerPayloadView, FarmerView};
use crate::message::Fault;
use crate::pattern::{email_well_formed, is_email, is_phone, phone_well_formed};
use crate::plot::{FarmPlot, FarmPlotView, PlotPayload, PlotPayloadView};
use crate::resource::{ResourcePayload, ResourcePayloadView};
use crate::table::Table;
use vstd::prelude::*;

verus! {

/// The presence and format checks of a farmer payload, given what the format
/// checks answered: all three fields present, then the email's form, then the
/// phone number's.
pub open spec fn farmer_format_verdict(
    p: FarmerPayloadView,
    email_ok: bool,
    phone_ok: bool,
) -> Result<(), Fault> {
    if p.name.len() == 0 || p.email.len() == 0 || p.phone_number.len() == 0 {
        Err(Fault::FarmerFieldsMissing)
    } else if !email_ok {
        Err(Fault::EmailMalformed)
    } else if !phone_ok {
        Err(Fault::PhoneMalformed)
    } else {
        Ok(())
    }
}

/// Some stored farmer has this email.
pub open spec fn email_taken(farmers: Map<u64, FarmerView>, email: Seq<char>) -> bool {
    exists|id: u64| #[trigger] farmers.contains_key(id) && farmers[id].email == email
}

/// No two stored farmers share an email.
pub open spec fn emails_unique(farmers: Map<u64, FarmerView>) -> bool {
    forall|a: u64, b: u64|
        #![trigger farmers.contains_key(a), farmers.contains_key(b)]
        farmers.contains_key(a) && farmers.contains_key(b) && a != b ==> farmers[a].email
            != farmers[b].email
}

/// The whole pipeline of a farmer payload: presence, formats, then that no
/// stored farmer has the email.
pub open spec fn farmer_verdict(farmers: Map<u64, FarmerView>, p: FarmerPayloadView) -> Result<
    (),
    Fault,
> {
    match farmer_format_verdict(p, email_well_formed(p.email), phone_well_formed(p.phone_number)) {
        Err(fault) => Err(fault),
        Ok(()) => if email_taken(farmers, p.email) {
            Err(Fault::EmailTaken)
        } else {
            Ok(())
        },
    }
}

/// The pipeline of a plot payload: all four fields present, the farmer's
/// identifier a number, and a farmer stored under it.
pub open spec fn plot_verdict(farmers: Map<u64, FarmerView>, p: PlotPayloadView) -> Result<
    (),
    Fault,
> {
    if p.farmer_id.len() == 0 || p.size.len() == 0 || p.location.len() == 0
        || p.reserved_until.len() == 0 {
        Err(Fault::PlotFieldsMissing)
    } else {
        match parsed_id(p.farmer_id) {
            None => Err(Fault::FarmerIdInvalid),
            Some(id) => if farmers.contains_key(id) {
                Ok(())
            } else {
                Err(Fault::FarmerUnknown)
            },
        }
    }
}

/// The pipeline of an activity payload: all three fields present, the plot's
/// identifier a number, and a plot stored under it.
pub open spec fn activity_verdict(plots: Map<u64, FarmPlotView>, p: ActivityPayloadView) -> Result<
    (),
    Fault,
> {
    if p.plot_id.len() == 0 || p.description.len() == 0 || p.date.len() == 0 {
        Err(Fault::ActivityFieldsMissing)
    } else {
        match parsed_id(p.plot_id) {
            None => Err(Fault::PlotIdInvalid),
            Some(id) => if plots.contains_key(id) {
                Ok(())
            } else {
                Err(Fault::PlotUnknown)
            },
        }
    }
}

/// The pipeline of a resource payload: a name, and a quantity above zero.
pub open spec fn resource_verdict(p: ResourcePayloadView) -> Result<(), Fault> {
    if p.name.len() == 0 || p.quantity == 0 {
        Err(Fault::ResourceFieldsMissing)
    } else {
        Ok(())
    }
}

/// The pipeline of an event payload: all four fields present.
pub open spec fn event_verdict(p: EventPayloadView) -> Result<(), Fault> {
    if p.title.len() == 0 || p.description.len() == 0 || p.date.len() == 0 || p.location.len()
        == 0 {
        Err(Fault::EventFieldsMissing)
    } else {
        Ok(())
    }
}

/// Decides the presence and format checks of a farmer payload from what the
/// two format checks answered.
pub fn check_farmer_format(payload: &FarmerPayload, email_ok: bool, phone_ok: bool) -> (r: Result<
    (),
    Fault,
>)
    ensures
        r == farmer_format_verdict(payload@, email_ok, phone_ok),
{
    if payload.name.as_str().is_empty() || payload.email.as_str().is_empty()
        || payload.phone_number.as_str().is_empty() {
        Err(Fault::FarmerFieldsMissing)
    } else if !email_ok {
        Err(Fault::EmailMalformed)
    } else if !phone_ok {
        Err(Fault::PhoneMalformed)
    } else {
        Ok(())
    }
}

/// Scans the farmers in ascending order of identifier for one with this email.
pub fn email_in_use(farmers: &Table<Farmer>, email: &String) -> (taken: bool)
    requires
        farmers.intact(),
    ensures
        taken == email_taken(farmers@, email@),
{
    let records = farmers.iterate();
    let mut i: usize = 0;
    while i < records.len()
        invariant
            0 <= i <= records@.len(),
            forall|j: int|
                0 <= j < records@.len() ==> farmers@.contains_key((#[trigger] records@[j]).0)
                    && farmers@[records@[j].0] == records@[j].1@,
            forall|id: u64| #[trigger]
                farmers@.contains_key(id) ==> exists|j: int|
                    0 <= j < records@.len() && (#[trigger] records@[j]).0 == id,
            forall|j: int| 0 <= j < i ==> (#[trigger] records@[j]).1@.email != email@,
        decreases records@.len() - i,
    {
        if records[i].1.email == *email {
            return true;
        }
        i = i + 1;
    }
    false
}

/// Runs the pipeline of a farmer payload against the stored farmers.
pub fn validate_farmer(farmers: &Table<Farmer>, payload: &FarmerPayload) -> (r: Result<(), Fault>)
    requires
        farmers.intact(),
    ensures
        r == farmer_verdict(farmers@, payload@),
{
    let email_ok = is_email(payload.email.as_str());
    let phone_ok = is_phone(payload.phone_number.as_str());
    match check_farmer_format(payload, email_ok, phone_ok) {
        Err(fault) => Err(fault),
        Ok(()) => if email_in_use(farmers, &payload.email) {
            Err(Fault::EmailTaken)
        } else {
            Ok(())
        },
    }
}

/// Runs the pipeline of a plot payload against the stored farmers.
pub fn validate_plot(farmers: &Table<Farmer>, payload: &PlotPayload) -> (r: Result<(), Fault>)
    ensures
        r == plot_verdict(farmers@, payload@),
{
    if payload.farmer_id.as_str().is_empty() || payload.size.as_str().is_empty()
        || payload.location.as_str().is_empty() || payload.reserved_until.as_str().is_empty() {
        return Err(Fault::PlotFieldsMissing);
    }
    match parse_id(payload.farmer_id.as_str()) {
        None => Err(Fault::FarmerIdInvalid),
        Some(id) => if farmers.contains(id) {
            Ok(())
        } else {
            Err(Fault::FarmerUnknown)
        },
    }
}

/// Runs the pipeline of an activity payload against the stored plots.
pub fn validate_activity(plots: &Table<FarmPlot>, payload: &ActivityPayload) -> (r: Result<
    (),
    Fault,
>)
    ensures
        r == activity_verdict(plots@, payload@),
{
    if payload.plot_id.as_str().is_empty() || payload.description.as_str().is_empty()
        || payload.date.as_str().is_empty() {
        return Err(Fault::ActivityFieldsMissing);
    }
    match parse_id(payload.plot_id.as_str()) {
        None => Err(Fault::PlotIdInvalid),
        Some(id) => if plots.contains(id) {
            Ok(())
        } else {
            Err(Fault::PlotUnknown)
        },
    }
}

/// Runs the pipeline of a resource payload.
pub fn validate_resource(payload: &ResourcePayload) -> (r: Result<(), Fault>)
    ensures
        r == resource_verdict(payload@),
{
    if payload.name.as_str().is_empty() || payload.quantity == 0 {
        Err(Fault::ResourceFieldsMissing)
    } else {
        Ok(())
    }
}

/// Runs the pipeline of an event payload.
pub fn validate_event(payload: &EventPayload) -> (r: Result<(), Fault>)
    ensures
        r == event_verdict(payload@),
{
    if payload.title.as_str().is_empty() || payload.description.as_str().is_empty()
        || payload.date.as_str().is_empty() || payload.location.as_str().is_empty() {
        Err(Fault::EventFieldsMissing)
    } else {
        Ok(())
    }
}

} // verus!
