//! The store: the identifier allocator and the five tables, and the
//! operations that create, update and upsert records in them.
//!
//! Every operation comes twice. The plain one (`create_farmer_profile`)
//! demands of its caller that the operation can go through: that an
//! identifier is left to issue and that the record fits the size bound. The
//! guarded one (`try_create_farmer_profile`) demands nothing but an intact
//! store, tests those conditions itself, and answers `None` where they fail.

use crate::activity::{ActivityPayload, FarmingActivity};
use crate::allocator::IdAllocator;
use crate::arena::{
    MemoryArena, ACTIVITIES_REGION, COUNTER_REGION, EVENTS_REGION, FARMERS_REGION, PLOTS_REGION,
    RESOURCES_REGION,
};
use crate::codec::{is_storable, storable, Entity};
use crate::decimal::{format_id, parse_id, parsed_id};
use crate::event::{Event, EventPayload};
use crate::farmer::{Farmer, FarmerPayload};
use crate::message::{Fault, Message};
use crate::model::{
    new_activity, new_event, new_farmer, new_plot, new_resource, revised_activity,
    revised_farmer, revised_plot, StoreView,
};
use crate::pattern::{email_well_formed, phone_well_formed};
use crate::plot::{FarmPlot, PlotPayload};
use crate::resource::{Resource, ResourcePayload};
use crate::table::Table;
use crate::validation::{
    activity_verdict, emails_unique, farmer_verdict, plot_verdict, validate_activity,
    validate_event, validate_farmer, validate_plot, validate_resource,
};
use vstd::prelude::*;

verus! {

/// The durable state of the service.
pub struct Store {
    arena: MemoryArena,
    ids: IdAllocator,
    farmers: Table<Farmer>,
    plots: Table<FarmPlot>,
    activities: Table<FarmingActivity>,
    resources: Table<Resource>,
    events: Table<Event>,
}

impl View for Store {
    type V = StoreView;

    closed spec fn view(&self) -> StoreView {
        StoreView {
            last_id: self.ids.last_issued(),
            farmers: self.farmers@,
            plots: self.plots@,
            activities: self.activities@,
            resources: self.resources@,
            events: self.events@,
        }
    }
}

/// What an operation on records of kind `E` may store is within the size bound.
pub open spec fn fits<E: Entity>(outcome: Result<E::V, Fault>) -> bool {
    outcome matches Ok(record) ==> storable(E::encoding(record).len())
}

/// A creation can go through: where the pipeline accepts it, an identifier is
/// left to issue and the record is within the size bound.
pub open spec fn creation_admitted<E: Entity>(s: StoreView, outcome: Result<E::V, Fault>) -> bool {
    (outcome is Ok ==> s.last_id < u64::MAX) && fits::<E>(outcome)
}

/// The result of an operation reports what the model says: the record that
/// was stored, or the message of the fault that refused it.
pub open spec fn reports<E: Entity>(r: Result<E, Message>, outcome: Result<E::V, Fault>) -> bool {
    match outcome {
        Ok(record) => r matches Ok(stored) && stored@ == record,
        Err(fault) => r matches Err(message) && message@ == fault.message(),
    }
}

/// What a guarded operation answers: nothing where the operation cannot go
/// through, and else what the operation itself answers.
pub open spec fn guarded<E: Entity>(
    r: Option<Result<E, Message>>,
    admitted: bool,
    outcome: Result<E::V, Fault>,
) -> bool {
    match r {
        None => !admitted,
        Some(result) => admitted && reports(result, outcome),
    }
}

fn draft_farmer(id: u64, payload: &FarmerPayload, owner: &String, now: u64) -> (record: Farmer)
    ensures
        record@ == new_farmer(id, payload@, owner@, now),
{
    Farmer {
        farmer_id: format_id(id),
        owner: owner.clone(),
        name: payload.name.clone(),
        email: payload.email.clone(),
        phone_number: payload.phone_number.clone(),
        created_at: format_id(now),
    }
}

fn redraft_farmer(stored: Farmer, payload: &FarmerPayload) -> (record: Farmer)
    ensures
        record@ == revised_farmer(stored@, payload@),
{
    let mut record = stored;
    record.name = payload.name.clone();
    record.email = payload.email.clone();
    record.phone_number = payload.phone_number.clone();
    record
}

fn draft_plot(id: u64, payload: &PlotPayload, now: u64) -> (record: FarmPlot)
    ensures
        record@ == new_plot(id, payload@, now),
{
    FarmPlot {
        id: format_id(id),
        farmer_id: payload.farmer_id.clone(),
        size: payload.size.clone(),
        location: payload.location.clone(),
        reserved_until: payload.reserved_until.clone(),
        created_at: format_id(now),
    }
}

fn redraft_plot(stored: FarmPlot, payload: &PlotPayload) -> (record: FarmPlot)
    ensures
        record@ == revised_plot(stored@, payload@),
{
    let mut record = stored;
    record.farmer_id = payload.farmer_id.clone();
    record.size = payload.size.clone();
    record.location = payload.location.clone();
    record.reserved_until = payload.reserved_until.clone();
    record
}

fn draft_activity(id: u64, payload: &ActivityPayload, now: u64) -> (record: FarmingActivity)
    ensures
        record@ == new_activity(id, payload@, now),
{
    FarmingActivity {
        id: format_id(id),
        plot_id: payload.plot_id.clone(),
        description: payload.description.clone(),
        date: payload.date.clone(),
        created_at: format_id(now),
    }
}

fn redraft_activity(stored: FarmingActivity, payload: &ActivityPayload) -> (record:
    FarmingActivity)
    ensures
        record@ == revised_activity(stored@, payload@),
{
    let mut record = stored;
    record.plot_id = payload.plot_id.clone();
    record.description = payload.description.clone();
    record.date = payload.date.clone();
    record
}

fn draft_resource(id: u64, payload: &ResourcePayload, now: u64) -> (record: Resource)
    ensures
        record@ == new_resource(id, payload@, now),
{
    Resource {
        id: format_id(id),
        name: payload.name.clone(),
        quantity: payload.quantity,
        available: payload.available,
        created_at: format_id(now),
    }
}

fn draft_event(id: u64, payload: &EventPayload, now: u64) -> (record: Event)
    ensures
        record@ == new_event(id, payload@, now),
{
    Event {
        id: format_id(id),
        title: payload.title.clone(),
        description: payload.description.clone(),
        date: payload.date.clone(),
        location: payload.location.clone(),
        created_at: format_id(now),
    }
}

impl Store {
    /// Each structure sits in its own region: the counter in region 0, then
    /// farmers, plots, activities, resources and events in regions 1 to 5.
    pub closed spec fn laid_out(&self) -> bool {
        &&& self.ids.region() == COUNTER_REGION
        &&& self.farmers.region() == FARMERS_REGION
        &&& self.plots.region() == PLOTS_REGION
        &&& self.activities.region() == ACTIVITIES_REGION
        &&& self.resources.region() == RESOURCES_REGION
        &&& self.events.region() == EVENTS_REGION
    }

    /// Every value in every table is within the size bound and decodes.
    pub closed spec fn intact(&self) -> bool {
        &&& self.farmers.intact()
        &&& self.plots.intact()
        &&& self.activities.intact()
        &&& self.resources.intact()
        &&& self.events.intact()
    }

    /// The store is laid out as designed and holds nothing that fails to decode.
    pub open spec fn wf(&self) -> bool {
        self.laid_out() && self.intact()
    }

    /// The arena that the store was opened in and keeps until it is closed.
    pub closed spec fn arena(&self) -> MemoryArena {
        self.arena
    }

    /// Attaches to whatever the arena's regions hold, decodable or not.
    fn load(arena: MemoryArena) -> (store: Store)
        ensures
            store.laid_out(),
            store.arena() == arena,
    {
        let ids = IdAllocator::open(arena.region(COUNTER_REGION));
        let farmers = Table::open(arena.region(FARMERS_REGION));
        let plots = Table::open(arena.region(PLOTS_REGION));
        let activities = Table::open(arena.region(ACTIVITIES_REGION));
        let resources = Table::open(arena.region(RESOURCES_REGION));
        let events = Table::open(arena.region(EVENTS_REGION));
        Store { arena, ids, farmers, plots, activities, resources, events }
    }

    /// Whether every value in every table is within the size bound and decodes.
    pub fn is_intact(&self) -> (ok: bool)
        ensures
            ok == self.intact(),
    {
        self.farmers.is_intact() && self.plots.is_intact() && self.activities.is_intact()
            && self.resources.is_intact() && self.events.is_intact()
    }

    /// Keeps a store that is intact and drops one that is not: `Some` of the
    /// very store exactly where every value in every table is within the
    /// size bound and decodes.
    pub fn keep_intact(store: Store) -> (kept: Option<Store>)
        ensures
            kept is Some <==> store.intact(),
            kept matches Some(s) ==> s == store,
    {
        if store.is_intact() {
            Some(store)
        } else {
            None
        }
    }

    /// Opens the store that the arena holds. `None` reports durable state
    /// that does not decode; which of the two comes back is decided by what
    /// the arena's regions hold, as `keep_intact` says of the store that was
    /// loaded from them. The store keeps the arena it was given until it is
    /// closed, so that no second store can write to the same regions.
    pub fn open_in(arena: MemoryArena) -> (store: Option<Store>)
        ensures
            store matches Some(s) ==> (s.wf() && s.arena() == arena),
    {
        Store::keep_intact(Store::load(arena))
    }

    /// Opens the store over the durable memory of the process, once per
    /// process. `None` reports durable state that does not decode.
    pub fn open() -> (store: Option<Store>)
        ensures
            store matches Some(s) ==> s.wf(),
    {
        Store::open_in(MemoryArena::new())
    }

    /// Closes the store and gives back the arena that it was opened in; what
    /// was stored stays in its regions and is found again by the next
    /// `open_in`.
    pub fn close(self) -> (arena: MemoryArena)
        ensures
            arena == self.arena(),
    {
        self.arena
    }

    /// The identifier issued last; zero where none was issued yet.
    pub fn last_id(&self) -> (id: u64)
        ensures
            id == self@.last_id,
    {
        self.ids.last()
    }

    /// The farmers table.
    pub fn farmers(&self) -> (table: &Table<Farmer>)
        ensures
            table@ == self@.farmers,
            self.wf() ==> table.intact(),
    {
        &self.farmers
    }

    /// The plots table.
    pub fn plots(&self) -> (table: &Table<FarmPlot>)
        ensures
            table@ == self@.plots,
            self.wf() ==> table.intact(),
    {
        &self.plots
    }

    /// The activities table.
    pub fn activities(&self) -> (table: &Table<FarmingActivity>)
        ensures
            table@ == self@.activities,
            self.wf() ==> table.intact(),
    {
        &self.activities
    }

    /// The resources table.
    pub fn resources(&self) -> (table: &Table<Resource>)
        ensures
            table@ == self@.resources,
            self.wf() ==> table.intact(),
    {
        &self.resources
    }

    /// The events table.
    pub fn events(&self) -> (table: &Table<Event>)
        ensures
            table@ == self@.events,
            self.wf() ==> table.intact(),
    {
        &self.events
    }

    /// Creates a farmer. The payload passes the pipeline (fields present,
    /// email and phone number well formed, email not yet stored), or the
    /// first fault is reported and nothing changes. An accepted farmer gets
    /// the next identifier, the caller's identity and the current time, and
    /// is stored under that identifier.
    pub fn create_farmer_profile(
        &mut self,
        payload: FarmerPayload,
        owner: String,
        now: u64,
    ) -> (r: Result<Farmer, Message>)
        requires
            old(self).wf(),
            creation_admitted::<Farmer>(
                old(self)@,
                old(self)@.create_farmer(payload@, owner@, now).1,
            ),
        ensures
            final(self).wf(),
            final(self).arena() == old(self).arena(),
            final(self)@ == old(self)@.create_farmer(payload@, owner@, now).0,
            reports(r, old(self)@.create_farmer(payload@, owner@, now).1),
            r is Err ==> final(self)@ == old(self)@,
            r matches Err(message) ==> message@ is InvalidPayload,
            r is Ok ==> final(self)@.last_id == old(self)@.last_id + 1,
            r is Ok ==> email_well_formed(payload@.email) && phone_well_formed(
                payload@.phone_number,
            ),
            !email_well_formed(payload@.email) || !phone_well_formed(payload@.phone_number) ==> ({
                r matches Err(message) && message@ is InvalidPayload
            }),
            emails_unique(old(self)@.farmers) ==> emails_unique(final(self)@.farmers),
            old(self)@.consistent() ==> final(self)@.consistent(),
    {
        match validate_farmer(&self.farmers, &payload) {
            Err(fault) => Err(fault.report()),
            Ok(()) => {
                let id = self.ids.next();
                let record = draft_farmer(id, &payload, &owner, now);
                self.farmers.put(id, &record);
                Ok(record)
            },
        }
    }

    /// Updates a farmer. The identifier is read as a number, the payload
    /// passes the same pipeline as a creation, and a farmer is stored under
    /// the identifier; or the first fault is reported and nothing changes.
    /// The payload's fields replace the stored ones.
    pub fn update_farmer_profile(
        &mut self,
        farmer_id: String,
        payload: FarmerPayload,
    ) -> (r: Result<Farmer, Message>)
        requires
            old(self).wf(),
            fits::<Farmer>(old(self)@.update_farmer(farmer_id@, payload@).1),
        ensures
            final(self).wf(),
            final(self).arena() == old(self).arena(),
            final(self)@ == old(self)@.update_farmer(farmer_id@, payload@).0,
            reports(r, old(self)@.update_farmer(farmer_id@, payload@).1),
            r is Err ==> final(self)@ == old(self)@,
            final(self)@.last_id == old(self)@.last_id,
            (r matches Err(message) && message@ is NotFound) <==> ({
                &&& parsed_id(farmer_id@) matches Some(id)
                    && !old(self)@.farmers.contains_key(id)
                &&& farmer_verdict(old(self)@.farmers, payload@) is Ok
            }),
            r is Ok ==> email_well_formed(payload@.email) && phone_well_formed(
                payload@.phone_number,
            ),
            !email_well_formed(payload@.email) || !phone_well_formed(payload@.phone_number) ==> ({
                r matches Err(message) && message@ is InvalidPayload
            }),
            emails_unique(old(self)@.farmers) ==> emails_unique(final(self)@.farmers),
            old(self)@.consistent() ==> final(self)@.consistent(),
    {
        let id = match parse_id(farmer_id.as_str()) {
            Some(id) => id,
            None => return Err(Fault::FarmerIdInvalid.report()),
        };
        match validate_farmer(&self.farmers, &payload) {
            Err(fault) => Err(fault.report()),
            Ok(()) => match self.farmers.get(id) {
                None => Err(Fault::FarmerNotFound.report()),
                Some(stored) => {
                    let record = redraft_farmer(stored, &payload);
                    self.farmers.put(id, &record);
                    Ok(record)
                },
            },
        }
    }

    /// Creates a plot. The payload passes the pipeline (fields present, the
    /// farmer's identifier a number, a farmer stored under it), or the first
    /// fault is reported and nothing changes. An accepted plot gets the next
    /// identifier and the current time, and is stored under that identifier.
    pub fn create_farm_plot(
        &mut self,
        payload: PlotPayload,
        now: u64,
    ) -> (r: Result<FarmPlot, Message>)
        requires
            old(self).wf(),
            creation_admitted::<FarmPlot>(
                old(self)@,
                old(self)@.create_plot(payload@, now).1,
            ),
        ensures
            final(self).wf(),
            final(self).arena() == old(self).arena(),
            final(self)@ == old(self)@.create_plot(payload@, now).0,
            reports(r, old(self)@.create_plot(payload@, now).1),
            r is Err ==> final(self)@ == old(self)@,
            r matches Err(message) ==> message@ is InvalidPayload,
            r is Ok ==> final(self)@.last_id == old(self)@.last_id + 1,
            old(self)@.consistent() ==> final(self)@.consistent(),
    {
        match validate_plot(&self.farmers, &payload) {
            Err(fault) => Err(fault.report()),
            Ok(()) => {
                let id = self.ids.next();
                let record = draft_plot(id, &payload, now);
                self.plots.put(id, &record);
                Ok(record)
            },
        }
    }

    /// Updates a plot. The identifier is read as a number, the payload passes
    /// the pipeline, and a plot is stored under the identifier; or the first
    /// fault is reported and nothing changes. The payload's fields replace the
    /// stored ones.
    pub fn update_farm_plot(
        &mut self,
        plot_id: String,
        payload: PlotPayload,
    ) -> (r: Result<FarmPlot, Message>)
        requires
            old(self).wf(),
            fits::<FarmPlot>(old(self)@.update_plot(plot_id@, payload@).1),
        ensures
            final(self).wf(),
            final(self).arena() == old(self).arena(),
            final(self)@ == old(self)@.update_plot(plot_id@, payload@).0,
            reports(r, old(self)@.update_plot(plot_id@, payload@).1),
            r is Err ==> final(self)@ == old(self)@,
            final(self)@.last_id == old(self)@.last_id,
            (r matches Err(message) && message@ is NotFound) <==> ({
                &&& parsed_id(plot_id@) matches Some(id)
                    && !old(self)@.plots.contains_key(id)
                &&& plot_verdict(old(self)@.farmers, payload@) is Ok
            }),
            old(self)@.consistent() ==> final(self)@.consistent(),
    {
        let id = match parse_id(plot_id.as_str()) {
            Some(id) => id,
            None => return Err(Fault::PlotIdInvalid.report()),
        };
        match validate_plot(&self.farmers, &payload) {
            Err(fault) => Err(fault.report()),
            Ok(()) => match self.plots.get(id) {
                None => Err(Fault::PlotNotFound.report()),
                Some(stored) => {
                    let record = redraft_plot(stored, &payload);
                    self.plots.put(id, &record);
                    Ok(record)
                },
            },
        }
    }

    /// Creates an activity. The payload passes the pipeline (fields present,
    /// the plot's identifier a number, a plot stored under it), or the first
    /// fault is reported and nothing changes. An accepted activity gets the
    /// next identifier and the current time, and is stored under that
    /// identifier.
    pub fn create_farming_activity(
        &mut self,
        payload: ActivityPayload,
        now: u64,
    ) -> (r: Result<FarmingActivity, Message>)
        requires
            old(self).wf(),
            creation_admitted::<FarmingActivity>(
                old(self)@,
                old(self)@.create_activity(payload@, now).1,
            ),
        ensures
            final(self).wf(),
            final(self).arena() == old(self).arena(),
            final(self)@ == old(self)@.create_activity(payload@, now).0,
            reports(r, old(self)@.create_activity(payload@, now).1),
            r is Err ==> final(self)@ == old(self)@,
            r matches Err(message) ==> message@ is InvalidPayload,
            r is Ok ==> final(self)@.last_id == old(self)@.last_id + 1,
            old(self)@.consistent() ==> final(self)@.consistent(),
    {
        match validate_activity(&self.plots, &payload) {
            Err(fault) => Err(fault.report()),
            Ok(()) => {
                let id = self.ids.next();
                let record = draft_activity(id, &payload, now);
                self.activities.put(id, &record);
                Ok(record)
            },
        }
    }

    /// Updates an activity. The identifier is read as a number, the payload
    /// passes the pipeline, and an activity is stored under the identifier;
    /// or the first fault is reported and nothing changes. The payload's
    /// fields replace the stored ones.
    pub fn update_farming_activity(
        &mut self,
        activity_id: String,
        payload: ActivityPayload,
    ) -> (r: Result<FarmingActivity, Message>)
        requires
            old(self).wf(),
            fits::<FarmingActivity>(old(self)@.update_activity(activity_id@, payload@).1),
        ensures
            final(self).wf(),
            final(self).arena() == old(self).arena(),
            final(self)@ == old(self)@.update_activity(activity_id@, payload@).0,
            reports(r, old(self)@.update_activity(activity_id@, payload@).1),
            r is Err ==> final(self)@ == old(self)@,
            final(self)@.last_id == old(self)@.last_id,
            (r matches Err(message) && message@ is NotFound) <==> ({
                &&& parsed_id(activity_id@) matches Some(id)
                    && !old(self)@.activities.contains_key(id)
                &&& activity_verdict(old(self)@.plots, payload@) is Ok
            }),
            old(self)@.consistent() ==> final(self)@.consistent(),
    {
        let id = match parse_id(activity_id.as_str()) {
            Some(id) => id,
            None => return Err(Fault::ActivityIdInvalid.report()),
        };
        match validate_activity(&self.plots, &payload) {
            Err(fault) => Err(fault.report()),
            Ok(()) => match self.activities.get(id) {
                None => Err(Fault::ActivityNotFound.report()),
                Some(stored) => {
                    let record = redraft_activity(stored, &payload);
                    self.activities.put(id, &record);
                    Ok(record)
                },
            },
        }
    }

    /// Upserts a resource. The identifier is read as a number and the payload
    /// passes the pipeline (a name, a quantity above zero), or the first fault
    /// is reported and nothing changes. The record, with the current time, is
    /// stored under the identifier and replaces whatever was stored there.
    pub fn upsert_resource(
        &mut self,
        resource_id: String,
        payload: ResourcePayload,
        now: u64,
    ) -> (r: Result<Resource, Message>)
        requires
            old(self).wf(),
            fits::<Resource>(old(self)@.upsert_resource(resource_id@, payload@, now).1),
        ensures
            final(self).wf(),
            final(self).arena() == old(self).arena(),
            final(self)@ == old(self)@.upsert_resource(resource_id@, payload@, now).0,
            reports(r, old(self)@.upsert_resource(resource_id@, payload@, now).1),
            r is Err ==> final(self)@ == old(self)@,
            r matches Err(message) ==> message@ is InvalidPayload,
            r matches Ok(stored) ==> ({
                &&& parsed_id(resource_id@) matches Some(id) && final(self)@.resources
                    == old(self)@.resources.insert(id, stored@)
            }),
            old(self)@.consistent() ==> final(self)@.consistent(),
    {
        let id = match parse_id(resource_id.as_str()) {
            Some(id) => id,
            None => return Err(Fault::ResourceIdInvalid.report()),
        };
        match validate_resource(&payload) {
            Err(fault) => Err(fault.report()),
            Ok(()) => {
                let record = draft_resource(id, &payload, now);
                self.resources.put(id, &record);
                Ok(record)
            },
        }
    }

    /// Upserts an event. The identifier is read as a number and the payload
    /// passes the pipeline (all four fields present), or the first fault is
    /// reported and nothing changes. The record, with the current time, is
    /// stored under the identifier and replaces whatever was stored there.
    pub fn upsert_event(
        &mut self,
        event_id: String,
        payload: EventPayload,
        now: u64,
    ) -> (r: Result<Event, Message>)
        requires
            old(self).wf(),
            fits::<Event>(old(self)@.upsert_event(event_id@, payload@, now).1),
        ensures
            final(self).wf(),
            final(self).arena() == old(self).arena(),
            final(self)@ == old(self)@.upsert_event(event_id@, payload@, now).0,
            reports(r, old(self)@.upsert_event(event_id@, payload@, now).1),
            r is Err ==> final(self)@ == old(self)@,
            r matches Err(message) ==> message@ is InvalidPayload,
            r matches Ok(stored) ==> ({
                &&& parsed_id(event_id@) matches Some(id) && final(self)@.events
                    == old(self)@.events.insert(id, stored@)
            }),
            old(self)@.consistent() ==> final(self)@.consistent(),
    {
        let id = match parse_id(event_id.as_str()) {
            Some(id) => id,
            None => return Err(Fault::EventIdInvalid.report()),
        };
        match validate_event(&payload) {
            Err(fault) => Err(fault.report()),
            Ok(()) => {
                let record = draft_event(id, &payload, now);
                self.events.put(id, &record);
                Ok(record)
            },
        }
    }

    /// Whether a creation of this farmer can go through. The pipeline is run
    /// only where no identifier is left or the record would not fit: there
    /// a refusal is all that lets the operation through.
    fn admits_farmer_creation(
        &self,
        payload: &FarmerPayload,
        owner: &String,
        now: u64,
    ) -> (ok: bool)
        requires
            self.wf(),
        ensures
            ok == creation_admitted::<Farmer>(
                self@,
                self@.create_farmer(payload@, owner@, now).1,
            ),
    {
        let last = self.ids.last();
        if last < u64::MAX && is_storable(&draft_farmer(last + 1, payload, owner, now)) {
            true
        } else {
            validate_farmer(&self.farmers, payload).is_err()
        }
    }

    /// Creates a farmer where the creation can go through, and else does
    /// nothing and answers `None`.
    pub fn try_create_farmer_profile(
        &mut self,
        payload: FarmerPayload,
        owner: String,
        now: u64,
    ) -> (r: Option<Result<Farmer, Message>>)
        requires
            old(self).wf(),
        ensures
            final(self).wf(),
            final(self).arena() == old(self).arena(),
            ({
                let (after, outcome) = old(self)@.create_farmer(payload@, owner@, now);
                let admitted = creation_admitted::<Farmer>(old(self)@, outcome);
                &&& guarded(r, admitted, outcome)
                &&& final(self)@ == (if admitted {
                    after
                } else {
                    old(self)@
                })
            }),
            !(r matches Some(Ok(_))) ==> final(self)@ == old(self)@,
            r matches Some(Ok(_)) ==> final(self)@.last_id == old(self)@.last_id + 1,
            r matches Some(Ok(_)) ==> email_well_formed(payload@.email) && phone_well_formed(
                payload@.phone_number,
            ),
            emails_unique(old(self)@.farmers) ==> emails_unique(final(self)@.farmers),
            old(self)@.consistent() ==> final(self)@.consistent(),
    {
        if self.admits_farmer_creation(&payload, &owner, now) {
            Some(self.create_farmer_profile(payload, owner, now))
        } else {
            None
        }
    }

    /// Whether an update of this farmer can go through. The pipeline is run
    /// only where the record would not fit: there a refusal is all that
    /// lets the operation through.
    fn admits_farmer_update(&self, farmer_id: &String, payload: &FarmerPayload) -> (ok: bool)
        requires
            self.wf(),
        ensures
            ok == fits::<Farmer>(self@.update_farmer(farmer_id@, payload@).1),
    {
        let stored = match parse_id(farmer_id.as_str()) {
            Some(id) => self.farmers.get(id),
            None => None,
        };
        match stored {
            None => true,
            Some(stored) => is_storable(&redraft_farmer(stored, payload))
                || validate_farmer(&self.farmers, payload).is_err(),
        }
    }

    /// Updates a farmer where the update can go through, and else does
    /// nothing and answers `None`.
    pub fn try_update_farmer_profile(
        &mut self,
        farmer_id: String,
        payload: FarmerPayload,
    ) -> (r: Option<Result<Farmer, Message>>)
        requires
            old(self).wf(),
        ensures
            final(self).wf(),
            final(self).arena() == old(self).arena(),
            ({
                let (after, outcome) = old(self)@.update_farmer(farmer_id@, payload@);
                let admitted = fits::<Farmer>(outcome);
                &&& guarded(r, admitted, outcome)
                &&& final(self)@ == (if admitted {
                    after
                } else {
                    old(self)@
                })
            }),
            !(r matches Some(Ok(_))) ==> final(self)@ == old(self)@,
            final(self)@.last_id == old(self)@.last_id,
            (r matches Some(Err(message)) && message@ is NotFound) <==> ({
                &&& parsed_id(farmer_id@) matches Some(id)
                    && !old(self)@.farmers.contains_key(id)
                &&& farmer_verdict(old(self)@.farmers, payload@) is Ok
            }),
            r matches Some(Ok(_)) ==> email_well_formed(payload@.email) && phone_well_formed(
                payload@.phone_number,
            ),
            emails_unique(old(self)@.farmers) ==> emails_unique(final(self)@.farmers),
            old(self)@.consistent() ==> final(self)@.consistent(),
    {
        if self.admits_farmer_update(&farmer_id, &payload) {
            Some(self.update_farmer_profile(farmer_id, payload))
        } else {
            None
        }
    }

    /// Whether a creation of this plot can go through. The pipeline is run
    /// only where no identifier is left or the record would not fit: there
    /// a refusal is all that lets the operation through.
    fn admits_plot_creation(&self, payload: &PlotPayload, now: u64) -> (ok: bool)
        requires
            self.wf(),
        ensures
            ok == creation_admitted::<FarmPlot>(
                self@,
                self@.create_plot(payload@, now).1,
            ),
    {
        let last = self.ids.last();
        if last < u64::MAX && is_storable(&draft_plot(last + 1, payload, now)) {
            true
        } else {
            validate_plot(&self.farmers, payload).is_err()
        }
    }

    /// Creates a plot where the creation can go through, and else does
    /// nothing and answers `None`.
    pub fn try_create_farm_plot(
        &mut self,
        payload: PlotPayload,
        now: u64,
    ) -> (r: Option<Result<FarmPlot, Message>>)
        requires
            old(self).wf(),
        ensures
            final(self).wf(),
            final(self).arena() == old(self).arena(),
            ({
                let (after, outcome) = old(self)@.create_plot(payload@, now);
                let admitted = creation_admitted::<FarmPlot>(old(self)@, outcome);
                &&& guarded(r, admitted, outcome)
                &&& final(self)@ == (if admitted {
                    after
                } else {
                    old(self)@
                })
            }),
            !(r matches Some(Ok(_))) ==> final(self)@ == old(self)@,
            r matches Some(Ok(_)) ==> final(self)@.last_id == old(self)@.last_id + 1,
            old(self)@.consistent() ==> final(self)@.consistent(),
    {
        if self.admits_plot_creation(&payload, now) {
            Some(self.create_farm_plot(payload, now))
        } else {
            None
        }
    }

    /// Whether an update of this plot can go through. The pipeline is run
    /// only where the record would not fit: there a refusal is all that
    /// lets the operation through.
    fn admits_plot_update(&self, plot_id: &String, payload: &PlotPayload) -> (ok: bool)
        requires
            self.wf(),
        ensures
            ok == fits::<FarmPlot>(self@.update_plot(plot_id@, payload@).1),
    {
        let stored = match parse_id(plot_id.as_str()) {
            Some(id) => self.plots.get(id),
            None => None,
        };
        match stored {
            None => true,
            Some(stored) => is_storable(&redraft_plot(stored, payload))
                || validate_plot(&self.farmers, payload).is_err(),
        }
    }

    /// Updates a plot where the update can go through, and else does
    /// nothing and answers `None`.
    pub fn try_update_farm_plot(
        &mut self,
        plot_id: String,
        payload: PlotPayload,
    ) -> (r: Option<Result<FarmPlot, Message>>)
        requires
            old(self).wf(),
        ensures
            final(self).wf(),
            final(self).arena() == old(self).arena(),
            ({
                let (after, outcome) = old(self)@.update_plot(plot_id@, payload@);
                let admitted = fits::<FarmPlot>(outcome);
                &&& guarded(r, admitted, outcome)
                &&& final(self)@ == (if admitted {
                    after
                } else {
                    old(self)@
                })
            }),
            !(r matches Some(Ok(_))) ==> final(self)@ == old(self)@,
            final(self)@.last_id == old(self)@.last_id,
            (r matches Some(Err(message)) && message@ is NotFound) <==> ({
                &&& parsed_id(plot_id@) matches Some(id)
                    && !old(self)@.plots.contains_key(id)
                &&& plot_verdict(old(self)@.farmers, payload@) is Ok
            }),
            old(self)@.consistent() ==> final(self)@.consistent(),
    {
        if self.admits_plot_update(&plot_id, &payload) {
            Some(self.update_farm_plot(plot_id, payload))
        } else {
            None
        }
    }

    /// Whether a creation of this activity can go through. The pipeline is run
    /// only where no identifier is left or the record would not fit: there
    /// a refusal is all that lets the operation through.
    fn admits_activity_creation(&self, payload: &ActivityPayload, now: u64) -> (ok: bool)
        requires
            self.wf(),
        ensures
            ok == creation_admitted::<FarmingActivity>(
                self@,
                self@.create_activity(payload@, now).1,
            ),
    {
        let last = self.ids.last();
        if last < u64::MAX && is_storable(&draft_activity(last + 1, payload, now)) {
            true
        } else {
            validate_activity(&self.plots, payload).is_err()
        }
    }

    /// Creates an activity where the creation can go through, and else does
    /// nothing and answers `None`.
    pub fn try_create_farming_activity(
        &mut self,
        payload: ActivityPayload,
        now: u64,
    ) -> (r: Option<Result<FarmingActivity, Message>>)
        requires
            old(self).wf(),
        ensures
            final(self).wf(),
            final(self).arena() == old(self).arena(),
            ({
                let (after, outcome) = old(self)@.create_activity(payload@, now);
                let admitted = creation_admitted::<FarmingActivity>(old(self)@, outcome);
                &&& guarded(r, admitted, outcome)
                &&& final(self)@ == (if admitted {
                    after
                } else {
                    old(self)@
                })
            }),
            !(r matches Some(Ok(_))) ==> final(self)@ == old(self)@,
            r matches Some(Ok(_)) ==> final(self)@.last_id == old(self)@.last_id + 1,
            old(self)@.consistent() ==> final(self)@.consistent(),
    {
        if self.admits_activity_creation(&payload, now) {
            Some(self.create_farming_activity(payload, now))
        } else {
            None
        }
    }

    /// Whether an update of this activity can go through. The pipeline is run
    /// only where the record would not fit: there a refusal is all that
    /// lets the operation through.
    fn admits_activity_update(&self, activity_id: &String, payload: &ActivityPayload) -> (ok: bool)
        requires
            self.wf(),
        ensures
            ok == fits::<FarmingActivity>(self@.update_activity(activity_id@, payload@).1),
    {
        let stored = match parse_id(activity_id.as_str()) {
            Some(id) => self.activities.get(id),
            None => None,
        };
        match stored {
            None => true,
            Some(stored) => is_storable(&redraft_activity(stored, payload))
                || validate_activity(&self.plots, payload).is_err(),
        }
    }

    /// Updates an activity where the update can go through, and else does
    /// nothing and answers `None`.
    pub fn try_update_farming_activity(
        &mut self,
        activity_id: String,
        payload: ActivityPayload,
    ) -> (r: Option<Result<FarmingActivity, Message>>)
        requires
            old(self).wf(),
        ensures
            final(self).wf(),
            final(self).arena() == old(self).arena(),
            ({
                let (after, outcome) = old(self)@.update_activity(activity_id@, payload@);
                let admitted = fits::<FarmingActivity>(outcome);
                &&& guarded(r, admitted, outcome)
                &&& final(self)@ == (if admitted {
                    after
                } else {
                    old(self)@
                })
            }),
            !(r matches Some(Ok(_))) ==> final(self)@ == old(self)@,
            final(self)@.last_id == old(self)@.last_id,
            (r matches Some(Err(message)) && message@ is NotFound) <==> ({
                &&& parsed_id(activity_id@) matches Some(id)
                    && !old(self)@.activities.contains_key(id)
                &&& activity_verdict(old(self)@.plots, payload@) is Ok
            }),
            old(self)@.consistent() ==> final(self)@.consistent(),
    {
        if self.admits_activity_update(&activity_id, &payload) {
            Some(self.update_farming_activity(activity_id, payload))
        } else {
            None
        }
    }

    /// Whether an upsert of this resource can go through. The pipeline is run
    /// only where the record would not fit: there a refusal is all that
    /// lets the operation through.
    fn admits_resource_upsert(
        &self,
        resource_id: &String,
        payload: &ResourcePayload,
        now: u64,
    ) -> (ok: bool)
        requires
            self.wf(),
        ensures
            ok == fits::<Resource>(self@.upsert_resource(resource_id@, payload@, now).1),
    {
        match parse_id(resource_id.as_str()) {
            None => true,
            Some(id) => is_storable(&draft_resource(id, payload, now))
                || validate_resource(payload).is_err(),
        }
    }

    /// Upserts a resource where the upsert can go through, and else does
    /// nothing and answers `None`.
    pub fn try_upsert_resource(
        &mut self,
        resource_id: String,
        payload: ResourcePayload,
        now: u64,
    ) -> (r: Option<Result<Resource, Message>>)
        requires
            old(self).wf(),
        ensures
            final(self).wf(),
            final(self).arena() == old(self).arena(),
            ({
                let (after, outcome) = old(self)@.upsert_resource(resource_id@, payload@, now);
                let admitted = fits::<Resource>(outcome);
                &&& guarded(r, admitted, outcome)
                &&& final(self)@ == (if admitted {
                    after
                } else {
                    old(self)@
                })
            }),
            !(r matches Some(Ok(_))) ==> final(self)@ == old(self)@,
            r matches Some(Ok(stored)) ==> ({
                &&& parsed_id(resource_id@) matches Some(id) && final(self)@.resources
                    == old(self)@.resources.insert(id, stored@)
            }),
            old(self)@.consistent() ==> final(self)@.consistent(),
    {
        if self.admits_resource_upsert(&resource_id, &payload, now) {
            Some(self.upsert_resource(resource_id, payload, now))
        } else {
            None
        }
    }

    /// Whether an upsert of this event can go through. The pipeline is run
    /// only where the record would not fit: there a refusal is all that
    /// lets the operation through.
    fn admits_event_upsert(&self, event_id: &String, payload: &EventPayload, now: u64) -> (ok: bool)
        requires
            self.wf(),
        ensures
            ok == fits::<Event>(self@.upsert_event(event_id@, payload@, now).1),
    {
        match parse_id(event_id.as_str()) {
            None => true,
            Some(id) => is_storable(&draft_event(id, payload, now))
                || validate_event(payload).is_err(),
        }
    }

    /// Upserts an event where the upsert can go through, and else does
    /// nothing and answers `None`.
    pub fn try_upsert_event(
        &mut self,
        event_id: String,
        payload: EventPayload,
        now: u64,
    ) -> (r: Option<Result<Event, Message>>)
        requires
            old(self).wf(),
        ensures
            final(self).wf(),
            final(self).arena() == old(self).arena(),
            ({
                let (after, outcome) = old(self)@.upsert_event(event_id@, payload@, now);
                let admitted = fits::<Event>(outcome);
                &&& guarded(r, admitted, outcome)
                &&& final(self)@ == (if admitted {
                    after
                } else {
                    old(self)@
                })
            }),
            !(r matches Some(Ok(_))) ==> final(self)@ == old(self)@,
            r matches Some(Ok(stored)) ==> ({
                &&& parsed_id(event_id@) matches Some(id) && final(self)@.events
                    == old(self)@.events.insert(id, stored@)
            }),
            old(self)@.consistent() ==> final(self)@.consistent(),
    {
        if self.admits_event_upsert(&event_id, &payload, now) {
            Some(self.upsert_event(event_id, payload, now))
        } else {
            None
        }
    }
}

} // verus!
