//! The store as a mathematical value, what each operation makes of it, and
//! the laws that follow.

use crate::activity::{ActivityPayloadView, FarmingActivityView};
use crate::allocator::next_id;
use crate::decimal::{decimal_text, lemma_parse_of_decimal_text, parsed_id};
use crate::event::{EventPayloadView, EventView};
use crate::farmer::{FarmerPayloadView, FarmerView};
use crate::message::Fault;
use crate::pattern::{email_well_formed, phone_well_formed};
use crate::plot::{FarmPlotView, PlotPayloadView};
use crate::resource::{ResourcePayloadView, ResourceView};
use crate::validation::{
    activity_verdict, email_taken, emails_unique, event_verdict, farmer_verdict, plot_verdict,
    resource_verdict,
};
use vstd::prelude::*;

verus! {

/// Everything the store holds: the identifier issued last, and the five
/// tables by identifier.
pub struct StoreView {
    pub last_id: u64,
    pub farmers: Map<u64, FarmerView>,
    pub plots: Map<u64, FarmPlotView>,
    pub activities: Map<u64, FarmingActivityView>,
    pub resources: Map<u64, ResourceView>,
    pub events: Map<u64, EventView>,
}

/// The farmer that a creation stores.
pub open spec fn new_farmer(
    id: u64,
    p: FarmerPayloadView,
    owner: Seq<char>,
    now: u64,
) -> FarmerView {
    FarmerView {
        farmer_id: decimal_text(id as nat),
        owner,
        name: p.name,
        email: p.email,
        phone_number: p.phone_number,
        created_at: decimal_text(now as nat),
    }
}

/// The farmer that an update stores: the payload's fields over the stored
/// record, whose identifier, owner and time of creation stay.
pub open spec fn revised_farmer(stored: FarmerView, p: FarmerPayloadView) -> FarmerView {
    FarmerView { name: p.name, email: p.email, phone_number: p.phone_number, ..stored }
}

/// The plot that a creation stores.
pub open spec fn new_plot(id: u64, p: PlotPayloadView, now: u64) -> FarmPlotView {
    FarmPlotView {
        id: decimal_text(id as nat),
        farmer_id: p.farmer_id,
        size: p.size,
        location: p.location,
        reserved_until: p.reserved_until,
        created_at: decimal_text(now as nat),
    }
}

/// The plot that an update stores: the payload's fields over the stored
/// record, whose identifier and time of creation stay.
pub open spec fn revised_plot(stored: FarmPlotView, p: PlotPayloadView) -> FarmPlotView {
    FarmPlotView {
        farmer_id: p.farmer_id,
        size: p.size,
        location: p.location,
        reserved_until: p.reserved_until,
        ..stored
    }
}

/// The activity that a creation stores.
pub open spec fn new_activity(id: u64, p: ActivityPayloadView, now: u64) -> FarmingActivityView {
    FarmingActivityView {
        id: decimal_text(id as nat),
        plot_id: p.plot_id,
        description: p.description,
        date: p.date,
        created_at: decimal_text(now as nat),
    }
}

/// The activity that an update stores: the payload's fields over the stored
/// record, whose identifier and time of creation stay.
pub open spec fn revised_activity(
    stored: FarmingActivityView,
    p: ActivityPayloadView,
) -> FarmingActivityView {
    FarmingActivityView { plot_id: p.plot_id, description: p.description, date: p.date, ..stored }
}

/// The resource that an upsert stores.
pub open spec fn new_resource(id: u64, p: ResourcePayloadView, now: u64) -> ResourceView {
    ResourceView {
        id: decimal_text(id as nat),
        name: p.name,
        quantity: p.quantity,
        available: p.available,
        created_at: decimal_text(now as nat),
    }
}

/// The event that an upsert stores.
pub open spec fn new_event(id: u64, p: EventPayloadView, now: u64) -> EventView {
    EventView {
        id: decimal_text(id as nat),
        title: p.title,
        description: p.description,
        date: p.date,
        location: p.location,
        created_at: decimal_text(now as nat),
    }
}

impl StoreView {
    /// Creating a farmer: the pipeline, then the next identifier, then the
    /// record under it. A refusal changes nothing.
    pub open spec fn create_farmer(
        self,
        p: FarmerPayloadView,
        owner: Seq<char>,
        now: u64,
    ) -> (StoreView, Result<FarmerView, Fault>) {
        match farmer_verdict(self.farmers, p) {
            Err(fault) => (self, Err(fault)),
            Ok(()) => {
                let id = next_id(self.last_id);
                let record = new_farmer(id, p, owner, now);
                (
                    StoreView { last_id: id, farmers: self.farmers.insert(id, record), ..self },
                    Ok(record),
                )
            },
        }
    }

    /// Updating a farmer: the identifier is read, the pipeline runs, the
    /// record is looked up, and the payload's fields replace its own.
    pub open spec fn update_farmer(self, farmer_id: Seq<char>, p: FarmerPayloadView) -> (
        StoreView,
        Result<FarmerView, Fault>,
    ) {
        match parsed_id(farmer_id) {
            None => (self, Err(Fault::FarmerIdInvalid)),
            Some(id) => match farmer_verdict(self.farmers, p) {
                Err(fault) => (self, Err(fault)),
                Ok(()) => if !self.farmers.contains_key(id) {
                    (self, Err(Fault::FarmerNotFound))
                } else {
                    let record = revised_farmer(self.farmers[id], p);
                    (StoreView { farmers: self.farmers.insert(id, record), ..self }, Ok(record))
                },
            },
        }
    }

    /// Creating a plot: the pipeline, then the next identifier, then the
    /// record under it.
    pub open spec fn create_plot(self, p: PlotPayloadView, now: u64) -> (
        StoreView,
        Result<FarmPlotView, Fault>,
    ) {
        match plot_verdict(self.farmers, p) {
            Err(fault) => (self, Err(fault)),
            Ok(()) => {
                let id = next_id(self.last_id);
                let record = new_plot(id, p, now);
                (
                    StoreView { last_id: id, plots: self.plots.insert(id, record), ..self },
                    Ok(record),
                )
            },
        }
    }

    /// Updating a plot: the identifier is read, the pipeline runs, the record
    /// is looked up, and the payload's fields replace its own.
    pub open spec fn update_plot(self, plot_id: Seq<char>, p: PlotPayloadView) -> (
        StoreView,
        Result<FarmPlotView, Fault>,
    ) {
        match parsed_id(plot_id) {
            None => (self, Err(Fault::PlotIdInvalid)),
            Some(id) => match plot_verdict(self.farmers, p) {
                Err(fault) => (self, Err(fault)),
                Ok(()) => if !self.plots.contains_key(id) {
                    (self, Err(Fault::PlotNotFound))
                } else {
                    let record = revised_plot(self.plots[id], p);
                    (StoreView { plots: self.plots.insert(id, record), ..self }, Ok(record))
                },
            },
        }
    }

    /// Creating an activity: the pipeline, then the next identifier, then the
    /// record under it.
    pub open spec fn create_activity(self, p: ActivityPayloadView, now: u64) -> (
        StoreView,
        Result<FarmingActivityView, Fault>,
    ) {
        match activity_verdict(self.plots, p) {
            Err(fault) => (self, Err(fault)),
            Ok(()) => {
                let id = next_id(self.last_id);
                let record = new_activity(id, p, now);
                (
                    StoreView {
                        last_id: id,
                        activities: self.activities.insert(id, record),
                        ..self
                    },
                    Ok(record),
                )
            },
        }
    }

    /// Updating an activity: the identifier is read, the pipeline runs, the
    /// record is looked up, and the payload's fields replace its own.
    pub open spec fn update_activity(self, activity_id: Seq<char>, p: ActivityPayloadView) -> (
        StoreView,
        Result<FarmingActivityView, Fault>,
    ) {
        match parsed_id(activity_id) {
            None => (self, Err(Fault::ActivityIdInvalid)),
            Some(id) => match activity_verdict(self.plots, p) {
                Err(fault) => (self, Err(fault)),
                Ok(()) => if !self.activities.contains_key(id) {
                    (self, Err(Fault::ActivityNotFound))
                } else {
                    let record = revised_activity(self.activities[id], p);
                    (
                        StoreView { activities: self.activities.insert(id, record), ..self },
                        Ok(record),
                    )
                },
            },
        }
    }

    /// Upserting a resource: the identifier is read, the pipeline runs, and
    /// the record is stored under the identifier whether or not one was there.
    pub open spec fn upsert_resource(
        self,
        resource_id: Seq<char>,
        p: ResourcePayloadView,
        now: u64,
    ) -> (StoreView, Result<ResourceView, Fault>) {
        match parsed_id(resource_id) {
            None => (self, Err(Fault::ResourceIdInvalid)),
            Some(id) => match resource_verdict(p) {
                Err(fault) => (self, Err(fault)),
                Ok(()) => {
                    let record = new_resource(id, p, now);
                    (StoreView { resources: self.resources.insert(id, record), ..self }, Ok(record))
                },
            },
        }
    }

    /// Upserting an event: the identifier is read, the pipeline runs, and the
    /// record is stored under the identifier whether or not one was there.
    pub open spec fn upsert_event(self, event_id: Seq<char>, p: EventPayloadView, now: u64) -> (
        StoreView,
        Result<EventView, Fault>,
    ) {
        match parsed_id(event_id) {
            None => (self, Err(Fault::EventIdInvalid)),
            Some(id) => match event_verdict(p) {
                Err(fault) => (self, Err(fault)),
                Ok(()) => {
                    let record = new_event(id, p, now);
                    (StoreView { events: self.events.insert(id, record), ..self }, Ok(record))
                },
            },
        }
    }
}

/// After every creation of a farmer, accepted or refused, no two stored
/// farmers share an email, provided none did before; and the farmer that an
/// accepted creation stores is the only one with its email.
pub proof fn lemma_create_farmer_keeps_emails_unique(
    s: StoreView,
    p: FarmerPayloadView,
    owner: Seq<char>,
    now: u64,
)
    requires
        emails_unique(s.farmers),
    ensures
        emails_unique(s.create_farmer(p, owner, now).0.farmers),
        s.create_farmer(p, owner, now).1 is Ok ==> !email_taken(s.farmers, p.email),
{
}

/// After every update of a farmer, accepted or refused, no two stored farmers
/// share an email, provided none did before.
pub proof fn lemma_update_farmer_keeps_emails_unique(
    s: StoreView,
    farmer_id: Seq<char>,
    p: FarmerPayloadView,
)
    requires
        emails_unique(s.farmers),
    ensures
        emails_unique(s.update_farmer(farmer_id, p).0.farmers),
{
}

/// A stored farmer is as the pipeline left it: named by its identifier, with
/// every field present and an email and a phone number of the required forms.
pub open spec fn farmer_sound(id: u64, f: FarmerView) -> bool {
    &&& f.farmer_id == decimal_text(id as nat)
    &&& f.name.len() > 0
    &&& f.email.len() > 0
    &&& f.phone_number.len() > 0
    &&& email_well_formed(f.email)
    &&& phone_well_formed(f.phone_number)
}

/// A stored plot is named by its identifier, has every field present, and
/// belongs to a stored farmer.
pub open spec fn plot_sound(farmers: Map<u64, FarmerView>, id: u64, p: FarmPlotView) -> bool {
    &&& p.id == decimal_text(id as nat)
    &&& p.size.len() > 0
    &&& p.location.len() > 0
    &&& p.reserved_until.len() > 0
    &&& parsed_id(p.farmer_id) matches Some(farmer) && farmers.contains_key(farmer)
}

/// A stored activity is named by its identifier, has every field present,
/// and took place on a stored plot.
pub open spec fn activity_sound(
    plots: Map<u64, FarmPlotView>,
    id: u64,
    a: FarmingActivityView,
) -> bool {
    &&& a.id == decimal_text(id as nat)
    &&& a.description.len() > 0
    &&& a.date.len() > 0
    &&& parsed_id(a.plot_id) matches Some(plot) && plots.contains_key(plot)
}

/// A stored resource is named by its identifier, has a name and a quantity
/// above zero.
pub open spec fn resource_sound(id: u64, r: ResourceView) -> bool {
    &&& r.id == decimal_text(id as nat)
    &&& r.name.len() > 0
    &&& r.quantity > 0
}

/// A stored event is named by its identifier and has every field present.
pub open spec fn event_sound(id: u64, e: EventView) -> bool {
    &&& e.id == decimal_text(id as nat)
    &&& e.title.len() > 0
    &&& e.description.len() > 0
    &&& e.date.len() > 0
    &&& e.location.len() > 0
}

impl StoreView {
    /// The integrity of the stored data: every record is sound, no two
    /// farmers share an email, every plot has its farmer and every activity
    /// its plot, and the allocator's identifiers were each given to one record
    /// and none lies beyond the identifier issued last.
    pub open spec fn consistent(self) -> bool {
        &&& emails_unique(self.farmers)
        &&& forall|id: u64| #[trigger]
            self.farmers.contains_key(id) ==> id <= self.last_id && farmer_sound(
                id,
                self.farmers[id],
            ) && !self.plots.contains_key(id) && !self.activities.contains_key(id)
        &&& forall|id: u64| #[trigger]
            self.plots.contains_key(id) ==> id <= self.last_id && plot_sound(
                self.farmers,
                id,
                self.plots[id],
            ) && !self.activities.contains_key(id)
        &&& forall|id: u64| #[trigger]
            self.activities.contains_key(id) ==> id <= self.last_id && activity_sound(
                self.plots,
                id,
                self.activities[id],
            )
        &&& forall|id: u64| #[trigger]
            self.resources.contains_key(id) ==> resource_sound(id, self.resources[id])
        &&& forall|id: u64| #[trigger]
            self.events.contains_key(id) ==> event_sound(id, self.events[id])
    }

    /// The store that holds nothing and has issued no identifier.
    pub open spec fn empty() -> StoreView {
        StoreView {
            last_id: 0,
            farmers: Map::empty(),
            plots: Map::empty(),
            activities: Map::empty(),
            resources: Map::empty(),
            events: Map::empty(),
        }
    }
}

/// The empty store is consistent.
pub proof fn lemma_empty_is_consistent()
    ensures
        StoreView::empty().consistent(),
{
}

/// Creating a farmer keeps the store consistent, and an accepted farmer takes
/// an identifier that no record had.
pub proof fn lemma_create_farmer_keeps_consistent(
    s: StoreView,
    p: FarmerPayloadView,
    owner: Seq<char>,
    now: u64,
)
    requires
        s.consistent(),
        s.create_farmer(p, owner, now).1 is Ok ==> s.last_id < u64::MAX,
    ensures
        s.create_farmer(p, owner, now).0.consistent(),
        s.create_farmer(p, owner, now).1 is Ok ==> !s.farmers.contains_key(next_id(s.last_id)),
{
}

/// Updating a farmer keeps the store consistent.
pub proof fn lemma_update_farmer_keeps_consistent(
    s: StoreView,
    farmer_id: Seq<char>,
    p: FarmerPayloadView,
)
    requires
        s.consistent(),
    ensures
        s.update_farmer(farmer_id, p).0.consistent(),
{
}

/// Creating a plot keeps the store consistent, and an accepted plot takes an
/// identifier that no record had.
pub proof fn lemma_create_plot_keeps_consistent(s: StoreView, p: PlotPayloadView, now: u64)
    requires
        s.consistent(),
        s.create_plot(p, now).1 is Ok ==> s.last_id < u64::MAX,
    ensures
        s.create_plot(p, now).0.consistent(),
        s.create_plot(p, now).1 is Ok ==> !s.plots.contains_key(next_id(s.last_id)),
{
}

/// Updating a plot keeps the store consistent.
pub proof fn lemma_update_plot_keeps_consistent(
    s: StoreView,
    plot_id: Seq<char>,
    p: PlotPayloadView,
)
    requires
        s.consistent(),
    ensures
        s.update_plot(plot_id, p).0.consistent(),
{
}

/// Creating an activity keeps the store consistent, and an accepted activity
/// takes an identifier that no record had.
pub proof fn lemma_create_activity_keeps_consistent(s: StoreView, p: ActivityPayloadView, now: u64)
    requires
        s.consistent(),
        s.create_activity(p, now).1 is Ok ==> s.last_id < u64::MAX,
    ensures
        s.create_activity(p, now).0.consistent(),
        s.create_activity(p, now).1 is Ok ==> !s.activities.contains_key(next_id(s.last_id)),
{
}

/// Updating an activity keeps the store consistent.
pub proof fn lemma_update_activity_keeps_consistent(
    s: StoreView,
    activity_id: Seq<char>,
    p: ActivityPayloadView,
)
    requires
        s.consistent(),
    ensures
        s.update_activity(activity_id, p).0.consistent(),
{
}

/// Upserting a resource keeps the store consistent.
pub proof fn lemma_upsert_resource_keeps_consistent(
    s: StoreView,
    resource_id: Seq<char>,
    p: ResourcePayloadView,
    now: u64,
)
    requires
        s.consistent(),
    ensures
        s.upsert_resource(resource_id, p, now).0.consistent(),
{
}

/// Upserting an event keeps the store consistent.
pub proof fn lemma_upsert_event_keeps_consistent(
    s: StoreView,
    event_id: Seq<char>,
    p: EventPayloadView,
    now: u64,
)
    requires
        s.consistent(),
    ensures
        s.upsert_event(event_id, p, now).0.consistent(),
{
}

/// A farmer payload is accepted only with an email and a phone number of the
/// required forms; one without them is refused as an invalid payload, by a
/// creation and by an update alike.
pub proof fn lemma_accepted_farmer_is_well_formed(
    s: StoreView,
    farmer_id: Seq<char>,
    p: FarmerPayloadView,
    owner: Seq<char>,
    now: u64,
)
    ensures
        s.create_farmer(p, owner, now).1 is Ok ==> email_well_formed(p.email) && phone_well_formed(
            p.phone_number,
        ),
        s.update_farmer(farmer_id, p).1 is Ok ==> email_well_formed(p.email) && phone_well_formed(
            p.phone_number,
        ),
        !phone_well_formed(p.phone_number) || !email_well_formed(p.email) ==> (s.create_farmer(
            p,
            owner,
            now,
        ).1 matches Err(fault) && !fault.is_not_found()) && (s.update_farmer(
            farmer_id,
            p,
        ).1 matches Err(fault) && !fault.is_not_found()),
{
}

/// Two farmers created one after the other get identifiers that read back as
/// numbers, the second larger than the first, and each is then stored under
/// its own identifier: the second creation does not overwrite the first.
pub proof fn lemma_successive_farmers_get_increasing_ids(
    s: StoreView,
    p1: FarmerPayloadView,
    owner1: Seq<char>,
    now1: u64,
    p2: FarmerPayloadView,
    owner2: Seq<char>,
    now2: u64,
)
    requires
        s.last_id < u64::MAX - 1,
        s.create_farmer(p1, owner1, now1).1 is Ok,
        s.create_farmer(p1, owner1, now1).0.create_farmer(p2, owner2, now2).1 is Ok,
    ensures
        ({
            let first = s.create_farmer(p1, owner1, now1);
            let second = first.0.create_farmer(p2, owner2, now2);
            &&& parsed_id(first.1->Ok_0.farmer_id) == Some(next_id(s.last_id))
            &&& parsed_id(second.1->Ok_0.farmer_id) == Some(next_id(next_id(s.last_id)))
            &&& s.last_id < next_id(s.last_id) < next_id(next_id(s.last_id))
            &&& second.0.farmers.contains_key(next_id(s.last_id))
            &&& second.0.farmers[next_id(s.last_id)] == first.1->Ok_0
            &&& second.0.farmers.contains_key(next_id(next_id(s.last_id)))
            &&& second.0.farmers[next_id(next_id(s.last_id))] == second.1->Ok_0
        }),
{
    lemma_parse_of_decimal_text(next_id(s.last_id));
    lemma_parse_of_decimal_text(next_id(next_id(s.last_id)));
}

/// A creation that is accepted raises the identifier issued last by one, and
/// one that is refused leaves it as it is.
pub proof fn lemma_creations_raise_last_id(
    s: StoreView,
    farmer: FarmerPayloadView,
    plot: PlotPayloadView,
    activity: ActivityPayloadView,
    owner: Seq<char>,
    now: u64,
)
    requires
        s.last_id < u64::MAX,
    ensures
        ({
            let (after, outcome) = s.create_farmer(farmer, owner, now);
            after.last_id == s.last_id + (if outcome is Ok { 1int } else { 0int })
        }),
        ({
            let (after, outcome) = s.create_plot(plot, now);
            after.last_id == s.last_id + (if outcome is Ok { 1int } else { 0int })
        }),
        ({
            let (after, outcome) = s.create_activity(activity, now);
            after.last_id == s.last_id + (if outcome is Ok { 1int } else { 0int })
        }),
{
}

/// Updates and upserts issue no identifier.
pub proof fn lemma_other_operations_keep_last_id(
    s: StoreView,
    id_text: Seq<char>,
    farmer: FarmerPayloadView,
    plot: PlotPayloadView,
    activity: ActivityPayloadView,
    resource: ResourcePayloadView,
    event: EventPayloadView,
    now: u64,
)
    ensures
        s.update_farmer(id_text, farmer).0.last_id == s.last_id,
        s.update_plot(id_text, plot).0.last_id == s.last_id,
        s.update_activity(id_text, activity).0.last_id == s.last_id,
        s.upsert_resource(id_text, resource, now).0.last_id == s.last_id,
        s.upsert_event(id_text, event, now).0.last_id == s.last_id,
{
}

/// Upserting twice under one identifier leaves exactly what the second upsert
/// stores: the resources are as if the first upsert had never happened, and
/// the second upsert adds no row to those that the first left.
pub proof fn lemma_upsert_resource_overwrites(
    s: StoreView,
    resource_id: Seq<char>,
    p1: ResourcePayloadView,
    now1: u64,
    p2: ResourcePayloadView,
    now2: u64,
)
    requires
        s.upsert_resource(resource_id, p1, now1).1 is Ok,
        s.upsert_resource(resource_id, p2, now2).1 is Ok,
    ensures
        ({
            let twice = s.upsert_resource(resource_id, p1, now1).0.upsert_resource(
                resource_id,
                p2,
                now2,
            );
            let id = parsed_id(resource_id)->0;
            &&& twice == s.upsert_resource(resource_id, p2, now2)
            &&& twice.0.resources.contains_key(id)
            &&& twice.0.resources[id] == new_resource(id, p2, now2)
            &&& twice.0.resources.dom() == s.upsert_resource(
                resource_id,
                p1,
                now1,
            ).0.resources.dom()
        }),
{
    let id = parsed_id(resource_id)->0;
    let once = s.upsert_resource(resource_id, p1, now1).0;
    assert(once.resources.insert(id, new_resource(id, p2, now2)) =~= s.resources.insert(
        id,
        new_resource(id, p2, now2),
    ));
}

/// Upserting an event twice under one identifier leaves exactly what the
/// second upsert stores, and adds no row to those that the first left.
pub proof fn lemma_upsert_event_overwrites(
    s: StoreView,
    event_id: Seq<char>,
    p1: EventPayloadView,
    now1: u64,
    p2: EventPayloadView,
    now2: u64,
)
    requires
        s.upsert_event(event_id, p1, now1).1 is Ok,
        s.upsert_event(event_id, p2, now2).1 is Ok,
    ensures
        ({
            let twice = s.upsert_event(event_id, p1, now1).0.upsert_event(event_id, p2, now2);
            let id = parsed_id(event_id)->0;
            &&& twice == s.upsert_event(event_id, p2, now2)
            &&& twice.0.events.contains_key(id)
            &&& twice.0.events[id] == new_event(id, p2, now2)
            &&& twice.0.events.dom() == s.upsert_event(event_id, p1, now1).0.events.dom()
        }),
{
    let id = parsed_id(event_id)->0;
    let once = s.upsert_event(event_id, p1, now1).0;
    assert(once.events.insert(id, new_event(id, p2, now2)) =~= s.events.insert(
        id,
        new_event(id, p2, now2),
    ));
}

/// An update that names an identifier which reads as a number, carries a
/// payload that passes the pipeline, and finds no record under the identifier
/// is answered with the not-found fault of its table and changes nothing.
pub proof fn lemma_update_of_absent_is_not_found(
    s: StoreView,
    id_text: Seq<char>,
    farmer: FarmerPayloadView,
    plot: PlotPayloadView,
    activity: ActivityPayloadView,
)
    requires
        parsed_id(id_text) is Some,
    ensures
        ({
            let id = parsed_id(id_text)->0;
            &&& farmer_verdict(s.farmers, farmer) is Ok && !s.farmers.contains_key(id)
                ==> s.update_farmer(id_text, farmer) == (
                s,
                Err::<FarmerView, Fault>(Fault::FarmerNotFound),
            )
            &&& plot_verdict(s.farmers, plot) is Ok && !s.plots.contains_key(id) ==> s.update_plot(
                id_text,
                plot,
            ) == (s, Err::<FarmPlotView, Fault>(Fault::PlotNotFound))
            &&& activity_verdict(s.plots, activity) is Ok && !s.activities.contains_key(id)
                ==> s.update_activity(id_text, activity) == (
                s,
                Err::<FarmingActivityView, Fault>(Fault::ActivityNotFound),
            )
        }),
{
}

/// `later` has lost nothing that `earlier` held: every identifier that named
/// a record still names one, and the identifier issued last is no lower.
pub open spec fn extends(later: StoreView, earlier: StoreView) -> bool {
    &&& earlier.last_id <= later.last_id
    &&& earlier.farmers.dom().subset_of(later.farmers.dom())
    &&& earlier.plots.dom().subset_of(later.plots.dom())
    &&& earlier.activities.dom().subset_of(later.activities.dom())
    &&& earlier.resources.dom().subset_of(later.resources.dom())
    &&& earlier.events.dom().subset_of(later.events.dom())
}

/// No operation removes a record or takes an identifier back.
pub proof fn lemma_nothing_is_removed(
    s: StoreView,
    id_text: Seq<char>,
    farmer: FarmerPayloadView,
    plot: PlotPayloadView,
    activity: ActivityPayloadView,
    resource: ResourcePayloadView,
    event: EventPayloadView,
    owner: Seq<char>,
    now: u64,
)
    requires
        s.last_id < u64::MAX,
    ensures
        extends(s.create_farmer(farmer, owner, now).0, s),
        extends(s.update_farmer(id_text, farmer).0, s),
        extends(s.create_plot(plot, now).0, s),
        extends(s.update_plot(id_text, plot).0, s),
        extends(s.create_activity(activity, now).0, s),
        extends(s.update_activity(id_text, activity).0, s),
        extends(s.upsert_resource(id_text, resource, now).0, s),
        extends(s.upsert_event(id_text, event, now).0, s),
{
}

/// Every refusal leaves the store as it was.
pub proof fn lemma_refusal_changes_nothing(
    s: StoreView,
    id_text: Seq<char>,
    farmer: FarmerPayloadView,
    plot: PlotPayloadView,
    activity: ActivityPayloadView,
    resource: ResourcePayloadView,
    event: EventPayloadView,
    owner: Seq<char>,
    now: u64,
)
    ensures
        s.create_farmer(farmer, owner, now).1 is Err ==> s.create_farmer(farmer, owner, now).0 == s,
        s.update_farmer(id_text, farmer).1 is Err ==> s.update_farmer(id_text, farmer).0 == s,
        s.create_plot(plot, now).1 is Err ==> s.create_plot(plot, now).0 == s,
        s.update_plot(id_text, plot).1 is Err ==> s.update_plot(id_text, plot).0 == s,
        s.create_activity(activity, now).1 is Err ==> s.create_activity(activity, now).0 == s,
        s.update_activity(id_text, activity).1 is Err ==> s.update_activity(id_text, activity).0
            == s,
        s.upsert_resource(id_text, resource, now).1 is Err ==> s.upsert_resource(
            id_text,
            resource,
            now,
        ).0 == s,
        s.upsert_event(id_text, event, now).1 is Err ==> s.upsert_event(id_text, event, now).0
            == s,
{
}

} // verus!
