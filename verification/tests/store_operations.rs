use farming_sacco_backend::activity::{ActivityPayload, FarmingActivity};
use farming_sacco_backend::arena::{MemoryArena, REGION_COUNT};
use farming_sacco_backend::event::{Event, EventPayload};
use farming_sacco_backend::farmer::{Farmer, FarmerPayload};
use farming_sacco_backend::message::Message;
use farming_sacco_backend::plot::{FarmPlot, PlotPayload};
use farming_sacco_backend::resource::{Resource, ResourcePayload};
use farming_sacco_backend::store::Store;

const OWNER: &str = "2vxsx-fae";
const NOW: u64 = 1_700_000_000_000_000_000;

fn fresh() -> Store {
    Store::open().expect("a fresh memory holds nothing that fails to decode")
}

fn farmer(name: &str, email: &str, phone: &str) -> FarmerPayload {
    FarmerPayload {
        name: name.to_string(),
        email: email.to_string(),
        phone_number: phone.to_string(),
    }
}

fn jane() -> FarmerPayload {
    farmer("Jane", "jane@example.com", "0712345678")
}

fn plot(farmer_id: &str) -> PlotPayload {
    PlotPayload {
        farmer_id: farmer_id.to_string(),
        size: "2 acres".to_string(),
        location: "Kiambu".to_string(),
        reserved_until: "2025-12-31".to_string(),
    }
}

fn activity(plot_id: &str) -> ActivityPayload {
    ActivityPayload {
        plot_id: plot_id.to_string(),
        description: "Planting maize".to_string(),
        date: "2025-03-01".to_string(),
    }
}

fn resource(name: &str, quantity: u64, available: bool) -> ResourcePayload {
    ResourcePayload { name: name.to_string(), quantity, available }
}

fn event(title: &str) -> EventPayload {
    EventPayload {
        title: title.to_string(),
        description: "Annual general meeting".to_string(),
        date: "2025-06-01".to_string(),
        location: "Nakuru".to_string(),
    }
}

fn invalid(text: &str) -> Message {
    Message::InvalidPayload(text.to_string())
}

fn not_found(text: &str) -> Message {
    Message::NotFound(text.to_string())
}

fn create(store: &mut Store, payload: FarmerPayload) -> Result<Farmer, Message> {
    store.try_create_farmer_profile(payload, OWNER.to_string(), NOW).expect("admitted")
}

fn update(store: &mut Store, id: &str, payload: FarmerPayload) -> Result<Farmer, Message> {
    store.try_update_farmer_profile(id.to_string(), payload).expect("admitted")
}

fn create_plot(store: &mut Store, payload: PlotPayload, now: u64) -> Result<FarmPlot, Message> {
    store.try_create_farm_plot(payload, now).expect("admitted")
}

fn update_plot(store: &mut Store, id: &str, payload: PlotPayload) -> Result<FarmPlot, Message> {
    store.try_update_farm_plot(id.to_string(), payload).expect("admitted")
}

fn create_activity(
    store: &mut Store,
    payload: ActivityPayload,
    now: u64,
) -> Result<FarmingActivity, Message> {
    store.try_create_farming_activity(payload, now).expect("admitted")
}

fn update_activity(
    store: &mut Store,
    id: &str,
    payload: ActivityPayload,
) -> Result<FarmingActivity, Message> {
    store.try_update_farming_activity(id.to_string(), payload).expect("admitted")
}

fn upsert_resource(
    store: &mut Store,
    id: &str,
    payload: ResourcePayload,
    now: u64,
) -> Result<Resource, Message> {
    store.try_upsert_resource(id.to_string(), payload, now).expect("admitted")
}

fn upsert_event(
    store: &mut Store,
    id: &str,
    payload: EventPayload,
    now: u64,
) -> Result<Event, Message> {
    store.try_upsert_event(id.to_string(), payload, now).expect("admitted")
}

fn snapshot(store: &Store) -> (u64, Vec<(u64, Farmer)>, usize, usize, usize, usize) {
    (
        store.last_id(),
        store.farmers().iterate(),
        store.plots().iterate().len(),
        store.activities().iterate().len(),
        store.resources().iterate().len(),
        store.events().iterate().len(),
    )
}

#[test]
fn a_fresh_store_is_empty() {
    let store = fresh();
    assert!(store.is_intact());
    assert_eq!(store.last_id(), 0);
    assert!(store.farmers().iterate().is_empty());
    assert!(store.plots().iterate().is_empty());
    assert!(store.activities().iterate().is_empty());
    assert!(store.resources().iterate().is_empty());
    assert!(store.events().iterate().is_empty());
    assert!(store.farmers().is_intact());
    assert!(!store.farmers().contains(1));
    assert_eq!(store.farmers().get(1), None);
}

#[test]
fn the_arena_hands_out_its_six_regions() {
    let arena = MemoryArena::new();
    assert_eq!(REGION_COUNT, 6);
    for index in 0..REGION_COUNT {
        let _first = arena.region(index);
        let _again = arena.region(index);
    }
}

#[test]
fn create_farmer_stores_the_record() {
    let mut store = fresh();
    let created = create(&mut store, jane()).expect("accepted");
    assert_eq!(
        created,
        Farmer {
            farmer_id: "1".to_string(),
            owner: OWNER.to_string(),
            name: "Jane".to_string(),
            email: "jane@example.com".to_string(),
            phone_number: "0712345678".to_string(),
            created_at: "1700000000000000000".to_string(),
        }
    );
    assert!(!created.farmer_id.is_empty());
    assert!(!created.created_at.is_empty());
    assert_eq!(store.last_id(), 1);
    assert!(store.farmers().contains(1));
    assert_eq!(store.farmers().get(1), Some(created));
}

#[test]
fn create_farmer_refuses_a_stored_email() {
    let mut store = fresh();
    create(&mut store, jane()).expect("accepted");
    let before = snapshot(&store);
    let second = create(&mut store, farmer("Janet", "jane@example.com", "0799999999"));
    assert_eq!(
        second,
        Err(invalid("Email already exists: Ensure the email address is unique."))
    );
    assert_eq!(snapshot(&store), before);
}

#[test]
fn create_farmer_refuses_a_missing_field() {
    let mut store = fresh();
    let before = snapshot(&store);
    let refused = create(&mut store, farmer("", "a@b.com", "0712345678"));
    assert_eq!(
        refused,
        Err(invalid("Ensure 'name', 'email', and 'phone_number' are provided."))
    );
    assert_eq!(snapshot(&store), before);
    assert_eq!(store.last_id(), 0);
}

#[test]
fn create_farmer_refuses_bad_formats() {
    let mut store = fresh();
    assert_eq!(
        create(&mut store, farmer("Jane", "jane.example.com", "0712345678")),
        Err(invalid("Invalid email format: Ensure the email is in the correct format."))
    );
    assert_eq!(
        create(&mut store, farmer("Jane", "jane@example.com", "12345")),
        Err(invalid("Invalid phone number: Ensure the phone number is in the correct format."))
    );
    assert_eq!(
        create(&mut store, farmer("Jane", "jane@example.com", "07123456789")),
        Err(invalid("Invalid phone number: Ensure the phone number is in the correct format."))
    );
    assert_eq!(store.last_id(), 0);
    assert!(store.farmers().iterate().is_empty());
}

#[test]
fn formats_are_checked_before_uniqueness() {
    let mut store = fresh();
    create(&mut store, jane()).expect("accepted");
    assert_eq!(
        create(&mut store, farmer("Janet", "jane@example.com", "bad")),
        Err(invalid("Invalid phone number: Ensure the phone number is in the correct format."))
    );
}

#[test]
fn emails_stay_unique_over_many_operations() {
    let mut store = fresh();
    let emails = ["a@x.org", "b@x.org", "a@x.org", "c@x.org", "b@x.org", "d@x.org"];
    for email in emails {
        let _ = create(&mut store, farmer("F", email, "0712345678"));
    }
    let _ = update(&mut store, "2", farmer("G", "a@x.org", "0712345678"));
    let _ = update(&mut store, "2", farmer("G", "e@x.org", "0712345678"));
    let stored = store.farmers().iterate();
    assert_eq!(stored.len(), 4);
    for (i, (_, one)) in stored.iter().enumerate() {
        for (_, other) in stored.iter().skip(i + 1) {
            assert_ne!(one.email, other.email);
        }
    }
    let mut found: Vec<String> = stored.into_iter().map(|(_, f)| f.email).collect();
    found.sort();
    assert_eq!(found, vec!["a@x.org", "c@x.org", "d@x.org", "e@x.org"]);
}

#[test]
fn identifiers_increase_across_creations() {
    let mut store = fresh();
    let first = create(&mut store, farmer("A", "a@x.org", "0712345678")).expect("accepted");
    assert!(create(&mut store, farmer("", "z@x.org", "0712345678")).is_err());
    let second = create(&mut store, farmer("B", "b@x.org", "0712345678")).expect("accepted");
    let third = create_plot(&mut store, plot("1"), NOW).expect("accepted");
    let fourth = create_activity(&mut store, activity("3"), NOW).expect("accepted");
    let fifth = create(&mut store, farmer("C", "c@x.org", "0712345678")).expect("accepted");
    assert_eq!(first.farmer_id, "1");
    assert_eq!(second.farmer_id, "2");
    assert_eq!(third.id, "3");
    assert_eq!(fourth.id, "4");
    assert_eq!(fifth.farmer_id, "5");
    assert_eq!(store.last_id(), 5);
}

#[test]
fn iterate_is_in_ascending_order_of_identifier() {
    let mut store = fresh();
    for id in ["30", "4", "10", "200", "1"] {
        upsert_resource(&mut store, id, resource("Seeds", 1, true), NOW).expect("accepted");
    }
    let keys: Vec<u64> = store.resources().iterate().into_iter().map(|(id, _)| id).collect();
    assert_eq!(keys, vec![1, 4, 10, 30, 200]);
    let ids: Vec<String> =
        store.resources().iterate().into_iter().map(|(_, record)| record.id).collect();
    assert_eq!(ids, vec!["1", "4", "10", "30", "200"]);
}

#[test]
fn update_farmer_replaces_the_payload_fields() {
    let mut store = fresh();
    create(&mut store, jane()).expect("accepted");
    let updated =
        update(&mut store, "1", farmer("Jane W.", "jw@example.com", "0700000000")).expect("ok");
    assert_eq!(
        updated,
        Farmer {
            farmer_id: "1".to_string(),
            owner: OWNER.to_string(),
            name: "Jane W.".to_string(),
            email: "jw@example.com".to_string(),
            phone_number: "0700000000".to_string(),
            created_at: "1700000000000000000".to_string(),
        }
    );
    assert_eq!(store.farmers().get(1), Some(updated));
    assert_eq!(store.farmers().iterate().len(), 1);
    assert_eq!(store.last_id(), 1);
}

#[test]
fn update_farmer_of_an_absent_identifier_is_not_found() {
    let mut store = fresh();
    create(&mut store, jane()).expect("accepted");
    let before = snapshot(&store);
    let refused = update(&mut store, "999", farmer("Zed", "zed@example.com", "0712345678"));
    assert_eq!(refused, Err(not_found("Farmer not found: Ensure the farmer ID is correct.")));
    assert_eq!(snapshot(&store), before);
}

#[test]
fn update_of_an_absent_identifier_with_a_bad_payload_is_an_invalid_payload() {
    let mut store = fresh();
    assert_eq!(
        update(&mut store, "999", farmer("", "zed@example.com", "0712345678")),
        Err(invalid("Ensure 'name', 'email', and 'phone_number' are provided."))
    );
}

#[test]
fn update_farmer_refuses_an_email_that_is_stored() {
    let mut store = fresh();
    create(&mut store, jane()).expect("accepted");
    create(&mut store, farmer("Joe", "joe@example.com", "0712345678")).expect("accepted");
    let taken = Err(invalid("Email already exists: Ensure the email address is unique."));
    assert_eq!(update(&mut store, "2", farmer("Joe", "jane@example.com", "0712345678")), taken);
    // The scan covers the farmer under update as well.
    assert_eq!(update(&mut store, "2", farmer("Joseph", "joe@example.com", "0712345678")), taken);
    assert_eq!(store.farmers().get(2).map(|f| f.name), Some("Joe".to_string()));
}

#[test]
fn update_reads_the_identifier_first() {
    let mut store = fresh();
    assert_eq!(
        update(&mut store, "abc", farmer("", "", "")),
        Err(invalid("Invalid farmer_id: Ensure the farmer ID is valid."))
    );
    assert_eq!(
        update(&mut store, "7", farmer("", "", "")),
        Err(invalid("Ensure 'name', 'email', and 'phone_number' are provided."))
    );
    assert_eq!(
        update_plot(&mut store, "x1", plot("")),
        Err(invalid("Invalid plot_id: Ensure the plot ID is valid."))
    );
    assert_eq!(
        update_activity(&mut store, "", activity("")),
        Err(invalid("Invalid activity_id: Ensure the activity ID is valid."))
    );
}

#[test]
fn update_plot_refuses_an_unknown_farmer() {
    let mut store = fresh();
    let before = snapshot(&store);
    assert_eq!(
        update_plot(&mut store, "1", plot("42")),
        Err(invalid("Farmer ID does not exist: Ensure the farmer ID is valid."))
    );
    assert_eq!(snapshot(&store), before);
}

#[test]
fn plot_operations_follow_the_pipeline() {
    let mut store = fresh();
    create(&mut store, jane()).expect("accepted");
    let missing = PlotPayload { size: String::new(), ..plot("1") };
    assert_eq!(
        create_plot(&mut store, missing, NOW),
        Err(invalid("Ensure 'farmer_id', 'size', 'location', and 'reserved_until' are provided."))
    );
    assert_eq!(
        create_plot(&mut store, plot("one"), NOW),
        Err(invalid("Invalid farmer_id: Ensure the farmer ID is valid."))
    );
    assert_eq!(
        create_plot(&mut store, plot("2"), NOW),
        Err(invalid("Farmer ID does not exist: Ensure the farmer ID is valid."))
    );
    assert_eq!(store.last_id(), 1);

    let created = create_plot(&mut store, plot("1"), NOW + 1).expect("accepted");
    assert_eq!(
        created,
        FarmPlot {
            id: "2".to_string(),
            farmer_id: "1".to_string(),
            size: "2 acres".to_string(),
            location: "Kiambu".to_string(),
            reserved_until: "2025-12-31".to_string(),
            created_at: "1700000000000000001".to_string(),
        }
    );
    assert_eq!(store.plots().get(2), Some(created));

    assert_eq!(
        update_plot(&mut store, "9", plot("1")),
        Err(not_found("Plot not found: Ensure the plot ID is correct."))
    );

    let revised = PlotPayload {
        farmer_id: "+1".to_string(),
        size: "5 acres".to_string(),
        location: "Thika".to_string(),
        reserved_until: "2026-01-31".to_string(),
    };
    let updated = update_plot(&mut store, "2", revised).expect("accepted");
    assert_eq!(
        updated,
        FarmPlot {
            id: "2".to_string(),
            farmer_id: "+1".to_string(),
            size: "5 acres".to_string(),
            location: "Thika".to_string(),
            reserved_until: "2026-01-31".to_string(),
            created_at: "1700000000000000001".to_string(),
        }
    );
    assert_eq!(store.plots().get(2), Some(updated));
    assert_eq!(store.last_id(), 2);
}

#[test]
fn activity_operations_follow_the_pipeline() {
    let mut store = fresh();
    create(&mut store, jane()).expect("accepted");
    create_plot(&mut store, plot("1"), NOW).expect("accepted");

    let missing = ActivityPayload { date: String::new(), ..activity("2") };
    assert_eq!(
        create_activity(&mut store, missing, NOW),
        Err(invalid("Ensure 'plot_id', 'description', and 'date' are provided."))
    );
    assert_eq!(
        create_activity(&mut store, activity("p2"), NOW),
        Err(invalid("Invalid plot_id: Ensure the plot ID is valid."))
    );
    // Identifier 1 is a farmer, not a plot.
    assert_eq!(
        create_activity(&mut store, activity("1"), NOW),
        Err(invalid("Plot ID does not exist: Ensure the plot ID is valid."))
    );

    let created = create_activity(&mut store, activity("2"), NOW).expect("accepted");
    assert_eq!(
        created,
        FarmingActivity {
            id: "3".to_string(),
            plot_id: "2".to_string(),
            description: "Planting maize".to_string(),
            date: "2025-03-01".to_string(),
            created_at: "1700000000000000000".to_string(),
        }
    );
    assert_eq!(store.activities().get(3), Some(created));

    assert_eq!(
        update_activity(&mut store, "4", activity("2")),
        Err(not_found("Activity not found: Ensure the activity ID is correct."))
    );
    assert_eq!(
        update_activity(&mut store, "3", activity("77")),
        Err(invalid("Plot ID does not exist: Ensure the plot ID is valid."))
    );

    let revised = ActivityPayload {
        plot_id: "2".to_string(),
        description: "Weeding".to_string(),
        date: "2025-04-01".to_string(),
    };
    let updated = update_activity(&mut store, "3", revised).expect("accepted");
    assert_eq!(
        updated,
        FarmingActivity {
            id: "3".to_string(),
            plot_id: "2".to_string(),
            description: "Weeding".to_string(),
            date: "2025-04-01".to_string(),
            created_at: "1700000000000000000".to_string(),
        }
    );
    assert_eq!(store.activities().get(3), Some(updated));
}

#[test]
fn upsert_resource_overwrites() {
    let mut store = fresh();
    let stored = upsert_resource(&mut store, "5", resource("Seeds", 10, true), NOW).expect("ok");
    assert_eq!(stored.id, "5");
    assert_eq!(stored.quantity, 10);
    assert!(stored.available);
    assert_eq!(store.resources().get(5), Some(stored));

    let replaced =
        upsert_resource(&mut store, "5", resource("Seeds", 3, false), NOW + 9).expect("ok");
    let found = store.resources().get(5).expect("present");
    assert_eq!(found, replaced);
    assert_eq!(
        found,
        Resource {
            id: "5".to_string(),
            name: "Seeds".to_string(),
            quantity: 3,
            available: false,
            created_at: "1700000000000000009".to_string(),
        }
    );
    assert_eq!(store.resources().iterate().len(), 1);
    // Upserts take no identifier from the allocator.
    assert_eq!(store.last_id(), 0);
}

#[test]
fn upsert_resource_refuses_bad_input() {
    let mut store = fresh();
    let before = snapshot(&store);
    let bad_id = "Invalid resource_id: Ensure the resource ID is valid.";
    let bad_fields = "Ensure 'name' and 'quantity' are provided and quantity is greater than 0.";
    let cases = [
        ("five", resource("Seeds", 1, true), bad_id),
        ("", resource("Seeds", 1, true), bad_id),
        ("5", resource("", 1, true), bad_fields),
        ("5", resource("Seeds", 0, true), bad_fields),
        ("five", resource("", 0, true), bad_id),
    ];
    for (id, payload, text) in cases {
        assert_eq!(upsert_resource(&mut store, id, payload, NOW), Err(invalid(text)));
    }
    assert_eq!(snapshot(&store), before);
}

#[test]
fn upsert_resource_writes_the_identifier_in_plain_decimal() {
    let mut store = fresh();
    let stored = upsert_resource(&mut store, "+007", resource("Hoes", 2, true), NOW).expect("ok");
    assert_eq!(stored.id, "7");
    assert!(store.resources().contains(7));
}

#[test]
fn upsert_event_overwrites() {
    let mut store = fresh();
    upsert_event(&mut store, "8", event("Field day"), NOW).expect("accepted");
    let replaced = upsert_event(&mut store, "8", event("Harvest fair"), NOW + 1).expect("ok");
    assert_eq!(
        replaced,
        Event {
            id: "8".to_string(),
            title: "Harvest fair".to_string(),
            description: "Annual general meeting".to_string(),
            date: "2025-06-01".to_string(),
            location: "Nakuru".to_string(),
            created_at: "1700000000000000001".to_string(),
        }
    );
    assert_eq!(store.events().get(8), Some(replaced));
    assert_eq!(store.events().iterate().len(), 1);
}

#[test]
fn upsert_event_refuses_bad_input() {
    let mut store = fresh();
    assert_eq!(
        upsert_event(&mut store, "eight", event("Field day"), NOW),
        Err(invalid("Invalid event_id: Ensure the event ID is valid."))
    );
    assert_eq!(
        upsert_event(&mut store, "8", event(""), NOW),
        Err(invalid("Ensure 'title', 'description', 'date', and 'location' are provided."))
    );
    assert!(store.events().iterate().is_empty());
}

#[test]
fn the_plain_operations_answer_as_the_guarded_ones() {
    let mut store = fresh();
    let farmer_stored =
        store.create_farmer_profile(jane(), OWNER.to_string(), NOW).expect("accepted");
    assert_eq!(farmer_stored.farmer_id, "1");
    let renamed = farmer("Jane W.", "jw@example.com", "0700000000");
    let farmer_updated = store.update_farmer_profile("1".to_string(), renamed).expect("accepted");
    assert_eq!(farmer_updated.name, "Jane W.");
    let plot_stored = store.create_farm_plot(plot("1"), NOW).expect("accepted");
    assert_eq!(plot_stored.id, "2");
    let plot_updated = store.update_farm_plot("2".to_string(), plot("1")).expect("accepted");
    assert_eq!(plot_updated, plot_stored);
    let activity_stored = store.create_farming_activity(activity("2"), NOW).expect("accepted");
    assert_eq!(activity_stored.id, "3");
    let activity_updated =
        store.update_farming_activity("3".to_string(), activity("2")).expect("accepted");
    assert_eq!(activity_updated, activity_stored);
    let resource_stored =
        store.upsert_resource("5".to_string(), resource("Seeds", 10, true), NOW).expect("ok");
    assert_eq!(store.resources().get(5), Some(resource_stored));
    let event_stored = store.upsert_event("8".to_string(), event("Field day"), NOW).expect("ok");
    assert_eq!(store.events().get(8), Some(event_stored));
    assert_eq!(
        store.update_farmer_profile("999".to_string(), farmer("Z", "z@x.org", "0712345678")),
        Err(not_found("Farmer not found: Ensure the farmer ID is correct."))
    );
    assert_eq!(store.last_id(), 3);
}

#[test]
fn a_record_beyond_the_size_bound_is_not_admitted() {
    let mut store = fresh();
    let long = farmer(&"n".repeat(600), "long@example.com", "0712345678");
    let before = snapshot(&store);
    assert_eq!(store.try_create_farmer_profile(long.clone(), OWNER.to_string(), NOW), None);
    assert_eq!(snapshot(&store), before);
    // A refused payload is admitted whatever its size: nothing would be stored.
    let long_and_invalid = farmer(&"n".repeat(600), "not an email", "0712345678");
    assert_eq!(
        store.try_create_farmer_profile(long_and_invalid, OWNER.to_string(), NOW),
        Some(Err(invalid("Invalid email format: Ensure the email is in the correct format.")))
    );

    create(&mut store, jane()).expect("accepted");
    let before = snapshot(&store);
    assert_eq!(store.try_update_farmer_profile("1".to_string(), long.clone()), None);
    assert_eq!(
        store.try_update_farmer_profile("2".to_string(), long),
        Some(Err(not_found("Farmer not found: Ensure the farmer ID is correct.")))
    );
    let wide = PlotPayload { location: "l".repeat(600), ..plot("1") };
    assert_eq!(store.try_create_farm_plot(wide.clone(), NOW), None);
    assert_eq!(
        store.try_create_farm_plot(PlotPayload { farmer_id: "9".to_string(), ..wide }, NOW),
        Some(Err(invalid("Farmer ID does not exist: Ensure the farmer ID is valid.")))
    );
    let wordy = ActivityPayload { description: "d".repeat(600), ..activity("1") };
    assert_eq!(
        store.try_create_farming_activity(wordy, NOW),
        Some(Err(invalid("Plot ID does not exist: Ensure the plot ID is valid.")))
    );
    assert_eq!(
        store.try_upsert_resource("5".to_string(), resource(&"s".repeat(600), 1, true), NOW),
        None
    );
    assert_eq!(
        store.try_upsert_resource("5".to_string(), resource(&"s".repeat(600), 0, true), NOW),
        Some(Err(invalid(
            "Ensure 'name' and 'quantity' are provided and quantity is greater than 0."
        )))
    );
    assert_eq!(store.try_upsert_event("5".to_string(), event(&"t".repeat(600)), NOW), None);
    assert_eq!(snapshot(&store), before);
}

#[test]
fn an_update_that_outgrows_the_bound_is_not_admitted() {
    let mut store = fresh();
    create(&mut store, jane()).expect("accepted");
    create_plot(&mut store, plot("1"), NOW).expect("accepted");
    create_activity(&mut store, activity("2"), NOW).expect("accepted");
    let wide = PlotPayload { location: "l".repeat(600), ..plot("1") };
    assert_eq!(store.try_update_farm_plot("2".to_string(), wide), None);
    let wordy = ActivityPayload { description: "d".repeat(600), ..activity("2") };
    assert_eq!(store.try_update_farming_activity("3".to_string(), wordy), None);
    assert_eq!(store.plots().get(2).map(|p| p.location), Some("Kiambu".to_string()));
    assert_eq!(
        store.activities().get(3).map(|a| a.description),
        Some("Planting maize".to_string())
    );
}

#[test]
fn stores_are_independent_of_each_other() {
    let mut one = fresh();
    let other = fresh();
    create(&mut one, jane()).expect("accepted");
    assert_eq!(one.last_id(), 1);
    assert_eq!(other.last_id(), 0);
    assert!(other.farmers().iterate().is_empty());
}

#[test]
fn what_was_stored_is_found_again_after_closing() {
    let mut store = Store::open_in(MemoryArena::new()).expect("fresh");
    let jane_stored = create(&mut store, jane()).expect("accepted");
    let plot_stored = create_plot(&mut store, plot("1"), NOW).expect("accepted");
    let seeds = upsert_resource(&mut store, "5", resource("Seeds", 10, true), NOW).expect("ok");
    let fair = upsert_event(&mut store, "8", event("Harvest fair"), NOW).expect("ok");
    let arena = store.close();

    let mut store = Store::open_in(arena).expect("what was written decodes");
    assert!(store.is_intact());
    assert_eq!(store.last_id(), 2);
    assert_eq!(store.farmers().get(1), Some(jane_stored));
    assert_eq!(store.plots().get(2), Some(plot_stored));
    assert_eq!(store.resources().get(5), Some(seeds));
    assert_eq!(store.events().get(8), Some(fair));
    assert!(store.activities().iterate().is_empty());
    // The counter goes on from where it was.
    let next = create(&mut store, farmer("Joe", "joe@example.com", "0712345678")).expect("ok");
    assert_eq!(next.farmer_id, "3");
    // And the email scan sees what was stored before.
    assert_eq!(
        create(&mut store, jane()),
        Err(invalid("Email already exists: Ensure the email address is unique."))
    );
}

#[test]
fn many_records_are_all_found_again() {
    let mut store = fresh();
    for n in 0..200u64 {
        let id = (n * 7 % 200).to_string();
        upsert_resource(&mut store, &id, resource("Seeds", n + 1, n % 2 == 0), n).expect("ok");
    }
    let all = store.resources().iterate();
    assert_eq!(all.len(), 200);
    for (position, (id, record)) in all.iter().enumerate() {
        assert_eq!(*id, position as u64);
        assert_eq!(record.id, position.to_string());
        assert_eq!(store.resources().get(*id).as_ref(), Some(record));
    }
    assert!(store.resources().is_intact());
    assert!(!store.resources().contains(200));
}

#[test]
fn an_intact_store_is_kept_as_it_is() {
    let mut store = fresh();
    let stored = create(&mut store, jane()).expect("accepted");
    upsert_resource(&mut store, "5", resource("Seeds", 10, true), NOW).expect("accepted");
    assert!(store.is_intact());
    let kept = Store::keep_intact(store).expect("an intact store is kept");
    assert_eq!(kept.last_id(), 1);
    assert_eq!(kept.farmers().get(1), Some(stored));
    assert!(kept.resources().contains(5));
}
