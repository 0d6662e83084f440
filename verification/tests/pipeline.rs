use farming_sacco_backend::event::EventPayload;
use farming_sacco_backend::farmer::FarmerPayload;
use farming_sacco_backend::message::{Fault, Message};
use farming_sacco_backend::pattern::{is_accepted, is_email, is_phone};
use farming_sacco_backend::resource::ResourcePayload;
use farming_sacco_backend::validation::{check_farmer_format, validate_event, validate_resource};

fn payload(name: &str, email: &str, phone: &str) -> FarmerPayload {
    FarmerPayload {
        name: name.to_string(),
        email: email.to_string(),
        phone_number: phone.to_string(),
    }
}

#[test]
fn email_pattern_accepts_addresses() {
    assert!(is_email("jane@example.com"));
    assert!(is_email("a@b.c"));
    assert!(is_email("first.last+tag@sub.domain.org"));
}

#[test]
fn email_pattern_refuses_other_text() {
    assert!(!is_email(""));
    assert!(!is_email("jane"));
    assert!(!is_email("jane@example"));
    assert!(!is_email("@example.com"));
    assert!(!is_email("jane@.com"));
    assert!(!is_email("ja ne@example.com"));
    assert!(!is_email("jane@exam@ple.com"));
    assert!(!is_email("jane@example.com "));
    assert!(!is_email("jane@example.com\n"));
    assert!(!is_email("see jane@example.com now"));
}

#[test]
fn phone_pattern_accepts_exactly_ten_digits() {
    assert!(is_phone("0712345678"));
    assert!(is_phone("0000000000"));
}

#[test]
fn phone_pattern_refuses_other_text() {
    assert!(!is_phone(""));
    assert!(!is_phone("071234567"));
    assert!(!is_phone("07123456789"));
    assert!(!is_phone("071234567a"));
    assert!(!is_phone("+712345678"));
    assert!(!is_phone("0712 345678"));
    assert!(!is_phone(" 0712345678"));
    assert!(!is_phone("0712345678\n"));
}

#[test]
fn a_pattern_that_does_not_compile_accepts_nothing() {
    assert!(!is_accepted("(", "("));
    assert!(!is_accepted("[a-", "a"));
    assert!(is_accepted("^a+$", "aaa"));
    assert!(!is_accepted("^a+$", "^a+$"));
}

#[test]
fn format_check_reports_the_first_fault() {
    assert_eq!(
        check_farmer_format(&payload("", "a@b.com", "0712345678"), true, true),
        Err(Fault::FarmerFieldsMissing)
    );
    assert_eq!(
        check_farmer_format(&payload("Jane", "", "0712345678"), true, true),
        Err(Fault::FarmerFieldsMissing)
    );
    assert_eq!(
        check_farmer_format(&payload("Jane", "a@b.com", ""), true, true),
        Err(Fault::FarmerFieldsMissing)
    );
    // Missing fields come before the formats.
    assert_eq!(
        check_farmer_format(&payload("", "x", "y"), false, false),
        Err(Fault::FarmerFieldsMissing)
    );
    // The email's format comes before the phone number's.
    assert_eq!(
        check_farmer_format(&payload("Jane", "x", "y"), false, false),
        Err(Fault::EmailMalformed)
    );
    assert_eq!(
        check_farmer_format(&payload("Jane", "a@b.com", "y"), true, false),
        Err(Fault::PhoneMalformed)
    );
    assert_eq!(check_farmer_format(&payload("Jane", "a@b.com", "0712345678"), true, true), Ok(()));
}

#[test]
fn resource_needs_a_name_and_a_quantity() {
    let resource = |name: &str, quantity: u64| ResourcePayload {
        name: name.to_string(),
        quantity,
        available: true,
    };
    assert_eq!(validate_resource(&resource("Seeds", 1)), Ok(()));
    assert_eq!(validate_resource(&resource("Seeds", u64::MAX)), Ok(()));
    assert_eq!(validate_resource(&resource("", 1)), Err(Fault::ResourceFieldsMissing));
    assert_eq!(validate_resource(&resource("Seeds", 0)), Err(Fault::ResourceFieldsMissing));
}

#[test]
fn event_needs_all_four_fields() {
    let event = |title: &str, description: &str, date: &str, location: &str| EventPayload {
        title: title.to_string(),
        description: description.to_string(),
        date: date.to_string(),
        location: location.to_string(),
    };
    assert_eq!(validate_event(&event("t", "d", "2025", "l")), Ok(()));
    assert_eq!(validate_event(&event("", "d", "2025", "l")), Err(Fault::EventFieldsMissing));
    assert_eq!(validate_event(&event("t", "", "2025", "l")), Err(Fault::EventFieldsMissing));
    assert_eq!(validate_event(&event("t", "d", "", "l")), Err(Fault::EventFieldsMissing));
    assert_eq!(validate_event(&event("t", "d", "2025", "")), Err(Fault::EventFieldsMissing));
}

#[test]
fn faults_report_their_kind_and_text() {
    assert_eq!(
        Fault::FarmerNotFound.report(),
        Message::NotFound("Farmer not found: Ensure the farmer ID is correct.".to_string())
    );
    assert_eq!(
        Fault::PlotNotFound.report(),
        Message::NotFound("Plot not found: Ensure the plot ID is correct.".to_string())
    );
    assert_eq!(
        Fault::ActivityNotFound.report(),
        Message::NotFound("Activity not found: Ensure the activity ID is correct.".to_string())
    );
    assert_eq!(
        Fault::EmailTaken.report(),
        Message::InvalidPayload(
            "Email already exists: Ensure the email address is unique.".to_string()
        )
    );
    assert_eq!(
        Fault::FarmerUnknown.report(),
        Message::InvalidPayload(
            "Farmer ID does not exist: Ensure the farmer ID is valid.".to_string()
        )
    );
    assert_eq!(
        Fault::ResourceFieldsMissing.description(),
        "Ensure 'name' and 'quantity' are provided and quantity is greater than 0."
    );
}

#[test]
fn every_fault_but_the_three_lookups_is_an_invalid_payload() {
    let faults = [
        Fault::FarmerFieldsMissing,
        Fault::EmailMalformed,
        Fault::PhoneMalformed,
        Fault::EmailTaken,
        Fault::FarmerIdInvalid,
        Fault::PlotFieldsMissing,
        Fault::FarmerUnknown,
        Fault::PlotIdInvalid,
        Fault::ActivityFieldsMissing,
        Fault::PlotUnknown,
        Fault::ActivityIdInvalid,
        Fault::ResourceFieldsMissing,
        Fault::ResourceIdInvalid,
        Fault::EventFieldsMissing,
        Fault::EventIdInvalid,
    ];
    for fault in faults {
        assert!(matches!(fault.report(), Message::InvalidPayload(_)), "{:?}", fault);
        assert!(!fault.description().is_empty());
    }
}

#[test]
fn phone_pattern_counts_digits_of_any_script() {
    // Ten Arabic-Indic digits.
    assert!(is_phone(
        "\u{0660}\u{0661}\u{0662}\u{0663}\u{0664}\u{0665}\u{0666}\u{0667}\u{0668}\u{0669}"
    ));
    // Nine of them.
    assert!(!is_phone("\u{0660}\u{0661}\u{0662}\u{0663}\u{0664}\u{0665}\u{0666}\u{0667}\u{0668}"));
}

#[test]
fn email_pattern_refuses_white_space_of_any_script() {
    assert!(!is_email("ja\u{00a0}ne@example.com"));
    assert!(!is_email("jane@exam\u{3000}ple.com"));
    assert!(is_email("j\u{00e4}ne@ex\u{00e4}mple.com"));
}
