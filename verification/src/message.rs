//! What a refused operation reports: the fault that stopped it, and the
//! message that the caller sees.

use vstd::prelude::*;
use vstd::string::*;

verus! {

/// The result that a caller sees when an operation is refused.
#[derive(Clone, Debug, PartialEq, Eq)]
pub enum Message {
    /// An update named an identifier that the table does not hold.
    NotFound(String),
    /// A check of the validation pipeline failed.
    InvalidPayload(String),
}

/// A message as a mathematical value.
pub enum MessageView {
    NotFound(Seq<char>),
    InvalidPayload(Seq<char>),
}

impl View for Message {
    type V = MessageView;

    open spec fn view(&self) -> MessageView {
        match self {
            Message::NotFound(text) => MessageView::NotFound(text@),
            Message::InvalidPayload(text) => MessageView::InvalidPayload(text@),
        }
    }
}

/// What the caller reads on `Fault::FarmerFieldsMissing`.
pub const FARMER_FIELDS_MISSING: &'static str =
    "Ensure 'name', 'email', and 'phone_number' are provided.";

/// What the caller reads on `Fault::EmailMalformed`.
pub const EMAIL_MALFORMED: &'static str =
    "Invalid email format: Ensure the email is in the correct format.";

/// What the caller reads on `Fault::PhoneMalformed`.
pub const PHONE_MALFORMED: &'static str =
    "Invalid phone number: Ensure the phone number is in the correct format.";

/// What the caller reads on `Fault::EmailTaken`.
pub const EMAIL_TAKEN: &'static str = "Email already exists: Ensure the email address is unique.";

/// What the caller reads on `Fault::FarmerIdInvalid`.
pub const FARMER_ID_INVALID: &'static str = "Invalid farmer_id: Ensure the farmer ID is valid.";

/// What the caller reads on `Fault::FarmerNotFound`.
pub const FARMER_NOT_FOUND: &'static str = "Farmer not found: Ensure the farmer ID is correct.";

/// What the caller reads on `Fault::PlotFieldsMissing`.
pub const PLOT_FIELDS_MISSING: &'static str =
    "Ensure 'farmer_id', 'size', 'location', and 'reserved_until' are provided.";

/// What the caller reads on `Fault::FarmerUnknown`.
pub const FARMER_UNKNOWN: &'static str = "Farmer ID does not exist: Ensure the farmer ID is valid.";

/// What the caller reads on `Fault::PlotIdInvalid`.
pub const PLOT_ID_INVALID: &'static str = "Invalid plot_id: Ensure the plot ID is valid.";

/// What the caller reads on `Fault::PlotNotFound`.
pub const PLOT_NOT_FOUND: &'static str = "Plot not found: Ensure the plot ID is correct.";

/// What the caller reads on `Fault::ActivityFieldsMissing`.
pub const ACTIVITY_FIELDS_MISSING: &'static str =
    "Ensure 'plot_id', 'description', and 'date' are provided.";

/// What the caller reads on `Fault::PlotUnknown`.
pub const PLOT_UNKNOWN: &'static str = "Plot ID does not exist: Ensure the plot ID is valid.";

/// What the caller reads on `Fault::ActivityIdInvalid`.
pub const ACTIVITY_ID_INVALID: &'static str =
    "Invalid activity_id: Ensure the activity ID is valid.";

/// What the caller reads on `Fault::ActivityNotFound`.
pub const ACTIVITY_NOT_FOUND: &'static str =
    "Activity not found: Ensure the activity ID is correct.";

/// What the caller reads on `Fault::ResourceFieldsMissing`.
pub const RESOURCE_FIELDS_MISSING: &'static str =
    "Ensure 'name' and 'quantity' are provided and quantity is greater than 0.";

/// What the caller reads on `Fault::ResourceIdInvalid`.
pub const RESOURCE_ID_INVALID: &'static str =
    "Invalid resource_id: Ensure the resource ID is valid.";

/// What the caller reads on `Fault::EventFieldsMissing`.
pub const EVENT_FIELDS_MISSING: &'static str =
    "Ensure 'title', 'description', 'date', and 'location' are provided.";

/// What the caller reads on `Fault::EventIdInvalid`.
pub const EVENT_ID_INVALID: &'static str = "Invalid event_id: Ensure the event ID is valid.";

/// The step of the pipeline, or the lookup, that refused an operation.
#[derive(Clone, Copy, Debug, PartialEq, Eq, Structural)]
pub enum Fault {
    /// A farmer payload lacks its name, email or phone number.
    FarmerFieldsMissing,
    /// A farmer's email does not have the form of an address.
    EmailMalformed,
    /// A farmer's phone number is not ten digits.
    PhoneMalformed,
    /// A stored farmer already has the email.
    EmailTaken,
    /// A farmer's identifier does not read as a number.
    FarmerIdInvalid,
    /// No farmer is stored under the identifier of an update.
    FarmerNotFound,
    /// A plot payload lacks one of its four fields.
    PlotFieldsMissing,
    /// A plot names a farmer that is not stored.
    FarmerUnknown,
    /// A plot's identifier does not read as a number.
    PlotIdInvalid,
    /// No plot is stored under the identifier of an update.
    PlotNotFound,
    /// An activity payload lacks one of its three fields.
    ActivityFieldsMissing,
    /// An activity names a plot that is not stored.
    PlotUnknown,
    /// An activity's identifier does not read as a number.
    ActivityIdInvalid,
    /// No activity is stored under the identifier of an update.
    ActivityNotFound,
    /// A resource payload lacks its name or has a quantity of zero.
    ResourceFieldsMissing,
    /// A resource's identifier does not read as a number.
    ResourceIdInvalid,
    /// An event payload lacks one of its four fields.
    EventFieldsMissing,
    /// An event's identifier does not read as a number.
    EventIdInvalid,
}

impl Fault {
    /// Whether the fault is a missing record rather than a bad payload.
    pub open spec fn is_not_found(self) -> bool {
        self == Fault::FarmerNotFound || self == Fault::PlotNotFound || self
            == Fault::ActivityNotFound
    }

    /// The description that the caller reads.
    pub open spec fn text(self) -> Seq<char> {
        match self {
            Fault::FarmerFieldsMissing => FARMER_FIELDS_MISSING@,
            Fault::EmailMalformed => EMAIL_MALFORMED@,
            Fault::PhoneMalformed => PHONE_MALFORMED@,
            Fault::EmailTaken => EMAIL_TAKEN@,
            Fault::FarmerIdInvalid => FARMER_ID_INVALID@,
            Fault::FarmerNotFound => FARMER_NOT_FOUND@,
            Fault::PlotFieldsMissing => PLOT_FIELDS_MISSING@,
            Fault::FarmerUnknown => FARMER_UNKNOWN@,
            Fault::PlotIdInvalid => PLOT_ID_INVALID@,
            Fault::PlotNotFound => PLOT_NOT_FOUND@,
            Fault::ActivityFieldsMissing => ACTIVITY_FIELDS_MISSING@,
            Fault::PlotUnknown => PLOT_UNKNOWN@,
            Fault::ActivityIdInvalid => ACTIVITY_ID_INVALID@,
            Fault::ActivityNotFound => ACTIVITY_NOT_FOUND@,
            Fault::ResourceFieldsMissing => RESOURCE_FIELDS_MISSING@,
            Fault::ResourceIdInvalid => RESOURCE_ID_INVALID@,
            Fault::EventFieldsMissing => EVENT_FIELDS_MISSING@,
            Fault::EventIdInvalid => EVENT_ID_INVALID@,
        }
    }

    /// The message that reports the fault: `NotFound` for a missing record,
    /// `InvalidPayload` for every other fault, each with its description.
    pub open spec fn message(self) -> MessageView {
        if self.is_not_found() {
            MessageView::NotFound(self.text())
        } else {
            MessageView::InvalidPayload(self.text())
        }
    }

    /// The description that the caller reads.
    pub fn description(&self) -> (text: &'static str)
        ensures
            text@ == self.text(),
    {
        match self {
            Fault::FarmerFieldsMissing => FARMER_FIELDS_MISSING,
            Fault::EmailMalformed => EMAIL_MALFORMED,
            Fault::PhoneMalformed => PHONE_MALFORMED,
            Fault::EmailTaken => EMAIL_TAKEN,
            Fault::FarmerIdInvalid => FARMER_ID_INVALID,
            Fault::FarmerNotFound => FARMER_NOT_FOUND,
            Fault::PlotFieldsMissing => PLOT_FIELDS_MISSING,
            Fault::FarmerUnknown => FARMER_UNKNOWN,
            Fault::PlotIdInvalid => PLOT_ID_INVALID,
            Fault::PlotNotFound => PLOT_NOT_FOUND,
            Fault::ActivityFieldsMissing => ACTIVITY_FIELDS_MISSING,
            Fault::PlotUnknown => PLOT_UNKNOWN,
            Fault::ActivityIdInvalid => ACTIVITY_ID_INVALID,
            Fault::ActivityNotFound => ACTIVITY_NOT_FOUND,
            Fault::ResourceFieldsMissing => RESOURCE_FIELDS_MISSING,
            Fault::ResourceIdInvalid => RESOURCE_ID_INVALID,
            Fault::EventFieldsMissing => EVENT_FIELDS_MISSING,
            Fault::EventIdInvalid => EVENT_ID_INVALID,
        }
    }

    /// Builds the message that reports the fault.
    pub fn report(&self) -> (message: Message)
        ensures
            message@ == self.message(),
    {
        let text = String::from_str(self.description());
        match self {
            Fault::FarmerNotFound | Fault::PlotNotFound | Fault::ActivityNotFound => {
                Message::NotFound(text)
            },
            _ => Message::InvalidPayload(text),
        }
    }
}

} // verus!
