//! The event resources: event listings, single events, and the pieces an
//! event is made of, together with the builder used when scheduling.

use vstd::prelude::*;
use vstd::string::StringExecFns;
use crate::gcal::{AdditionalProperties, CalendarAccessRole, DefaultReminder, QueryParams};

verus! {

/// The kind marker of a single event.
pub fn default_event_kind() -> (r: Option<String>)
    ensures
        r matches Some(k) && k@ == ("calendar#event")@,
{
    Some(String::from_str("calendar#event"))
}

/// The kind marker of an event listing.
pub fn default_events_kind() -> (r: Option<String>)
    ensures
        r matches Some(k) && k@ == ("calendar#events")@,
{
    Some(String::from_str("calendar#events"))
}

/// The default of the guest-permission flags.
pub fn default_true() -> (r: Option<bool>)
    ensures
        r == Some(true),
{
    Some(true)
}

/// One page of events of a single calendar.
#[derive(Debug, Clone, PartialEq)]
pub struct Events {
    pub kind: Option<String>,
    pub etag: String,
    pub summary: String,
    pub description: String,
    pub updated: String,
    pub time_zone: String,
    pub access_role: CalendarAccessRole,
    pub default_reminders: Vec<DefaultReminder>,
    pub next_page_token: Option<String>,
    pub items: Vec<Event>,
}

/// A single event.
#[derive(Debug, Clone, PartialEq)]
pub struct Event {
    pub kind: Option<String>,
    pub id: Option<String>,
    pub calendar_id: Option<String>,
    pub attachments: Option<Vec<EventAttachment>>,
    pub attendees_omitted: Option<bool>,
    pub attendees: Option<Vec<EventAttendees>>,
    pub color_id: Option<String>,
    pub conference_data: Option<EventConferenceData>,
    pub created: Option<String>,
    pub creator: Option<EventCreator>,
    pub description: Option<String>,
    pub end: Option<EventCalendarDate>,
    pub end_time_unspecified: Option<bool>,
    pub etag: Option<String>,
    pub event_type: Option<EventType>,
    pub extended_properties: Option<EventExtendedProperties>,
    pub gadget: Option<EventGadget>,
    pub guests_invite_others: Option<bool>,
    pub guests_can_modify: Option<bool>,
    pub guests_can_see_other_guests: Option<bool>,
    pub hangout_link: Option<String>,
    pub html_link: Option<String>,
    pub ical_uid: Option<String>,
    pub location: Option<String>,
    pub locked: Option<bool>,
    pub organizer: Option<EventOrganizer>,
    pub original_start_time: Option<EventCalendarDate>,
    pub private_copy: Option<bool>,
    pub recurring_event_id: Option<String>,
    pub recurrence: Option<Vec<String>>,
    pub reminders: Option<EventReminder>,
    pub sequence: Option<u64>,
    pub source: Option<EventSource>,
    pub start: Option<EventCalendarDate>,
    pub status: Option<EventStatus>,
    pub summary: Option<String>,
    pub transparency: Option<EventTransparency>,
    pub updated: Option<String>,
    pub visibility: Option<EventVisibility>,
    pub working_location: Option<EventWorkingLocation>,
    pub query_string: QueryParams,
}

/// The few fields of an event that a summary cares about.
#[derive(Debug, Clone, PartialEq)]
pub struct SimpleEvent {
    pub title: String,
    pub description: Option<String>,
    pub start_time: String,
    pub end_time: String,
}

impl SimpleEvent {
    /// Condense an event, with fixed words where a field is absent.
    pub fn from(event: &Event) -> (r: SimpleEvent)
        ensures
            r.title@ == (match event.summary {
                Some(s) => s@,
                None => ("No title")@,
            }),
            r.description == event.description,
            r.start_time@ == (match event.start {
                Some(st) => match st.date_time {
                    Some(t) => t@,
                    None => ("No start time")@,
                },
                None => ("No start time")@,
            }),
            r.end_time@ == (match event.end {
                Some(en) => match en.date_time {
                    Some(t) => t@,
                    None => ("No end time")@,
                },
                None => ("No end time")@,
            }),
    {
        let title = match &event.summary {
            Some(s) => s.clone(),
            None => String::from_str("No title"),
        };
        let description = match &event.description {
            Some(d) => Some(d.clone()),
            None => None,
        };
        let start_time = match &event.start {
            Some(st) => match &st.date_time {
                Some(t) => t.clone(),
                None => String::from_str("No start time"),
            },
            None => String::from_str("No start time"),
        };
        let end_time = match &event.end {
            Some(en) => match &en.date_time {
                Some(t) => t.clone(),
                None => String::from_str("No end time"),
            },
            None => String::from_str("No end time"),
        };
        SimpleEvent { title, description, start_time, end_time }
    }
}

#[derive(Debug, Clone, Copy, PartialEq, Eq, Structural)]
pub enum EventOfficeLocationType {
    HomeOffice,
    OfficeLocation,
    CustomLocation,
}

#[derive(Debug, Clone, PartialEq)]
pub struct EventOfficeLocation {
    pub building_id: Option<String>,
    pub desk_id: Option<String>,
    pub floor_id: Option<String>,
    pub floor_section_id: Option<String>,
    pub label: Option<String>,
    pub typ: EventOfficeLocationType,
}

#[derive(Debug, Clone, PartialEq)]
pub struct EventCustomLocation {
    pub label: Option<String>,
}

#[derive(Debug, Clone, PartialEq)]
pub struct EventWorkingLocation {
    pub custom_location: Option<EventCustomLocation>,
    pub home_office: Option<String>,
    pub office_location: Option<EventOfficeLocation>,
}

#[derive(Debug, Clone, Copy, PartialEq, Eq, Structural)]
pub enum EventVisibility {
    Default,
    Public,
    Private,
    Confidential,
}

#[derive(Debug, Clone, Copy, PartialEq, Eq, Structural)]
pub enum EventTransparency {
    Opaque,
    Transparent,
}

#[derive(Debug, Clone, Copy, PartialEq, Eq, Structural)]
pub enum EventStatus {
    Confirmed,
    Tentative,
    Cancelled,
}

#[derive(Debug, Clone, PartialEq)]
pub struct EventSource {
    pub title: String,
    pub url: String,
}

#[derive(Debug, Clone, PartialEq)]
pub struct EventReminder {
    pub overrides: Option<Vec<DefaultReminder>>,
    pub use_default: bool,
}

#[derive(Debug, Clone, PartialEq)]
pub struct EventOrganizer {
    pub display_name: Option<String>,
    pub email: String,
    pub id: Option<String>,
    pub appears_as_self: Option<bool>,
}

#[derive(Debug, Clone, Copy, PartialEq, Eq, Structural)]
pub enum EventGadgetDisplay {
    Icon,
    Chip,
}

#[derive(Debug, Clone, PartialEq)]
pub struct EventGadget {
    pub display: EventGadgetDisplay,
    pub preferences: AdditionalProperties,
}

#[derive(Debug, Clone, PartialEq)]
pub struct EventExtendedProperties {
    pub private: Option<AdditionalProperties>,
    pub shared: Option<AdditionalProperties>,
}

#[derive(Debug, Clone, Copy, PartialEq, Eq, Structural)]
pub enum EventType {
    Default,
    OutOfOffice,
    FocusTime,
    WorkingLocation,
}

#[derive(Debug, Clone, PartialEq)]
pub struct EventCalendarDate {
    pub date: Option<String>,
    pub date_time: Option<String>,
    pub time_zone: Option<String>,
}

#[derive(Debug, Clone, PartialEq)]
pub struct EventConferenceData {
    pub conference_id: Option<String>,
    pub conference_solution: Option<EventConferenceSolution>,
    pub create_request: Option<EventCreateConferenceRequest>,
    pub entry_points: Vec<EventConferenceEntryPoint>,
    pub notes: Option<String>,
    pub signature: Option<String>,
}

#[derive(Debug, Clone, PartialEq)]
pub struct EventCreator {
    pub display_name: Option<String>,
    pub email: Option<String>,
    pub id: Option<String>,
    pub appears_as_self: Option<bool>,
}

#[derive(Debug, Clone, PartialEq)]
pub struct EventConferenceEntryPoint {
    pub entry_point_type: EventConferenceEntryPointType,
    pub label: Option<String>,
    pub meeting_code: Option<String>,
    pub passcode: Option<String>,
    pub password: Option<String>,
    pub pin: Option<String>,
    pub uri: Option<String>,
}

#[derive(Debug, Clone, Copy, PartialEq, Eq, Structural)]
pub enum EventConferenceEntryPointType {
    Video,
    Phone,
    SIP,
    More,
}

#[derive(Debug, Clone, PartialEq)]
pub struct EventCreateConferenceRequest {
    pub conference_solution_key: EventConferenceSolutionKey,
    pub request_id: String,
    pub status: EventConferenceStatus,
}

#[derive(Debug, Clone, PartialEq)]
pub struct EventConferenceStatus {
    pub status_code: EventConferenceStatusCode,
}

#[derive(Debug, Clone, Copy, PartialEq, Eq, Structural)]
pub enum EventConferenceStatusCode {
    Pending,
    Success,
    Failure,
}

#[derive(Debug, Clone, PartialEq)]
pub struct EventConferenceSolution {
    pub icon_uri: String,
    pub key: EventConferenceSolutionKey,
}

#[derive(Debug, Clone, PartialEq)]
pub struct EventConferenceSolutionKey {
    pub typ: EventConferenceSolutionKeyType,
    pub name: Option<String>,
}

#[derive(Debug, Clone, Copy, PartialEq, Eq, Structural)]
pub enum EventConferenceSolutionKeyType {
    EventHangout,
    EventNamedHangout,
    HangoutsMeet,
    AddOn,
}

#[derive(Debug, Clone, PartialEq)]
pub struct EventAttendees {
    pub additional_guests: Option<u8>,
    pub comment: Option<String>,
    pub display_name: Option<String>,
    pub email: String,
    pub id: Option<String>,
    pub optional: Option<bool>,
    pub organizer: Option<bool>,
    pub resource: Option<bool>,
    pub response_status: EventResponseStatus,
    pub appears_as_self: Option<bool>,
}

#[derive(Debug, Clone, Copy, PartialEq, Eq, Structural)]
pub enum EventResponseStatus {
    NeedsAction,
    Declined,
    Tentative,
    Accepted,
}

#[derive(Debug, Clone, PartialEq)]
pub struct EventAttachment {
    pub file_id: String,
    pub file_url: String,
    pub icon_link: String,
    pub mime_type: String,
    pub title: String,
}

impl Event {
    /// The request path of this event within its calendar.
    pub fn path(&self, action: Option<String>) -> (r: String)
        requires
            self.calendar_id is Some,
        ensures
            r@ == ("calendars/")@ + (self.calendar_id->Some_0)@ + ("/events")@ + (match self.id {
                Some(id) => ("/")@ + id@,
                None => Seq::<char>::empty(),
            }) + (match action {
                Some(a) => ("/")@ + a@,
                None => Seq::<char>::empty(),
            }),
    {
        let mut r = String::from_str("calendars/");
        match &self.calendar_id {
            Some(cal) => r.append(cal.as_str()),
            None => {},
        }
        r.append("/events");
        match &self.id {
            Some(id) => {
                r.append("/");
                r.append(id.as_str());
            },
            None => {},
        }
        match &action {
            Some(a) => {
                r.append("/");
                r.append(a.as_str());
            },
            None => {},
        }
        r
    }

    /// The query parameters carried by this event.
    pub fn query(&self) -> (r: QueryParams)
        ensures
            r@ == self.query_string@,
    {
        self.query_string.clone()
    }
}

/// The endpoint to which a new event is posted; creating a meeting asks
/// for conference data to be honoured.
pub fn schedule_event_url(meeting: bool) -> (r: String)
    ensures
        meeting ==> r@ == (
        "https://www.googleapis.com/calendar/v3/calendars/primary/events?conferenceDataVersion=1")@,
        !meeting ==> r@ == ("https://www.googleapis.com/calendar/v3/calendars/primary/events")@,
{
    if meeting {
        String::from_str(
            "https://www.googleapis.com/calendar/v3/calendars/primary/events?conferenceDataVersion=1",
        )
    } else {
        String::from_str("https://www.googleapis.com/calendar/v3/calendars/primary/events")
    }
}

/// The endpoint from which the primary calendar's events between the two
/// instants are listed.
pub fn events_list_url(time_min: &str, time_max: &str) -> (r: String)
    ensures
        r@ == ("https://www.googleapis.com/calendar/v3/calendars/primary/events?timeMin=")@
            + time_min@ + ("&timeMax=")@ + time_max@,
{
    let mut r = String::from_str(
        "https://www.googleapis.com/calendar/v3/calendars/primary/events?timeMin=",
    );
    r.append(time_min);
    r.append("&timeMax=");
    r.append(time_max);
    proof {
        assert(r@ =~= (
        "https://www.googleapis.com/calendar/v3/calendars/primary/events?timeMin=")@ + time_min@
            + ("&timeMax=")@ + time_max@);
    }
    r
}

/// Build the event that a scheduling decision describes: titled and timed
/// as given, optionally with attendees, and, for a meeting, with a
/// conference creation request under the given request id. Every other
/// field is left empty.
pub fn create_event(
    summary: &str,
    description: &str,
    start_time: &str,
    end_time: &str,
    timezone: Option<String>,
    attendees: Vec<EventAttendees>,
    meeting: bool,
    request_id: String,
) -> (r: Event)
    ensures
        r.summary matches Some(s) && s@ == summary@,
        r.description matches Some(d) && d@ == description@,
        r.start matches Some(st) && st.date is None && st.time_zone == timezone && (st.date_time
            matches Some(t) && t@ == start_time@),
        r.end matches Some(en) && en.date is None && en.time_zone == timezone && (en.date_time
            matches Some(t) && t@ == end_time@),
        attendees.len() == 0 ==> r.attendees is None,
        attendees.len() > 0 ==> r.attendees == Some(attendees),
        meeting ==> (r.conference_data matches Some(cd) && cd.create_request matches Some(req)
            && req.request_id == request_id && req.conference_solution_key == (
        EventConferenceSolutionKey {
            typ: EventConferenceSolutionKeyType::HangoutsMeet,
            name: None,
        }) && req.status == (EventConferenceStatus {
            status_code: EventConferenceStatusCode::Pending,
        }) && cd.conference_id is None && cd.conference_solution is None && cd.entry_points@.len()
            == 0 && cd.notes is None && cd.signature is None),
        !meeting ==> r.conference_data is None,
        r.kind is None && r.id is None && r.calendar_id is None && r.attachments is None
            && r.attendees_omitted is None && r.color_id is None && r.created is None
            && r.creator is None && r.end_time_unspecified is None && r.etag is None
            && r.event_type is None && r.extended_properties is None && r.gadget is None
            && r.guests_invite_others is None && r.guests_can_modify is None
            && r.guests_can_see_other_guests is None && r.hangout_link is None
            && r.html_link is None && r.ical_uid is None && r.location is None && r.locked is None
            && r.organizer is None && r.original_start_time is None && r.private_copy is None
            && r.recurring_event_id is None && r.recurrence is None && r.reminders is None
            && r.sequence is None && r.source is None && r.status is None && r.transparency
            is None && r.updated is None && r.visibility is None && r.working_location is None
            && r.query_string@ =~= Seq::<(Seq<char>, Seq<char>)>::empty(),
{
    let conference_data = if meeting {
        Some(
            EventConferenceData {
                conference_id: None,
                conference_solution: None,
                create_request: Some(
                    EventCreateConferenceRequest {
                        conference_solution_key: EventConferenceSolutionKey {
                            typ: EventConferenceSolutionKeyType::HangoutsMeet,
                            name: None,
                        },
                        request_id,
                        status: EventConferenceStatus {
                            status_code: EventConferenceStatusCode::Pending,
                        },
                    },
                ),
                entry_points: Vec::new(),
                notes: None,
                signature: None,
            },
        )
    } else {
        None
    };
    let event_attendees = if attendees.len() == 0 {
        None
    } else {
        Some(attendees)
    };
    let start_timezone = match &timezone {
        Some(tz) => Some(tz.clone()),
        None => None,
    };
    Event {
        kind: None,
        id: None,
        calendar_id: None,
        attachments: None,
        attendees_omitted: None,
        attendees: event_attendees,
        color_id: None,
        conference_data,
        created: None,
        creator: None,
        description: Some(String::from_str(description)),
        end: Some(
            EventCalendarDate {
                date: None,
                date_time: Some(String::from_str(end_time)),
                time_zone: timezone,
            },
        ),
        end_time_unspecified: None,
        etag: None,
        event_type: None,
        extended_properties: None,
        gadget: None,
        guests_invite_others: None,
        guests_can_modify: None,
        guests_can_see_other_guests: None,
        hangout_link: None,
        html_link: None,
        ical_uid: None,
        location: None,
        locked: None,
        organizer: None,
        original_start_time: None,
        private_copy: None,
        recurring_event_id: None,
        recurrence: None,
        reminders: None,
        sequence: None,
        source: None,
        start: Some(
            EventCalendarDate {
                date: None,
                date_time: Some(String::from_str(start_time)),
                time_zone: start_timezone,
            },
        ),
        status: None,
        summary: Some(String::from_str(summary)),
        transparency: None,
        updated: None,
        visibility: None,
        working_location: None,
        query_string: QueryParams::empty(),
    }
}

} // verus!
