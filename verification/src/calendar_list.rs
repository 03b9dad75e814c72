//! The calendar list: the calendars available to the caller.

use vstd::prelude::*;
use vstd::string::StringExecFns;
use crate::gcal::{CalendarAccessRole, ConferenceProperties, DefaultReminder, QueryParams};

verus! {

/// The kind marker of a calendar list entry.
pub fn default_entry_kind() -> (r: Option<String>)
    ensures
        r matches Some(k) && k@ == ("calendar#calendarListEntry")@,
{
    Some(String::from_str("calendar#calendarListEntry"))
}

/// The kind marker of the calendar list.
pub fn default_list_kind() -> (r: Option<String>)
    ensures
        r matches Some(k) && k@ == ("calendar#calendarList")@,
{
    Some(String::from_str("calendar#calendarList"))
}

/// A single calendar as returned by the calendar list (not to be confused
/// with the calendar resource itself).
#[derive(Debug, Clone, PartialEq)]
pub struct CalendarListItem {
    pub kind: Option<String>,
    pub id: String,
    pub etag: Option<String>,
    pub location: Option<String>,
    pub summary: Option<String>,
    pub summary_override: Option<String>,
    pub time_zone: Option<String>,
    pub access_role: CalendarAccessRole,
    pub background_color: Option<String>,
    pub foreground_color: Option<String>,
    pub color_id: Option<String>,
    pub conference_properties: Option<ConferenceProperties>,
    pub deleted: Option<bool>,
    pub hidden: Option<bool>,
    pub primary: Option<bool>,
    pub selected: Option<bool>,
    pub description: Option<String>,
    pub notification_settings: Option<NotificationSettings>,
    pub default_reminders: Vec<DefaultReminder>,
    pub query_string: QueryParams,
}

#[derive(Debug, Clone, PartialEq)]
pub struct NotificationSettings {
    pub notifications: Vec<NotificationSetting>,
}

#[derive(Debug, Clone, PartialEq)]
pub struct NotificationSetting {
    pub method: NotificationSettingMethod,
    pub typ: NotificationSettingType,
}

#[derive(Debug, Clone, Copy, PartialEq, Eq, Structural)]
pub enum NotificationSettingMethod {
    EMail,
}

#[derive(Debug, Clone, Copy, PartialEq, Eq, Structural)]
pub enum NotificationSettingType {
    EventCreation,
    EventChange,
    EventCancellation,
    EventResponse,
    Agenda,
}

/// One page of the calendar list.
#[derive(Debug, Clone, PartialEq)]
pub struct CalendarList {
    pub kind: Option<String>,
    pub etag: Option<String>,
    pub next_sync_token: Option<String>,
    pub items: Vec<CalendarListItem>,
    pub query_string: QueryParams,
}

impl CalendarListItem {
    /// The request path of this entry.
    pub fn path(&self, action: Option<String>) -> (r: String)
        ensures
            r@ == ("users/me/calendarList/")@ + self.id@,
    {
        let _ = action;
        let mut r = String::from_str("users/me/calendarList/");
        r.append(self.id.as_str());
        r
    }

    /// The query parameters carried by this entry.
    pub fn query(&self) -> (r: QueryParams)
        ensures
            r@ == self.query_string@,
    {
        self.query_string.clone()
    }
}

impl CalendarList {
    /// The request path of the calendar list.
    pub fn path(&self, action: Option<String>) -> (r: String)
        ensures
            r@ == ("users/me/calendarList")@,
    {
        let _ = action;
        String::from_str("users/me/calendarList")
    }

    /// The query parameters carried by the list request.
    pub fn query(&self) -> (r: QueryParams)
        ensures
            r@ == self.query_string@,
    {
        self.query_string.clone()
    }
}

} // verus!
