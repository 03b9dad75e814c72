//! The stores, the calendar data model, and the small helpers around them.

use kcal::calendar::{default_kind, Calendar};
use kcal::calendar_list::{default_entry_kind, default_list_kind, CalendarList, CalendarListItem};
use kcal::encoding::form_encode_component;
use kcal::events::{
    create_event, default_event_kind, default_events_kind, default_true, events_list_url,
    schedule_event_url, Event, EventAttendees, EventCalendarDate, EventResponseStatus, SimpleEvent,
};
use kcal::gcal::{CalendarAccessRole, ConferenceProperties, QueryParams, SendUpdates};
use kcal::jsonio::{timezone_from_settings, SettingsError};
use kcal::model::ClientId;
use kcal::stores::{PendingAuthorization, PendingStore, TokenRecord, TokenStore};
use kcal::strutil::{find_str, split_char, trim_str};

fn client(n: &str) -> ClientId {
    ClientId::new(n.to_string(), "client:kcal:node".to_string())
}

fn pending(state: &str, who: &str) -> PendingAuthorization {
    PendingAuthorization {
        state: state.to_string(),
        client: client(who),
        pkce_verifier: format!("verifier-of-{}", state),
        created_at: 7,
    }
}

#[test]
fn pending_store_inserts_and_consumes_once() {
    let mut store = PendingStore::new();
    store.insert(pending("S1", "a"));
    store.insert(pending("S2", "b"));
    assert_eq!(store.len(), 2);
    assert!(store.contains(&"S1".to_string()));
    let taken = store.take(&"S1".to_string()).expect("S1 is live");
    assert_eq!(taken.state, "S1");
    assert_eq!(taken.pkce_verifier, "verifier-of-S1");
    assert!(taken.client.same_as(&client("a")));
    assert!(store.take(&"S1".to_string()).is_none(), "consumed exactly once");
    assert_eq!(store.len(), 1);
}

#[test]
fn pending_store_keeps_one_entry_per_state() {
    let mut store = PendingStore::new();
    store.insert(pending("S1", "a"));
    store.insert(pending("S1", "b"));
    assert_eq!(store.len(), 1, "a repeated state replaces the entry");
    let taken = store.take(&"S1".to_string()).unwrap();
    assert!(taken.client.same_as(&client("b")));
}

#[test]
fn token_store_upserts_by_client() {
    let mut store = TokenStore::new();
    store.upsert(TokenRecord {
        client: client("a"),
        refresh_token: "RT1".to_string(),
        expires_at: 100,
        scopes: vec![],
    });
    store.upsert(TokenRecord {
        client: client("a"),
        refresh_token: "RT2".to_string(),
        expires_at: 200,
        scopes: vec![],
    });
    assert_eq!(store.len(), 1);
    let record = store.get(&client("a")).unwrap();
    assert_eq!(record.refresh_token, "RT2");
    assert_eq!(record.expires_at, 200);
    assert!(store.get(&client("b")).is_none());
}

#[test]
fn token_records_rebuild_an_equal_store() {
    let mut store = TokenStore::new();
    for (who, token, at) in [("a", "RT1", 100u64), ("b", "RT2", 200u64)] {
        store.upsert(TokenRecord {
            client: client(who),
            refresh_token: token.to_string(),
            expires_at: at,
            scopes: vec!["calendar".to_string()],
        });
    }
    let mut rebuilt = TokenStore::new();
    for record in store.records() {
        rebuilt.upsert(TokenRecord {
            client: ClientId::new(record.client.node.clone(), record.client.process.clone()),
            refresh_token: record.refresh_token.clone(),
            expires_at: record.expires_at,
            scopes: record.scopes.clone(),
        });
    }
    assert_eq!(rebuilt.len(), 2);
    for who in ["a", "b"] {
        let original = store.get(&client(who)).unwrap();
        let copy = rebuilt.get(&client(who)).unwrap();
        assert_eq!(original.refresh_token, copy.refresh_token);
        assert_eq!(original.expires_at, copy.expires_at);
        assert_eq!(original.scopes, copy.scopes);
    }
}

#[test]
fn client_identity_compares_by_both_parts() {
    assert!(client("a").same_as(&client("a")));
    assert!(!client("a").same_as(&client("b")));
    let other = ClientId::new("a".to_string(), "other:kcal:node".to_string());
    assert!(!ClientId::new("a".to_string(), "client:kcal:node".to_string()).same_as(&other));
}

#[test]
fn form_encoding_matches_the_urlencoded_format() {
    assert_eq!(form_encode_component("a b*c-d._"), "a+b*c-d._");
    assert_eq!(form_encode_component("x/y:z"), "x%2Fy%3Az");
    assert_eq!(form_encode_component("caf\u{e9}"), "caf%C3%A9");
    assert_eq!(form_encode_component(""), "");
}

#[test]
fn string_helpers_behave_like_their_specifications() {
    assert_eq!(trim_str("  \t hello \r\n"), "hello");
    assert_eq!(trim_str(""), "");
    assert_eq!(find_str("hay ENDMARKER stack", "ENDMARKER"), Some(4));
    assert_eq!(find_str("haystack", "ENDMARKER"), None);
    let parts = split_char("a,,b,", ',');
    assert_eq!(parts, vec!["a".to_string(), "".to_string(), "b".to_string(), "".to_string()]);
}

#[test]
fn calendar_paths_are_exact() {
    let cal = Calendar {
        kind: default_kind(),
        id: "primary".to_string(),
        etag: None,
        summary: None,
        description: None,
        location: "".to_string(),
        time_zone: "UTC".to_string(),
        conference_properties: ConferenceProperties { allowed_conference_solution_types: vec![] },
    };
    assert_eq!(cal.path(None), "calendars/primary");
    assert!(cal.query().pairs.is_empty());
}

#[test]
fn calendar_list_paths_are_exact() {
    let item = CalendarListItem {
        kind: default_entry_kind(),
        id: "work".to_string(),
        etag: None,
        location: None,
        summary: None,
        summary_override: None,
        time_zone: None,
        access_role: CalendarAccessRole::Owner,
        background_color: None,
        foreground_color: None,
        color_id: None,
        conference_properties: None,
        deleted: None,
        hidden: None,
        primary: None,
        selected: None,
        description: None,
        notification_settings: None,
        default_reminders: vec![],
        query_string: QueryParams { pairs: vec![] },
    };
    assert_eq!(item.path(None), "users/me/calendarList/work");
    let list = CalendarList {
        kind: default_list_kind(),
        etag: None,
        next_sync_token: None,
        items: vec![item],
        query_string: QueryParams { pairs: vec![("a".to_string(), "b".to_string())] },
    };
    assert_eq!(list.path(None), "users/me/calendarList");
    assert_eq!(list.query().pairs, vec![("a".to_string(), "b".to_string())]);
}

#[test]
fn event_path_includes_id_and_action() {
    let mut event = create_event("t", "d", "s", "e", None, vec![], false, "r1".to_string());
    event.calendar_id = Some("primary".to_string());
    assert_eq!(event.path(None), "calendars/primary/events");
    event.id = Some("ev9".to_string());
    assert_eq!(event.path(None), "calendars/primary/events/ev9");
    assert_eq!(event.path(Some("move".to_string())), "calendars/primary/events/ev9/move");
}

#[test]
fn created_event_carries_the_given_fields() {
    let attendee = EventAttendees {
        additional_guests: None,
        comment: None,
        display_name: None,
        email: "alice@example.com".to_string(),
        id: None,
        optional: None,
        organizer: None,
        resource: None,
        response_status: EventResponseStatus::NeedsAction,
        appears_as_self: None,
    };
    let event = create_event(
        "Dentist",
        "checkup",
        "2024-05-23T03:00:00Z",
        "2024-05-23T04:00:00Z",
        Some("UTC".to_string()),
        vec![attendee],
        true,
        "42".to_string(),
    );
    assert_eq!(event.summary.as_deref(), Some("Dentist"));
    assert_eq!(event.description.as_deref(), Some("checkup"));
    let start = event.start.clone().unwrap();
    assert_eq!(start.date_time.as_deref(), Some("2024-05-23T03:00:00Z"));
    assert_eq!(start.time_zone.as_deref(), Some("UTC"));
    assert_eq!(event.attendees.as_ref().map(|a| a.len()), Some(1));
    let request = event.conference_data.clone().unwrap().create_request.unwrap();
    assert_eq!(request.request_id, "42");
    assert!(event.id.is_none());
    assert!(event.kind.is_none());

    let plain = create_event("t", "d", "s", "e", None, vec![], false, "0".to_string());
    assert!(plain.conference_data.is_none());
    assert!(plain.attendees.is_none());
}

#[test]
fn simple_event_condenses_with_fixed_fallbacks() {
    let mut event = create_event("Standup", "daily", "08:00", "08:15", None, vec![], false, "0".to_string());
    let simple = SimpleEvent::from(&event);
    assert_eq!(simple.title, "Standup");
    assert_eq!(simple.description.as_deref(), Some("daily"));
    assert_eq!(simple.start_time, "08:00");
    assert_eq!(simple.end_time, "08:15");

    event.summary = None;
    event.start = Some(EventCalendarDate { date: None, date_time: None, time_zone: None });
    event.end = None;
    let bare = SimpleEvent::from(&event);
    assert_eq!(bare.title, "No title");
    assert_eq!(bare.start_time, "No start time");
    assert_eq!(bare.end_time, "No end time");
}

#[test]
fn kind_markers_and_defaults() {
    assert_eq!(default_kind().as_deref(), Some("calendar#calendar"));
    assert_eq!(default_entry_kind().as_deref(), Some("calendar#calendarListEntry"));
    assert_eq!(default_list_kind().as_deref(), Some("calendar#calendarList"));
    assert_eq!(default_event_kind().as_deref(), Some("calendar#event"));
    assert_eq!(default_events_kind().as_deref(), Some("calendar#events"));
    assert_eq!(default_true(), Some(true));
    let _: Option<Event> = None;
}

#[test]
fn event_request_urls_are_exact() {
    assert_eq!(
        schedule_event_url(true),
        "https://www.googleapis.com/calendar/v3/calendars/primary/events?conferenceDataVersion=1"
    );
    assert_eq!(
        schedule_event_url(false),
        "https://www.googleapis.com/calendar/v3/calendars/primary/events"
    );
    assert_eq!(
        events_list_url("2024-05-27T00:00:00Z", "2024-05-28T00:00:00Z"),
        "https://www.googleapis.com/calendar/v3/calendars/primary/events\
?timeMin=2024-05-27T00:00:00Z&timeMax=2024-05-28T00:00:00Z"
    );
}

#[test]
fn send_updates_wire_words() {
    assert_eq!(SendUpdates::All.to_string(), "all");
    assert_eq!(SendUpdates::ExternalOnly.to_string(), "externalOnly");
    assert_eq!(SendUpdates::NoUpdates.to_string(), "none");
}

#[test]
fn timezone_setting_is_read_from_json() {
    assert_eq!(
        timezone_from_settings(br#"{"value":"Europe/Paris"}"#),
        Ok("Europe/Paris".to_string())
    );
    assert_eq!(timezone_from_settings(br#"{"value":7}"#), Err(SettingsError::InvalidTimezone));
    assert_eq!(timezone_from_settings(br#"{"other":1}"#), Err(SettingsError::NoTimezone));
    assert_eq!(timezone_from_settings(b"not json"), Err(SettingsError::MalformedBody));
}
