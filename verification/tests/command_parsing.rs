//! The chat-command parsers: what each response of the assistant is
//! decided to ask for.

use kcal::commands::{
    classify_sender, process_response, process_schedule_request, ChatSender, CommandError,
    ResponseDecision, ScheduleDecision,
};

#[test]
fn sender_classification_follows_the_stored_owner() {
    assert_eq!(classify_sender(None, 7), ChatSender::FirstContact);
    assert_eq!(classify_sender(Some(7), 7), ChatSender::Owner);
    assert_eq!(classify_sender(Some(7), 8), ChatSender::Guest);
}

#[test]
fn schedule_request_command_is_parsed() {
    let input = "SCHEDULE_REQUEST,2024-06-05T18:00:00Z,2024-06-05T19:00:00Z,\
Meeting with John Doe,meet John Doe,ENDMARKER Your meeting has been scheduled.";
    match process_schedule_request(input).unwrap() {
        ScheduleDecision::Schedule { start, end, title, description, confirmation } => {
            assert_eq!(start, "2024-06-05T18:00:00Z");
            assert_eq!(end, "2024-06-05T19:00:00Z");
            assert_eq!(title, "Meeting with John Doe");
            assert_eq!(description, "meet John Doe");
            assert_eq!(confirmation, "Your meeting has been scheduled.");
        },
        other => panic!("wrong decision: {:?}", decision_name_schedule(&other)),
    }
}

#[test]
fn schedule_request_with_too_few_fields_is_invalid() {
    let input = "SCHEDULE_REQUEST,2024-06-05T18:00:00Z,Title,ENDMARKER ok";
    assert_eq!(
        process_schedule_request(input).unwrap_err(),
        CommandError::InvalidScheduleRequest
    );
}

#[test]
fn incomplete_request_builds_the_missing_information_reply() {
    let input = "INCOMPLETE_REQUEST,your name and a date,ENDMARKER please add details";
    match process_schedule_request(input).unwrap() {
        ScheduleDecision::Incomplete { reply } => assert_eq!(
            reply,
            "Incomplete request. Please provide the following missing information: your name and a date"
        ),
        other => panic!("wrong decision: {:?}", decision_name_schedule(&other)),
    }
}

#[test]
fn rejected_request_builds_the_reason_reply() {
    let input = "REJECTED_REQUEST,offensive language,ENDMARKER no";
    match process_schedule_request(input).unwrap() {
        ScheduleDecision::Rejected { reply } => {
            assert_eq!(reply, "Request rejected. Reason: offensive language")
        },
        other => panic!("wrong decision: {:?}", decision_name_schedule(&other)),
    }
}

#[test]
fn response_without_marker_passes_through() {
    let input = "Your local time zone is America/Los_Angeles.";
    match process_schedule_request(input).unwrap() {
        ScheduleDecision::Passthrough { reply } => assert_eq!(reply, input),
        other => panic!("wrong decision: {:?}", decision_name_schedule(&other)),
    }
    match process_response(input).unwrap() {
        ResponseDecision::Passthrough { reply } => assert_eq!(reply, input),
        other => panic!("wrong decision: {:?}", decision_name_response(&other)),
    }
}

#[test]
fn unknown_command_before_marker_passes_through() {
    let input = "WEATHER,tomorrow,ENDMARKER sunny";
    match process_schedule_request(input).unwrap() {
        ScheduleDecision::Passthrough { reply } => assert_eq!(reply, input),
        other => panic!("wrong decision: {:?}", decision_name_schedule(&other)),
    }
}

#[test]
fn escaped_newlines_become_spaces_in_fields() {
    let input = "SCHEDULE_REQUEST,a\\nb,c\\rd,Title,Desc,ENDMARKER done";
    match process_schedule_request(input).unwrap() {
        ScheduleDecision::Schedule { start, end, .. } => {
            assert_eq!(start, "a b");
            assert_eq!(end, "c d");
        },
        other => panic!("wrong decision: {:?}", decision_name_schedule(&other)),
    }
}

#[test]
fn list_command_is_parsed() {
    let input = "LIST,2024-05-27T00:00:00Z,2024-06-02T23:59:59Z,UTC,ENDMARKER You have 3 events.";
    match process_response(input).unwrap() {
        ResponseDecision::List { start, end, timezone } => {
            assert_eq!(start, "2024-05-27T00:00:00Z");
            assert_eq!(end, "2024-06-02T23:59:59Z");
            assert_eq!(timezone, "UTC");
        },
        other => panic!("wrong decision: {:?}", decision_name_response(&other)),
    }
}

#[test]
fn list_with_too_few_fields_is_invalid() {
    let input = "LIST,2024-05-27T00:00:00Z,ENDMARKER summary";
    assert_eq!(process_response(input).unwrap_err(), CommandError::InvalidList);
}

#[test]
fn quoted_response_with_real_newlines_is_cleaned() {
    let input = "\"LIST,2024-05-27T00:00:00Z,2024-06-02T23:59:59Z,UTC,ENDMARKER\nYou have events.\"";
    match process_response(input).unwrap() {
        ResponseDecision::List { timezone, .. } => assert_eq!(timezone, "UTC"),
        other => panic!("wrong decision: {:?}", decision_name_response(&other)),
    }
}

#[test]
fn schedule_command_with_attendee_becomes_a_meeting() {
    let input = "SCHEDULE,2024-05-23T03:00:00Z,2024-05-23T04:00:00Z,UTC,Dentist,checkup,\
[alice@example.com],ENDMARKER Scheduled.";
    match process_response(input).unwrap() {
        ResponseDecision::Schedule {
            start,
            end,
            timezone,
            title,
            description,
            attendees,
            meeting,
            confirmation,
        } => {
            assert_eq!(start, "2024-05-23T03:00:00Z");
            assert_eq!(end, "2024-05-23T04:00:00Z");
            assert_eq!(timezone, "UTC");
            assert_eq!(title, "Dentist");
            assert_eq!(description, "checkup");
            assert_eq!(attendees, vec!["alice@example.com".to_string()]);
            assert!(meeting);
            assert_eq!(confirmation, "Scheduled.");
        },
        other => panic!("wrong decision: {:?}", decision_name_response(&other)),
    }
}

#[test]
fn schedule_command_without_description_gets_the_default() {
    let input = "SCHEDULE,2024-05-23T03:00:00Z,2024-05-23T04:00:00Z,UTC,DentistENDMARKER ok";
    match process_response(input).unwrap() {
        ResponseDecision::Schedule { title, description, attendees, meeting, .. } => {
            assert_eq!(title, "Dentist");
            assert_eq!(description, "No description provided");
            assert!(attendees.is_empty());
            assert!(!meeting);
        },
        other => panic!("wrong decision: {:?}", decision_name_response(&other)),
    }
}

#[test]
fn empty_attendee_list_is_no_meeting() {
    let input = "SCHEDULE,s,e,UTC,Title,Desc,[ ],ENDMARKER ok";
    match process_response(input).unwrap() {
        ResponseDecision::Schedule { attendees, meeting, .. } => {
            assert!(attendees.is_empty());
            assert!(!meeting);
        },
        other => panic!("wrong decision: {:?}", decision_name_response(&other)),
    }
}

#[test]
fn schedule_with_too_few_fields_is_invalid() {
    let input = "SCHEDULE,start,end,ENDMARKER ok";
    assert_eq!(process_response(input).unwrap_err(), CommandError::InvalidSchedule);
}

fn decision_name_schedule(d: &ScheduleDecision) -> &'static str {
    match d {
        ScheduleDecision::Schedule { .. } => "Schedule",
        ScheduleDecision::Incomplete { .. } => "Incomplete",
        ScheduleDecision::Rejected { .. } => "Rejected",
        ScheduleDecision::Passthrough { .. } => "Passthrough",
    }
}

fn decision_name_response(d: &ResponseDecision) -> &'static str {
    match d {
        ResponseDecision::List { .. } => "List",
        ResponseDecision::Schedule { .. } => "Schedule",
        ResponseDecision::Passthrough { .. } => "Passthrough",
    }
}
