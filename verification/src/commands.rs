//! Parsing the assistant's command responses. The language model answers
//! with a command line, a marker, and a human-readable reply; these
//! functions decide what the command asks for. They only decide: fetching
//! events, scheduling them and answering the user are the caller's part.

use vstd::prelude::*;
use vstd::string::{StrSliceExecFns, StringExecFns};
use crate::strutil::{
    blank_char, blank_escape, matches_at, spec_blank_char, spec_blank_escape, spec_split_char,
    spec_split_once, spec_trim, spec_trim_by, split_char, split_once_str, starts_with_str,
    trim_brackets, trim_char, trim_str,
};

verus! {

/// A command response that does not fit its announced format.
#[derive(Clone, Copy, Debug, PartialEq, Eq, Structural)]
pub enum CommandError {
    /// A `SCHEDULE_REQUEST` command with fewer than six fields.
    InvalidScheduleRequest,
    /// An `INCOMPLETE_REQUEST` command with fewer than two fields.
    InvalidIncompleteRequest,
    /// A `REJECTED_REQUEST` command with fewer than two fields.
    InvalidRejectedRequest,
    /// A `LIST` command with fewer than four fields.
    InvalidList,
    /// A `SCHEDULE` command with fewer than five fields.
    InvalidSchedule,
}

/// What a guest's scheduling response asks for.
#[derive(Debug)]
pub enum ScheduleDecision {
    /// Create the described event (as a meeting) and answer with the
    /// confirmation, extended with the meeting link if one comes back.
    Schedule { start: String, end: String, title: String, description: String, confirmation: String },
    /// Ask the guest for the missing information.
    Incomplete { reply: String },
    /// Decline the request, with the reason.
    Rejected { reply: String },
    /// No command: pass the response through unchanged.
    Passthrough { reply: String },
}

/// Mathematical image of a `ScheduleDecision`.
pub enum ScheduleDecisionV {
    Schedule {
        start: Seq<char>,
        end: Seq<char>,
        title: Seq<char>,
        description: Seq<char>,
        confirmation: Seq<char>,
    },
    Incomplete { reply: Seq<char> },
    Rejected { reply: Seq<char> },
    Passthrough { reply: Seq<char> },
}

impl View for ScheduleDecision {
    type V = ScheduleDecisionV;

    open spec fn view(&self) -> ScheduleDecisionV {
        match self {
            ScheduleDecision::Schedule { start, end, title, description, confirmation } => (
            ScheduleDecisionV::Schedule {
                start: start@,
                end: end@,
                title: title@,
                description: description@,
                confirmation: confirmation@,
            }),
            ScheduleDecision::Incomplete { reply } => (ScheduleDecisionV::Incomplete {
                reply: reply@,
            }),
            ScheduleDecision::Rejected { reply } => (ScheduleDecisionV::Rejected { reply: reply@ }),
            ScheduleDecision::Passthrough { reply } => (ScheduleDecisionV::Passthrough {
                reply: reply@,
            }),
        }
    }
}

/// What an owner's calendar response asks for.
#[derive(Debug)]
pub enum ResponseDecision {
    /// List the events between the two instants and summarize them.
    List { start: String, end: String, timezone: String },
    /// Create the described event and answer with the confirmation.
    Schedule {
        start: String,
        end: String,
        timezone: String,
        title: String,
        description: String,
        attendees: Vec<String>,
        meeting: bool,
        confirmation: String,
    },
    /// No command: pass the response through unchanged.
    Passthrough { reply: String },
}

/// Mathematical image of a `ResponseDecision`.
pub enum ResponseDecisionV {
    List { start: Seq<char>, end: Seq<char>, timezone: Seq<char> },
    Schedule {
        start: Seq<char>,
        end: Seq<char>,
        timezone: Seq<char>,
        title: Seq<char>,
        description: Seq<char>,
        attendees: Seq<Seq<char>>,
        meeting: bool,
        confirmation: Seq<char>,
    },
    Passthrough { reply: Seq<char> },
}

impl View for ResponseDecision {
    type V = ResponseDecisionV;

    open spec fn view(&self) -> ResponseDecisionV {
        match self {
            ResponseDecision::List { start, end, timezone } => (ResponseDecisionV::List {
                start: start@,
                end: end@,
                timezone: timezone@,
            }),
            ResponseDecision::Schedule {
                start,
                end,
                timezone,
                title,
                description,
                attendees,
                meeting,
                confirmation,
            } => (ResponseDecisionV::Schedule {
                start: start@,
                end: end@,
                timezone: timezone@,
                title: title@,
                description: description@,
                attendees: attendees@.map_values(|a: String| a@),
                meeting: *meeting,
                confirmation: confirmation@,
            }),
            ResponseDecision::Passthrough { reply } => (ResponseDecisionV::Passthrough {
                reply: reply@,
            }),
        }
    }
}

/// A response cleaned for command parsing: trimmed, unquoted, and with the
/// given two escape pairs each collapsed into a space.
pub open spec fn spec_clean_escaped(s: Seq<char>) -> Seq<char> {
    spec_blank_escape(
        spec_blank_escape(spec_trim_by(spec_trim(s), |c: char| c == '"'), 'n'),
        'r',
    )
}

/// A response cleaned for command parsing: trimmed, unquoted, and with
/// newline and carriage-return characters replaced by spaces.
pub open spec fn spec_clean_newlines(s: Seq<char>) -> Seq<char> {
    spec_blank_char(spec_blank_char(spec_trim_by(spec_trim(s), |c: char| c == '"'), '\n'), '\r')
}

/// The decision taken for a guest's scheduling response.
pub open spec fn spec_schedule_decision(s: Seq<char>) -> Result<ScheduleDecisionV, CommandError> {
    match spec_split_once(spec_clean_escaped(s), ("ENDMARKER")@) {
        None => Ok(ScheduleDecisionV::Passthrough { reply: s }),
        Some(halves) => {
            let command = spec_trim(halves.0);
            let confirmation = spec_trim(halves.1);
            if matches_at(command, ("SCHEDULE_REQUEST")@, 0) {
                let parts = spec_split_char(command, ',');
                if parts.len() < 6 {
                    Err(CommandError::InvalidScheduleRequest)
                } else {
                    Ok(
                        ScheduleDecisionV::Schedule {
                            start: spec_trim(parts[1]),
                            end: spec_trim(parts[2]),
                            title: spec_trim(parts[3]),
                            description: spec_trim(parts[4]),
                            confirmation,
                        },
                    )
                }
            } else if matches_at(command, ("INCOMPLETE_REQUEST")@, 0) {
                let parts = spec_split_char(command, ',');
                if parts.len() < 2 {
                    Err(CommandError::InvalidIncompleteRequest)
                } else {
                    Ok(
                        ScheduleDecisionV::Incomplete {
                            reply: (
                            "Incomplete request. Please provide the following missing information: ")@
                                + spec_trim(parts[1]),
                        },
                    )
                }
            } else if matches_at(command, ("REJECTED_REQUEST")@, 0) {
                let parts = spec_split_char(command, ',');
                if parts.len() < 2 {
                    Err(CommandError::InvalidRejectedRequest)
                } else {
                    Ok(
                        ScheduleDecisionV::Rejected {
                            reply: ("Request rejected. Reason: ")@ + spec_trim(parts[1]),
                        },
                    )
                }
            } else {
                Ok(ScheduleDecisionV::Passthrough { reply: s })
            }
        },
    }
}

/// The attendee emails inside a bracketed, comma-separated list: each
/// entry trimmed, empty entries dropped.
pub open spec fn spec_emails(parts: Seq<Seq<char>>) -> Seq<Seq<char>>
    decreases parts.len(),
{
    if parts.len() == 0 {
        Seq::empty()
    } else {
        let rest = spec_emails(parts.skip(1));
        if spec_trim(parts[0]).len() > 0 {
            seq![spec_trim(parts[0])] + rest
        } else {
            rest
        }
    }
}

/// The attendees named by the raw seventh field of a `SCHEDULE` command.
pub open spec fn spec_attendees(raw: Seq<char>) -> Seq<Seq<char>> {
    spec_emails(
        spec_split_char(spec_trim_by(raw, |c: char| c == '[' || c == ']'), ','),
    )
}

/// The decision taken for an owner's calendar response.
pub open spec fn spec_response_decision(s: Seq<char>) -> Result<ResponseDecisionV, CommandError> {
    match spec_split_once(spec_clean_newlines(s), ("ENDMARKER")@) {
        None => Ok(ResponseDecisionV::Passthrough { reply: s }),
        Some(halves) => {
            let command = spec_trim(halves.0);
            let confirmation = spec_trim(halves.1);
            if matches_at(command, ("LIST")@, 0) {
                let parts = spec_split_char(command, ',');
                if parts.len() < 4 {
                    Err(CommandError::InvalidList)
                } else {
                    Ok(
                        ResponseDecisionV::List {
                            start: spec_trim(parts[1]),
                            end: spec_trim(parts[2]),
                            timezone: spec_trim(parts[3]),
                        },
                    )
                }
            } else if matches_at(command, ("SCHEDULE")@, 0) {
                let parts = spec_split_char(command, ',');
                if parts.len() < 5 {
                    Err(CommandError::InvalidSchedule)
                } else {
                    let attendees = if parts.len() >= 7 {
                        spec_attendees(parts[6])
                    } else {
                        Seq::empty()
                    };
                    Ok(
                        ResponseDecisionV::Schedule {
                            start: spec_trim(parts[1]),
                            end: spec_trim(parts[2]),
                            timezone: spec_trim(parts[3]),
                            title: spec_trim(parts[4]),
                            description: if parts.len() >= 6 {
                                spec_trim(parts[5])
                            } else {
                                ("No description provided")@
                            },
                            attendees,
                            meeting: attendees.len() > 0,
                            confirmation,
                        },
                    )
                }
            } else {
                Ok(ResponseDecisionV::Passthrough { reply: s })
            }
        },
    }
}

/// The emails of one raw attendee field.
fn collect_emails(raw: &str) -> (r: Vec<String>)
    ensures
        r@.map_values(|a: String| a@) =~~= spec_attendees(raw@),
{
    let inner = trim_brackets(raw);
    let parts = split_char(inner.as_str(), ',');
    let ghost part_views = parts@.map_values(|p: String| p@);
    let mut out: Vec<String> = Vec::new();
    let mut i: usize = 0;
    proof {
        assert(part_views.skip(0) =~= part_views);
        assert(out@.map_values(|a: String| a@) + spec_emails(part_views) =~~= spec_emails(
            part_views,
        ));
    }
    while i < parts.len()
        invariant
            0 <= i <= parts.len(),
            part_views == parts@.map_values(|p: String| p@),
            spec_emails(part_views) =~~= out@.map_values(|a: String| a@) + spec_emails(
                part_views.skip(i as int),
            ),
        decreases parts.len() - i,
    {
        let ghost old_out = out@;
        let ghost tail = part_views.skip(i as int);
        let t = trim_str(parts[i].as_str());
        proof {
            assert(tail[0] == part_views[i as int]);
            assert(part_views[i as int] == parts@[i as int]@);
            assert(tail.skip(1) =~= part_views.skip(i + 1));
        }
        if t.as_str().unicode_len() > 0 {
            out.push(t);
            proof {
                assert(out@.map_values(|a: String| a@) =~~= old_out.map_values(
                    |a: String| a@,
                ).push(spec_trim(tail[0])));
                assert(spec_emails(tail) =~~= seq![spec_trim(tail[0])] + spec_emails(
                    part_views.skip(i + 1),
                ));
                assert(old_out.map_values(|a: String| a@) + spec_emails(tail)
                    =~~= out@.map_values(|a: String| a@) + spec_emails(part_views.skip(i + 1)));
            }
        } else {
            proof {
                assert(spec_emails(tail) =~~= spec_emails(part_views.skip(i + 1)));
            }
        }
        i += 1;
    }
    proof {
        assert(part_views.skip(parts@.len() as int) =~= Seq::<Seq<char>>::empty());
        assert(spec_emails(Seq::<Seq<char>>::empty()) =~~= Seq::<Seq<char>>::empty());
        assert(out@.map_values(|a: String| a@) + Seq::<Seq<char>>::empty() =~~= out@.map_values(
            |a: String| a@,
        ));
    }
    out
}

/// Decide what a guest's scheduling response asks for: a well-formed
/// `SCHEDULE_REQUEST`, `INCOMPLETE_REQUEST` or `REJECTED_REQUEST` command
/// before the end marker becomes the matching decision, a malformed one is
/// an error, and anything else passes through unchanged.
pub fn process_schedule_request(response: &str) -> (r: Result<ScheduleDecision, CommandError>)
    ensures
        ({
            let d = spec_schedule_decision(response@);
            match r {
                Ok(decision) => d == Ok::<ScheduleDecisionV, CommandError>(decision@),
                Err(e) => d == Err::<ScheduleDecisionV, CommandError>(e),
            }
        }),
{
    let trimmed = trim_str(response);
    let unquoted = trim_char(trimmed.as_str(), '"');
    let no_newline = blank_escape(unquoted.as_str(), 'n');
    let cleaned = blank_escape(no_newline.as_str(), 'r');
    match split_once_str(cleaned.as_str(), "ENDMARKER") {
        None => Ok(ScheduleDecision::Passthrough { reply: String::from_str(response) }),
        Some((command_raw, confirmation_raw)) => {
            let command = trim_str(command_raw.as_str());
            let confirmation = trim_str(confirmation_raw.as_str());
            if starts_with_str(command.as_str(), "SCHEDULE_REQUEST") {
                let parts = split_char(command.as_str(), ',');
                if parts.len() < 6 {
                    Err(CommandError::InvalidScheduleRequest)
                } else {
                    proof {
                        assert(parts@.map_values(|p: String| p@)[1] == parts@[1]@);
                        assert(parts@.map_values(|p: String| p@)[2] == parts@[2]@);
                        assert(parts@.map_values(|p: String| p@)[3] == parts@[3]@);
                        assert(parts@.map_values(|p: String| p@)[4] == parts@[4]@);
                    }
                    Ok(
                        ScheduleDecision::Schedule {
                            start: trim_str(parts[1].as_str()),
                            end: trim_str(parts[2].as_str()),
                            title: trim_str(parts[3].as_str()),
                            description: trim_str(parts[4].as_str()),
                            confirmation,
                        },
                    )
                }
            } else if starts_with_str(command.as_str(), "INCOMPLETE_REQUEST") {
                let parts = split_char(command.as_str(), ',');
                if parts.len() < 2 {
                    Err(CommandError::InvalidIncompleteRequest)
                } else {
                    proof {
                        assert(parts@.map_values(|p: String| p@)[1] == parts@[1]@);
                    }
                    let mut reply = String::from_str(
                        "Incomplete request. Please provide the following missing information: ",
                    );
                    let missing = trim_str(parts[1].as_str());
                    reply.append(missing.as_str());
                    Ok(ScheduleDecision::Incomplete { reply })
                }
            } else if starts_with_str(command.as_str(), "REJECTED_REQUEST") {
                let parts = split_char(command.as_str(), ',');
                if parts.len() < 2 {
                    Err(CommandError::InvalidRejectedRequest)
                } else {
                    proof {
                        assert(parts@.map_values(|p: String| p@)[1] == parts@[1]@);
                    }
                    let mut reply = String::from_str("Request rejected. Reason: ");
                    let reason = trim_str(parts[1].as_str());
                    reply.append(reason.as_str());
                    Ok(ScheduleDecision::Rejected { reply })
                }
            } else {
                Ok(ScheduleDecision::Passthrough { reply: String::from_str(response) })
            }
        },
    }
}

/// How an incoming chat message is handled, by its sender: the calendar
/// owner's messages drive the owner's calendar commands, anyone else's
/// drive the guest scheduling commands.
#[derive(Clone, Copy, Debug, PartialEq, Eq, Structural)]
pub enum ChatSender {
    /// No owner is known yet: this first sender becomes the owner and is
    /// served as the owner.
    FirstContact,
    /// The known owner.
    Owner,
    /// Anyone else.
    Guest,
}

/// Classify a message's sender against the stored owner id, as the chat
/// handler does before choosing a prompt and a parser.
pub fn classify_sender(stored_owner: Option<u64>, sender: u64) -> (r: ChatSender)
    ensures
        stored_owner is None ==> r == ChatSender::FirstContact,
        (match stored_owner {
            Some(owner) => r == (if owner == sender {
                ChatSender::Owner
            } else {
                ChatSender::Guest
            }),
            None => true,
        }),
{
    match stored_owner {
        None => ChatSender::FirstContact,
        Some(owner) => {
            if owner == sender {
                ChatSender::Owner
            } else {
                ChatSender::Guest
            }
        },
    }
}

/// Decide what an owner's calendar response asks for: a well-formed `LIST`
/// or `SCHEDULE` command before the end marker becomes the matching
/// decision, a malformed one is an error, and anything else passes through
/// unchanged.
pub fn process_response(response: &str) -> (r: Result<ResponseDecision, CommandError>)
    ensures
        ({
            let d = spec_response_decision(response@);
            match r {
                Ok(decision) => d == Ok::<ResponseDecisionV, CommandError>(decision@),
                Err(e) => d == Err::<ResponseDecisionV, CommandError>(e),
            }
        }),
{
    let trimmed = trim_str(response);
    let unquoted = trim_char(trimmed.as_str(), '"');
    let no_newline = blank_char(unquoted.as_str(), '\n');
    let cleaned = blank_char(no_newline.as_str(), '\r');
    match split_once_str(cleaned.as_str(), "ENDMARKER") {
        None => Ok(ResponseDecision::Passthrough { reply: String::from_str(response) }),
        Some((command_raw, confirmation_raw)) => {
            let command = trim_str(command_raw.as_str());
            let confirmation = trim_str(confirmation_raw.as_str());
            if starts_with_str(command.as_str(), "LIST") {
                let parts = split_char(command.as_str(), ',');
                if parts.len() < 4 {
                    Err(CommandError::InvalidList)
                } else {
                    proof {
                        assert(parts@.map_values(|p: String| p@)[1] == parts@[1]@);
                        assert(parts@.map_values(|p: String| p@)[2] == parts@[2]@);
                        assert(parts@.map_values(|p: String| p@)[3] == parts@[3]@);
                    }
                    Ok(
                        ResponseDecision::List {
                            start: trim_str(parts[1].as_str()),
                            end: trim_str(parts[2].as_str()),
                            timezone: trim_str(parts[3].as_str()),
                        },
                    )
                }
            } else if starts_with_str(command.as_str(), "SCHEDULE") {
                let parts = split_char(command.as_str(), ',');
                if parts.len() < 5 {
                    Err(CommandError::InvalidSchedule)
                } else {
                    proof {
                        assert(parts@.map_values(|p: String| p@)[1] == parts@[1]@);
                        assert(parts@.map_values(|p: String| p@)[2] == parts@[2]@);
                        assert(parts@.map_values(|p: String| p@)[3] == parts@[3]@);
                        assert(parts@.map_values(|p: String| p@)[4] == parts@[4]@);
                    }
                    let attendees: Vec<String> = if parts.len() >= 7 {
                        proof {
                            assert(parts@.map_values(|p: String| p@)[6] == parts@[6]@);
                        }
                        collect_emails(parts[6].as_str())
                    } else {
                        let none: Vec<String> = Vec::new();
                        proof {
                            assert(none@.map_values(|a: String| a@) =~~= Seq::<Seq<char>>::empty());
                        }
                        none
                    };
                    let meeting = attendees.len() > 0;
                    let description = if parts.len() >= 6 {
                        proof {
                            assert(parts@.map_values(|p: String| p@)[5] == parts@[5]@);
                        }
                        trim_str(parts[5].as_str())
                    } else {
                        String::from_str("No description provided")
                    };
                    Ok(
                        ResponseDecision::Schedule {
                            start: trim_str(parts[1].as_str()),
                            end: trim_str(parts[2].as_str()),
                            timezone: trim_str(parts[3].as_str()),
                            title: trim_str(parts[4].as_str()),
                            description,
                            attendees,
                            meeting,
                            confirmation,
                        },
                    )
                }
            } else {
                Ok(ResponseDecision::Passthrough { reply: String::from_str(response) })
            }
        },
    }
}

} // verus!
