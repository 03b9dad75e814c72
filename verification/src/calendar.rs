//! The calendar resource itself.

use vstd::prelude::*;
use vstd::string::StringExecFns;
use crate::gcal::{ConferenceProperties, QueryParams};

verus! {

/// The kind marker of a calendar resource.
pub fn default_kind() -> (r: Option<String>)
    ensures
        r matches Some(k) && k@ == ("calendar#calendar")@,
{
    Some(String::from_str("calendar#calendar"))
}

/// A single calendar.
#[derive(Debug, Clone, PartialEq)]
pub struct Calendar {
    pub kind: Option<String>,
    pub id: String,
    pub etag: Option<String>,
    pub summary: Option<String>,
    pub description: Option<String>,
    pub location: String,
    pub time_zone: String,
    pub conference_properties: ConferenceProperties,
}

impl Calendar {
    /// The request path of this calendar.
    pub fn path(&self, action: Option<String>) -> (r: String)
        ensures
            r@ == ("calendars/")@ + self.id@,
    {
        let _ = action;
        let mut r = String::from_str("calendars/");
        r.append(self.id.as_str());
        r
    }

    /// A calendar request carries no query parameters.
    pub fn query(&self) -> (r: QueryParams)
        ensures
            r@ =~= Seq::<(Seq<char>, Seq<char>)>::empty(),
    {
        QueryParams::empty()
    }
}

} // verus!
