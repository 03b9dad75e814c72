//! Shared pieces of the calendar data model: request query parameters and
//! the small enums used across resources.

use vstd::prelude::*;
use crate::encoding::pair_views;

verus! {

/// Query parameters carried by a resource, sent with its request.
#[derive(Debug, PartialEq)]
pub struct QueryParams {
    pub pairs: Vec<(String, String)>,
}

impl View for QueryParams {
    type V = Seq<(Seq<char>, Seq<char>)>;

    open spec fn view(&self) -> Seq<(Seq<char>, Seq<char>)> {
        pair_views(self.pairs@)
    }
}

impl QueryParams {
    pub fn empty() -> (r: QueryParams)
        ensures
            r@ =~= Seq::<(Seq<char>, Seq<char>)>::empty(),
    {
        let r = QueryParams { pairs: Vec::new() };
        proof {
            assert(r@ =~= Seq::<(Seq<char>, Seq<char>)>::empty());
        }
        r
    }
}

impl Clone for QueryParams {
    fn clone(&self) -> (r: Self)
        ensures
            r@ == self@,
    {
        let mut pairs: Vec<(String, String)> = Vec::new();
        let mut i: usize = 0;
        while i < self.pairs.len()
            invariant
                0 <= i <= self.pairs.len(),
                pairs@.len() == i,
                forall|j: int|
                    0 <= j < i ==> #[trigger] pairs@[j].0@ == self.pairs@[j].0@ && pairs@[j].1@
                        == self.pairs@[j].1@,
            decreases self.pairs.len() - i,
        {
            let key = self.pairs[i].0.clone();
            let value = self.pairs[i].1.clone();
            pairs.push((key, value));
            i += 1;
        }
        let r = QueryParams { pairs };
        proof {
            assert(r@ =~= self@);
        }
        r
    }
}

/// A single default reminder configured on a calendar.
#[derive(Debug, Clone, PartialEq)]
pub struct DefaultReminder {
    pub method: String,
    pub minutes: u32,
}

/// Conference facilities a calendar supports.
#[derive(Debug, Clone, PartialEq)]
pub struct ConferenceProperties {
    pub allowed_conference_solution_types: Vec<String>,
}

/// A free-form key-value property bag.
#[derive(Debug, Clone, PartialEq)]
pub struct AdditionalProperties {
    pub properties: Vec<(String, String)>,
}

/// Whom the server notifies of an event change.
#[derive(Debug, Clone, Copy, PartialEq, Eq, Structural)]
pub enum SendUpdates {
    All,
    ExternalOnly,
    NoUpdates,
}

impl SendUpdates {
    /// The wire word of each variant.
    pub fn to_string(&self) -> (r: String)
        ensures
            *self is All ==> r@ == ("all")@,
            *self is ExternalOnly ==> r@ == ("externalOnly")@,
            *self is NoUpdates ==> r@ == ("none")@,
    {
        match self {
            SendUpdates::All => String::from_str("all"),
            SendUpdates::ExternalOnly => String::from_str("externalOnly"),
            SendUpdates::NoUpdates => String::from_str("none"),
        }
    }
}

/// The caller's level of access to a calendar.
#[derive(Debug, Clone, Copy, PartialEq, Eq, Structural)]
pub enum CalendarAccessRole {
    FreeBusyReader,
    Reader,
    Writer,
    Owner,
}

} // verus!
