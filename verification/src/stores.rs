//! The two mutable stores of the broker. Both are association vectors with
//! distinct keys, specified as `Map`s through `kvlist`.
//!
//! * the pending session store: CSRF `state` token -> requesting client and
//!   PKCE verifier, consumed exactly once by the matching redirect callback;
//! * the token record store: client identity -> refresh token, expiry and
//!   scopes, upserted on every successful exchange.

use vstd::prelude::*;
use crate::kvlist::{
    kv_distinct, kv_lookup, kv_map, lemma_kv_distinct_push, lemma_kv_distinct_remove,
    lemma_kv_lookup_at, lemma_kv_lookup_none, lemma_kv_lookup_remove, lemma_kv_map_empty,
    lemma_kv_map_push, lemma_kv_map_remove,
};
use crate::model::ClientId;

verus! {

/// A live sign-in attempt, keyed by its CSRF `state` token, holding whom to
/// notify and which PKCE verifier to present when the provider calls back.
pub struct PendingAuthorization {
    pub state: String,
    pub client: ClientId,
    pub pkce_verifier: String,
    pub created_at: u64,
}

/// Mathematical image of a pending authorization (without its key).
pub struct PendingView {
    pub client: (Seq<char>, Seq<char>),
    pub pkce_verifier: Seq<char>,
    pub created_at: u64,
}

impl View for PendingAuthorization {
    type V = PendingView;

    open spec fn view(&self) -> PendingView {
        PendingView {
            client: self.client@,
            pkce_verifier: self.pkce_verifier@,
            created_at: self.created_at,
        }
    }
}

/// Ephemeral store of pending authorizations. Never persisted; any sign-in
/// started before a restart must be retried.
pub struct PendingStore {
    entries: Vec<PendingAuthorization>,
}

impl View for PendingStore {
    type V = Map<Seq<char>, PendingView>;

    open spec fn view(&self) -> Map<Seq<char>, PendingView> {
        kv_map(self.pairs())
    }
}

impl PendingStore {
    /// The entries as key-value pairs, in store order.
    pub closed spec fn pairs(&self) -> Seq<(Seq<char>, PendingView)> {
        self.entries@.map(|i: int, e: PendingAuthorization| (e.state@, e@))
    }

    /// At most one live entry per `state` value.
    pub open spec fn wf(&self) -> bool {
        kv_distinct(self.pairs())
    }

    pub fn new() -> (r: PendingStore)
        ensures
            r.wf(),
            r@ =~= Map::<Seq<char>, PendingView>::empty(),
    {
        let r = PendingStore { entries: Vec::new() };
        proof {
            assert(r.pairs() =~= Seq::<(Seq<char>, PendingView)>::empty());
            lemma_kv_map_empty::<Seq<char>, PendingView>();
        }
        r
    }

    pub fn len(&self) -> (r: usize)
        ensures
            r == self.pairs().len(),
    {
        self.entries.len()
    }

    fn find_index(&self, state: &String) -> (r: Option<usize>)
        ensures
            match r {
                Some(i) => i < self.pairs().len() && self.pairs()[i as int].0 == state@,
                None => kv_lookup(self.pairs(), state@) is None,
            },
    {
        let n = self.entries.len();
        let mut i: usize = 0;
        while i < n
            invariant
                n == self.pairs().len(),
                i <= n,
                forall|j: int| 0 <= j < i ==> self.pairs()[j].0 != state@,
            decreases n - i,
        {
            if self.entries[i].state == *state {
                return Some(i);
            }
            i += 1;
        }
        proof {
            lemma_kv_lookup_none(self.pairs(), state@);
        }
        None
    }

    pub fn contains(&self, state: &String) -> (r: bool)
        ensures
            r == self@.contains_key(state@),
    {
        match self.find_index(state) {
            Some(_) => {
                proof {
                    lemma_kv_lookup_none(self.pairs(), state@);
                }
                true
            },
            None => false,
        }
    }

    /// Record a new pending authorization, replacing any live entry with the
    /// same `state`.
    pub fn insert(&mut self, entry: PendingAuthorization)
        requires
            old(self).wf(),
        ensures
            final(self).wf(),
            final(self)@ =~= old(self)@.insert(entry.state@, entry@),
    {
        let ghost key = entry.state@;
        match self.find_index(&entry.state) {
            Some(i) => {
                proof {
                    lemma_kv_map_remove(self.pairs(), i as int);
                    lemma_kv_distinct_remove(self.pairs(), i as int);
                    lemma_kv_lookup_remove(self.pairs(), i as int, key);
                }
                let ghost before = self.pairs();
                let _ = self.entries.remove(i);
                proof {
                    assert(self.pairs() =~= before.remove(i as int));
                }
                let ghost mid = self.pairs();
                proof {
                    lemma_kv_map_push(mid, (key, entry@));
                    lemma_kv_distinct_push(mid, (key, entry@));
                }
                self.entries.push(entry);
                proof {
                    assert(self.pairs() =~= mid.push((key, entry@)));
                }
            },
            None => {
                let ghost before = self.pairs();
                proof {
                    lemma_kv_map_push(before, (key, entry@));
                    lemma_kv_distinct_push(before, (key, entry@));
                }
                self.entries.push(entry);
                proof {
                    assert(self.pairs() =~= before.push((key, entry@)));
                }
            },
        }
    }

    /// No two concurrently-live pending authorizations share a `state`
    /// value: in a well-formed store, distinct entries carry distinct
    /// keys. Every store operation keeps well-formedness, so this holds
    /// at all times.
    pub proof fn lemma_live_states_distinct(&self, i: int, j: int)
        requires
            self.wf(),
            0 <= i < j < self.pairs().len(),
        ensures
            self.pairs()[i].0 != self.pairs()[j].0,
    {
    }

    /// Look up and remove the pending authorization for `state`: the one
    /// consuming step of the redirect callback.
    pub fn take(&mut self, state: &String) -> (r: Option<PendingAuthorization>)
        requires
            old(self).wf(),
        ensures
            final(self).wf(),
            match r {
                Some(entry) => old(self)@.contains_key(state@) && entry.state@ == state@
                    && entry@ == old(self)@[state@] && final(self)@ =~= old(self)@.remove(state@),
                None => !old(self)@.contains_key(state@) && final(self)@ == old(self)@
                    && *final(self) == *old(self),
            },
    {
        match self.find_index(state) {
            Some(i) => {
                proof {
                    lemma_kv_lookup_at(self.pairs(), i as int);
                    lemma_kv_map_remove(self.pairs(), i as int);
                    lemma_kv_distinct_remove(self.pairs(), i as int);
                }
                let ghost before = self.pairs();
                let entry = self.entries.remove(i);
                proof {
                    assert(self.pairs() =~= before.remove(i as int));
                }
                Some(entry)
            },
            None => None,
        }
    }
}

/// A client's long-lived authorization: the refresh token, the absolute
/// expiry of the last issued access token, and the granted scopes. Access
/// tokens themselves are never stored.
pub struct TokenRecord {
    pub client: ClientId,
    pub refresh_token: String,
    pub expires_at: u64,
    pub scopes: Vec<String>,
}

/// Mathematical image of a token record (without its key).
pub struct TokenView {
    pub refresh_token: Seq<char>,
    pub expires_at: u64,
    pub scopes: Seq<Seq<char>>,
}

impl View for TokenRecord {
    type V = TokenView;

    open spec fn view(&self) -> TokenView {
        TokenView {
            refresh_token: self.refresh_token@,
            expires_at: self.expires_at,
            scopes: self.scopes@.map(|i: int, s: String| s@),
        }
    }
}

/// Persisted store of token records, keyed by client identity. Records are
/// created on first successful code exchange, updated in place on refresh,
/// and never deleted automatically.
pub struct TokenStore {
    entries: Vec<TokenRecord>,
}

impl View for TokenStore {
    type V = Map<(Seq<char>, Seq<char>), TokenView>;

    open spec fn view(&self) -> Map<(Seq<char>, Seq<char>), TokenView> {
        kv_map(self.pairs())
    }
}

impl TokenStore {
    pub closed spec fn pairs(&self) -> Seq<((Seq<char>, Seq<char>), TokenView)> {
        self.entries@.map(|i: int, e: TokenRecord| (e.client@, e@))
    }

    /// At most one record per client.
    pub open spec fn wf(&self) -> bool {
        kv_distinct(self.pairs())
    }

    pub fn new() -> (r: TokenStore)
        ensures
            r.wf(),
            r@ =~= Map::<(Seq<char>, Seq<char>), TokenView>::empty(),
    {
        let r = TokenStore { entries: Vec::new() };
        proof {
            assert(r.pairs() =~= Seq::<((Seq<char>, Seq<char>), TokenView)>::empty());
            lemma_kv_map_empty::<(Seq<char>, Seq<char>), TokenView>();
        }
        r
    }

    pub fn len(&self) -> (r: usize)
        ensures
            r == self.pairs().len(),
    {
        self.entries.len()
    }

    fn find_index(&self, client: &ClientId) -> (r: Option<usize>)
        ensures
            match r {
                Some(i) => i < self.pairs().len() && self.pairs()[i as int].0 == client@,
                None => kv_lookup(self.pairs(), client@) is None,
            },
    {
        let n = self.entries.len();
        let mut i: usize = 0;
        while i < n
            invariant
                n == self.pairs().len(),
                i <= n,
                forall|j: int| 0 <= j < i ==> self.pairs()[j].0 != client@,
            decreases n - i,
        {
            if self.entries[i].client.same_as(client) {
                return Some(i);
            }
            i += 1;
        }
        proof {
            lemma_kv_lookup_none(self.pairs(), client@);
        }
        None
    }

    pub fn contains(&self, client: &ClientId) -> (r: bool)
        ensures
            r == self@.contains_key(client@),
    {
        match self.find_index(client) {
            Some(_) => {
                proof {
                    lemma_kv_lookup_none(self.pairs(), client@);
                }
                true
            },
            None => false,
        }
    }

    /// The record for `client`, if any.
    pub fn get(&self, client: &ClientId) -> (r: Option<&TokenRecord>)
        requires
            self.wf(),
        ensures
            match r {
                Some(record) => self@.contains_key(client@) && record.client@ == client@
                    && record@ == self@[client@],
                None => !self@.contains_key(client@),
            },
    {
        match self.find_index(client) {
            Some(i) => {
                proof {
                    lemma_kv_lookup_at(self.pairs(), i as int);
                }
                Some(&self.entries[i])
            },
            None => None,
        }
    }

    /// All records, in store order: what is persisted across restarts.
    pub fn records(&self) -> (r: &Vec<TokenRecord>)
        ensures
            r@.map(|i: int, e: TokenRecord| (e.client@, e@)) == self.pairs(),
    {
        &self.entries
    }

    /// Create or replace the record for `record.client`.
    pub fn upsert(&mut self, record: TokenRecord)
        requires
            old(self).wf(),
        ensures
            final(self).wf(),
            final(self)@ =~= old(self)@.insert(record.client@, record@),
    {
        let ghost key = record.client@;
        match self.find_index(&record.client) {
            Some(i) => {
                proof {
                    lemma_kv_map_remove(self.pairs(), i as int);
                    lemma_kv_distinct_remove(self.pairs(), i as int);
                    lemma_kv_lookup_remove(self.pairs(), i as int, key);
                }
                let ghost before = self.pairs();
                let _ = self.entries.remove(i);
                proof {
                    assert(self.pairs() =~= before.remove(i as int));
                }
                let ghost mid = self.pairs();
                proof {
                    lemma_kv_map_push(mid, (key, record@));
                    lemma_kv_distinct_push(mid, (key, record@));
                }
                self.entries.push(record);
                proof {
                    assert(self.pairs() =~= mid.push((key, record@)));
                }
            },
            None => {
                let ghost before = self.pairs();
                proof {
                    lemma_kv_map_push(before, (key, record@));
                    lemma_kv_distinct_push(before, (key, record@));
                }
                self.entries.push(record);
                proof {
                    assert(self.pairs() =~= before.push((key, record@)));
                }
            },
        }
    }
}

} // verus!
