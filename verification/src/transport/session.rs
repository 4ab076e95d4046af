//! The sessions of the SSE transport: which client streams are open, under
//! which id, and which broadcast messages each stream passes on.
//!
//! A session's sender (a channel end, or anything else the caller uses to
//! reach the stream) is kept as a value of type `S`; the table itself is
//! this library's.

use vstd::prelude::*;
use crate::json::{Json, JsonValue, json_get};
use crate::text::{str_eq, concat3};
use crate::transport::http::parsed_view;

verus! {

/// Whether a character is a lower-case hexadecimal digit.
pub open spec fn is_lower_hex(c: char) -> bool {
    ('0' <= c && c <= '9') || ('a' <= c && c <= 'f')
}

/// Whether a text is a version 4 UUID in hyphenated lower-case form:
/// 36 characters, `-` at positions 8, 13, 18 and 23, lower-case hexadecimal
/// digits elsewhere, the version digit `4` at position 14 and a variant digit
/// `8`, `9`, `a` or `b` at position 19.
pub open spec fn is_uuid_v4_text(s: Seq<char>) -> bool {
    &&& s.len() == 36
    &&& forall|i: int|
        0 <= i < 36 ==> if i == 8 || i == 13 || i == 18 || i == 23 {
            s[i] == '-'
        } else {
            is_lower_hex(#[trigger] s[i])
        }
    &&& s[14] == '4'
    &&& (s[19] == '8' || s[19] == '9' || s[19] == 'a' || s[19] == 'b')
}

/// A fresh random session id: `uuid::Uuid::new_v4()` written out with
/// `to_string`. The id is random, so nothing is promised of it but its
/// form, which the crate's `new_v4` (version and variant bits set) and its
/// hyphenated lower-case `Display` give.
#[verifier::external_body]
fn new_session_id() -> (id: String)
    ensures
        is_uuid_v4_text(id@),
{
    uuid::Uuid::new_v4().to_string()
}

/// Represents a session for SSE connections
pub struct Session<S> {
    /// Unique identifier for the session
    pub id: String,
    /// How messages reach this session's stream
    pub sender: S,
}

/// The table of open sessions: each session id with the sender of its stream.
pub struct SessionManager<S> {
    sessions: Vec<(String, S)>,
}

/// The sessions as a map from id to sender; a later entry for an id
/// overrides an earlier one.
pub open spec fn entries_map<S>(es: Seq<(String, S)>) -> Map<Seq<char>, S>
    decreases es.len(),
{
    if es.len() == 0 {
        Map::empty()
    } else {
        entries_map(es.drop_last()).insert(es.last().0@, es.last().1)
    }
}

/// Whether no id occurs twice.
pub open spec fn ids_unique<S>(es: Seq<(String, S)>) -> bool {
    forall|i: int, j: int| 0 <= i < j < es.len() ==> (#[trigger] es[i]).0@ != (#[trigger] es[j]).0@
}

/// The map of entries holds exactly their ids, each with its sender, and has
/// as many entries as there are, when no id occurs twice.
pub proof fn lemma_entries_map<S>(es: Seq<(String, S)>)
    requires
        ids_unique(es),
    ensures
        entries_map(es).dom().finite(),
        entries_map(es).len() == es.len(),
        forall|k: Seq<char>|
            #[trigger] entries_map(es).contains_key(k) <==> exists|i: int|
                0 <= i < es.len() && (#[trigger] es[i]).0@ == k,
        forall|i: int| 0 <= i < es.len() ==> #[trigger] entries_map(es)[es[i].0@] == es[i].1,
    decreases es.len(),
{
    if es.len() > 0 {
        let init = es.drop_last();
        assert(ids_unique(init));
        lemma_entries_map(init);
        let last = es.last();
        assert(!entries_map(init).contains_key(last.0@)) by {
            if entries_map(init).contains_key(last.0@) {
                let i = choose|i: int| 0 <= i < init.len() && (#[trigger] init[i]).0@ == last.0@;
                assert(es[i] == init[i]);
                assert(es[es.len() - 1] == last);
            }
        }
        assert forall|k: Seq<char>| #[trigger] entries_map(es).contains_key(k) <==> exists|i: int|
            0 <= i < es.len() && (#[trigger] es[i]).0@ == k by {
            if entries_map(es).contains_key(k) && k != last.0@ {
                let i = choose|i: int| 0 <= i < init.len() && (#[trigger] init[i]).0@ == k;
                assert(es[i] == init[i]);
            }
            if exists|i: int| 0 <= i < es.len() && (#[trigger] es[i]).0@ == k {
                let i = choose|i: int| 0 <= i < es.len() && (#[trigger] es[i]).0@ == k;
                if i < es.len() - 1 {
                    assert(es[i] == init[i]);
                }
            }
        }
        assert forall|i: int| 0 <= i < es.len() implies #[trigger] entries_map(es)[es[i].0@] == es[i].1 by {
            if i < es.len() - 1 {
                assert(es[i] == init[i]);
                assert(es[i].0@ != last.0@);
            }
        }
    }
}

/// Whether `v` lists, each once, exactly the open sessions whose streams
/// pass on the broadcast message read as `parsed` (see [`forwards_to`]).
pub open spec fn recipient_list<S>(v: Seq<String>, sessions: Map<Seq<char>, S>, parsed: Option<Json>) -> bool {
    &&& forall|id: Seq<char>|
        (exists|k: int| 0 <= k < v.len() && (#[trigger] v[k])@ == id) <==> (sessions.contains_key(id)
            && forwards_to(parsed, id))
    &&& forall|a: int, b: int| 0 <= a < b < v.len() ==> (#[trigger] v[a])@ != (#[trigger] v[b])@
}

impl<S> SessionManager<S> {
    /// No id occurs twice in the table.
    #[verifier::type_invariant]
    spec fn unique(&self) -> bool {
        ids_unique(self.sessions@)
    }

    /// The open sessions: each id with its sender.
    pub closed spec fn view_map(&self) -> Map<Seq<char>, S> {
        entries_map(self.sessions@)
    }

    /// Create a new session manager with no sessions.
    pub fn new() -> (res: Self)
        ensures
            res.view_map() == Map::<Seq<char>, S>::empty(),
    {
        SessionManager { sessions: Vec::new() }
    }

    fn index_of(&self, id: &str) -> (res: Option<usize>)
        ensures
            match res {
                Some(i) => i < self.sessions@.len() && self.sessions@[i as int].0@ == id@,
                None => forall|i: int|
                    0 <= i < self.sessions@.len() ==> (#[trigger] self.sessions@[i]).0@ != id@,
            },
    {
        let mut i: usize = 0;
        while i < self.sessions.len()
            invariant
                i <= self.sessions@.len(),
                forall|j: int| 0 <= j < i ==> (#[trigger] self.sessions@[j]).0@ != id@,
            decreases self.sessions@.len() - i,
        {
            if str_eq(self.sessions[i].0.as_str(), id) {
                return Some(i);
            }
            i = i + 1;
        }
        None
    }

    /// Register a session under `id`, replacing any session with that id.
    pub fn insert_session(&mut self, id: String, sender: S)
        ensures
            final(self).view_map() == old(self).view_map().insert(id@, sender),
    {
        proof {
            use_type_invariant(&*self);
            lemma_entries_map(self.sessions@);
        }
        let ghost old_es = self.sessions@;
        match self.index_of(id.as_str()) {
            Some(i) => {
                let mut es: Vec<(String, S)> = Vec::new();
                std::mem::swap(&mut es, &mut self.sessions);
                es.set(i, (id, sender));
                proof {
                    assert(ids_unique(es@)) by {
                        assert forall|a: int, b: int| 0 <= a < b < es@.len() implies (#[trigger] es@[a]).0@
                            != (#[trigger] es@[b]).0@ by {
                            assert(old_es[a].0@ != old_es[b].0@);
                        }
                    }
                    lemma_entries_map(es@);
                    assert(entries_map(es@) =~= entries_map(old_es).insert(id@, sender)) by {
                        assert forall|k: Seq<char>| #[trigger] entries_map(es@).contains_key(k)
                            == entries_map(old_es).insert(id@, sender).contains_key(k) by {
                            if entries_map(es@).contains_key(k) {
                                let j = choose|j: int| 0 <= j < es@.len() && (#[trigger] es@[j]).0@ == k;
                                if j != i {
                                    assert(old_es[j].0@ == k);
                                }
                            }
                            if entries_map(old_es).contains_key(k) {
                                let j = choose|j: int| 0 <= j < old_es.len() && (#[trigger] old_es[j]).0@ == k;
                                assert(es@[j].0@ == k);
                            }
                        }
                        assert forall|k: Seq<char>| #[trigger] entries_map(es@).contains_key(k) implies entries_map(es@)[k]
                            == entries_map(old_es).insert(id@, sender)[k] by {
                            let j = choose|j: int| 0 <= j < es@.len() && (#[trigger] es@[j]).0@ == k;
                            if j != i {
                                assert(old_es[j] == es@[j]);
                                assert(entries_map(old_es)[old_es[j].0@] == old_es[j].1);
                            }
                        }
                    }
                }
                self.sessions = es;
            },
            None => {
                let mut es: Vec<(String, S)> = Vec::new();
                std::mem::swap(&mut es, &mut self.sessions);
                es.push((id, sender));
                proof {
                    assert(es@.drop_last() =~= old_es);
                    assert(ids_unique(es@)) by {
                        assert forall|a: int, b: int| 0 <= a < b < es@.len() implies (#[trigger] es@[a]).0@
                            != (#[trigger] es@[b]).0@ by {
                            if b < es@.len() - 1 {
                                assert(old_es[a].0@ != old_es[b].0@);
                            } else {
                                assert(es@[a] == old_es[a]);
                            }
                        }
                    }
                }
                self.sessions = es;
            },
        }
    }

    /// Create a new session with a fresh random id (a version 4 UUID) and
    /// register it; gives back the id.
    pub fn create_session(&mut self, sender: S) -> (id: String)
        ensures
            is_uuid_v4_text(id@),
            final(self).view_map() == old(self).view_map().insert(id@, sender),
    {
        let id = new_session_id();
        let ghost v = id@;
        self.insert_session(id.clone(), sender);
        id
    }

    /// Remove a session by ID
    pub fn remove_session(&mut self, session_id: &str)
        ensures
            final(self).view_map() == old(self).view_map().remove(session_id@),
    {
        proof {
            use_type_invariant(&*self);
            lemma_entries_map(self.sessions@);
        }
        let ghost old_es = self.sessions@;
        match self.index_of(session_id) {
            Some(i) => {
                let mut es: Vec<(String, S)> = Vec::new();
                std::mem::swap(&mut es, &mut self.sessions);
                es.remove(i);
                proof {
                    assert(ids_unique(es@)) by {
                        assert forall|a: int, b: int| 0 <= a < b < es@.len() implies (#[trigger] es@[a]).0@
                            != (#[trigger] es@[b]).0@ by {
                            let oa = if a < i { a } else { a + 1 };
                            let ob = if b < i { b } else { b + 1 };
                            assert(es@[a] == old_es[oa]);
                            assert(es@[b] == old_es[ob]);
                        }
                    }
                    lemma_entries_map(es@);
                    assert(entries_map(es@) =~= entries_map(old_es).remove(session_id@)) by {
                        assert forall|k: Seq<char>| #[trigger] entries_map(es@).contains_key(k)
                            == entries_map(old_es).remove(session_id@).contains_key(k) by {
                            if entries_map(es@).contains_key(k) {
                                let j = choose|j: int| 0 <= j < es@.len() && (#[trigger] es@[j]).0@ == k;
                                let oj = if j < i { j } else { j + 1 };
                                assert(es@[j] == old_es[oj]);
                                assert(oj != i);
                            }
                            if entries_map(old_es).remove(session_id@).contains_key(k) {
                                let j = choose|j: int| 0 <= j < old_es.len() && (#[trigger] old_es[j]).0@ == k;
                                assert(j != i);
                                let nj = if j < i { j } else { j - 1 };
                                assert(es@[nj] == old_es[j]);
                            }
                        }
                        assert forall|k: Seq<char>| #[trigger] entries_map(es@).contains_key(k) implies entries_map(es@)[k]
                            == entries_map(old_es).remove(session_id@)[k] by {
                            let j = choose|j: int| 0 <= j < es@.len() && (#[trigger] es@[j]).0@ == k;
                            let oj = if j < i { j } else { j + 1 };
                            assert(es@[j] == old_es[oj]);
                            assert(entries_map(old_es)[old_es[oj].0@] == old_es[oj].1);
                        }
                    }
                }
                self.sessions = es;
            },
            None => {
                proof {
                    assert(!entries_map(old_es).contains_key(session_id@));
                    assert(entries_map(old_es).remove(session_id@) =~= entries_map(old_es));
                }
            },
        }
    }

    /// Check if a session exists
    pub fn session_exists(&self, session_id: &str) -> (res: bool)
        ensures
            res == self.view_map().contains_key(session_id@),
    {
        proof {
            use_type_invariant(self);
            lemma_entries_map(self.sessions@);
        }
        self.index_of(session_id).is_some()
    }

    /// Get the number of active sessions
    pub fn session_count(&self) -> (res: usize)
        ensures
            res == self.view_map().len(),
    {
        proof {
            use_type_invariant(self);
            lemma_entries_map(self.sessions@);
        }
        self.sessions.len()
    }

    /// The sessions a broadcast message reaches: each open session whose
    /// stream passes the message on (see [`forwards_to`]), each once.
    /// `parsed` is the message read as JSON, `None` when it is not JSON.
    pub fn broadcast_recipients(&self, parsed: Option<&JsonValue>) -> (res: Vec<String>)
        ensures
            recipient_list(res@, self.view_map(), parsed_view(parsed)),
    {
        proof {
            use_type_invariant(self);
            lemma_entries_map(self.sessions@);
        }
        let es = &self.sessions;
        let mut out: Vec<String> = Vec::new();
        let ghost mut idx: Seq<int> = seq![];
        let mut i: usize = 0;
        while i < es.len()
            invariant
                es == &self.sessions,
                ids_unique(es@),
                i <= es@.len(),
                idx.len() == out@.len(),
                forall|k: int| 0 <= k < idx.len() ==> 0 <= #[trigger] idx[k] < i,
                forall|a: int, b: int| 0 <= a < b < idx.len() ==> #[trigger] idx[a] < #[trigger] idx[b],
                forall|k: int|
                    0 <= k < out@.len() ==> (#[trigger] out@[k])@ == es@[idx[k]].0@ && forwards_to(
                        parsed_view(parsed),
                        es@[idx[k]].0@,
                    ),
                forall|j: int|
                    0 <= j < i && forwards_to(parsed_view(parsed), (#[trigger] es@[j]).0@) ==> exists|
                        k: int,
                    | 0 <= k < idx.len() && idx[k] == j,
            decreases es@.len() - i,
        {
            let ghost old_idx = idx;
            let ghost old_out = out@;
            if should_forward(parsed, es[i].0.as_str()) {
                let id = es[i].0.clone();
                assert(id@ == es@[i as int].0@);
                out.push(id);
                proof {
                    idx = idx.push(i as int);
                    assert forall|k: int| 0 <= k < out@.len() implies (#[trigger] out@[k])@
                        == es@[idx[k]].0@ && forwards_to(parsed_view(parsed), es@[idx[k]].0@) by {
                        if k < old_out.len() {
                            assert(out@[k] == old_out[k]);
                            assert(idx[k] == old_idx[k]);
                        }
                    }
                }
            }
            proof {
                assert forall|j: int|
                    0 <= j < i + 1 && forwards_to(parsed_view(parsed), (#[trigger] es@[j]).0@) implies exists|
                        k: int,
                    | 0 <= k < idx.len() && idx[k] == j by {
                    if j == i {
                        assert(idx[idx.len() - 1] == j);
                    } else {
                        let k = choose|k: int| 0 <= k < old_idx.len() && old_idx[k] == j;
                        assert(idx[k] == old_idx[k]);
                    }
                }
            }
            i = i + 1;
        }
        proof {
            assert forall|id: Seq<char>|
                (exists|k: int| 0 <= k < out@.len() && (#[trigger] out@[k])@ == id) <==> (
                self.view_map().contains_key(id) && forwards_to(parsed_view(parsed), id)) by {
                if exists|k: int| 0 <= k < out@.len() && (#[trigger] out@[k])@ == id {
                    let k = choose|k: int| 0 <= k < out@.len() && (#[trigger] out@[k])@ == id;
                    assert(es@[idx[k]].0@ == id);
                }
                if self.view_map().contains_key(id) && forwards_to(parsed_view(parsed), id) {
                    let j = choose|j: int| 0 <= j < es@.len() && (#[trigger] es@[j]).0@ == id;
                    let k = choose|k: int| 0 <= k < idx.len() && idx[k] == j;
                    assert(out@[k]@ == id);
                }
            }
            assert forall|a: int, b: int| 0 <= a < b < out@.len() implies (#[trigger] out@[a])@
                != (#[trigger] out@[b])@ by {
                assert(idx[a] < idx[b]);
                assert(es@[idx[a]].0@ != es@[idx[b]].0@);
            }
        }
        out
    }

    /// The sender of a session, or the error that sending to an unknown
    /// session fails with: `Session <id> not found`.
    pub fn sender_for(&self, session_id: &str) -> (res: Result<&S, String>)
        ensures
            self.view_map().contains_key(session_id@) ==> (res matches Ok(s) && *s
                == self.view_map()[session_id@]),
            !self.view_map().contains_key(session_id@) ==> (res matches Err(e) && e@ == "Session "@
                + session_id@ + " not found"@),
    {
        proof {
            use_type_invariant(self);
            lemma_entries_map(self.sessions@);
        }
        match self.index_of(session_id) {
            Some(i) => Ok(&self.sessions[i].1),
            None => Err(concat3("Session ", session_id, " not found")),
        }
    }
}

/// Whether a broadcast message goes to the stream of session `session_id`:
/// it does when it is not JSON, when it names no session, and when the
/// session it names (as a string) is this one.
pub open spec fn forwards_to(parsed: Option<Json>, session_id: Seq<char>) -> bool {
    match parsed {
        None => true,
        Some(v) => match json_get(v, "session"@) {
            None => true,
            Some(s) => s == Json::Str(session_id),
        },
    }
}

/// Whether a broadcast message goes to the stream of session `session_id`;
/// `parsed` is the message read as JSON, `None` when it is not JSON.
pub fn should_forward(parsed: Option<&JsonValue>, session_id: &str) -> (res: bool)
    ensures
        res == forwards_to(parsed_view(parsed), session_id@),
{
    match parsed {
        None => true,
        Some(v) => match v.get("session") {
            None => true,
            Some(s) => match s {
                JsonValue::String(t) => str_eq(t.as_str(), session_id),
                _ => false,
            },
        },
    }
}

/// What the session table gives back of what was done to it: after a
/// session is registered under `id` (by `insert_session` or
/// `create_session`), it exists and its sender is the one registered; after
/// `remove_session(id)` it no longer exists; both leave every other session
/// as it was.
pub proof fn lemma_session_table<S>(sessions: Map<Seq<char>, S>, id: Seq<char>, sender: S, other: Seq<char>)
    requires
        other != id,
    ensures
        sessions.insert(id, sender).contains_key(id),
        sessions.insert(id, sender)[id] == sender,
        !sessions.remove(id).contains_key(id),
        sessions.insert(id, sender).contains_key(other) == sessions.contains_key(other),
        sessions.remove(id).contains_key(other) == sessions.contains_key(other),
        sessions.contains_key(other) ==> sessions.insert(id, sender)[other] == sessions[other]
            && sessions.remove(id)[other] == sessions[other],
{
}

} // verus!
