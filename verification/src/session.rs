//! The session store and relationship maintenance.
//!
//! The manager holds the authoritative set of session records, keyed by
//! name. The embedding program reads records from disk into the store and
//! writes them back out; every rule about what the store may contain, and
//! every mutation of it, lives here.

use vstd::prelude::*;
use vstd::pervasive::VecAdditionalExecFns;
use vstd::seq_lib::group_to_multiset_ensures;
use vstd::string::StringExecFns;
use crate::config::Config;
use crate::error::Error;
use crate::models::keeps_other;
use crate::models::lemma_filter_push;
use crate::models::ActivityEventV;
use crate::models::ActivityType;
use crate::models::AgentType;
use crate::models::AgentTypeV;
use crate::models::Session;
use crate::models::SessionMetrics;
use crate::models::SessionStatus;
use crate::models::SessionV;
use crate::models::WorkboxInfo;
use crate::text;

verus! {

/// Most recently active first.
pub open spec fn sorted_by_last_active_desc(s: Seq<SessionV>) -> bool {
    forall|i: int, j: int| 0 <= i < j < s.len() ==> s[i].last_active >= s[j].last_active
}

/// The records carrying this status.
pub open spec fn with_status(status: SessionStatus) -> spec_fn(SessionV) -> bool {
    |s: SessionV| s.status == status
}

/// The records carrying this agent type.
pub open spec fn with_agent_type(t: AgentTypeV) -> spec_fn(SessionV) -> bool {
    |s: SessionV| s.agent_type == t
}

/// Filtering a sequence and then counting occurrences is counting
/// occurrences and then filtering.
pub proof fn lemma_filter_to_multiset<A>(s: Seq<A>, pred: spec_fn(A) -> bool)
    ensures
        s.filter(pred).to_multiset() == s.to_multiset().filter(pred),
    decreases s.len(),
{
    broadcast use group_to_multiset_ensures;
    broadcast use vstd::multiset::group_multiset_axioms;

    reveal(Seq::filter);
    if s.len() == 0 {
        assert(s.filter(pred) =~= s);
        assert forall|v: A| true implies #[trigger] s.to_multiset().count(v) == 0 by {
            if s.to_multiset().count(v) > 0 {
                assert(s.contains(v));
            }
        }
        assert(s.filter(pred).to_multiset() =~= s.to_multiset().filter(pred));
    } else {
        let dl = s.drop_last();
        let x = s.last();
        lemma_filter_to_multiset(dl, pred);
        assert(dl.push(x) =~= s);
        assert(s.to_multiset() =~= dl.to_multiset().insert(x));
        if pred(x) {
            assert(s.filter(pred) == dl.filter(pred).push(x));
            assert(s.filter(pred).to_multiset() =~= dl.filter(pred).to_multiset().insert(x));
        }
        assert(s.filter(pred).to_multiset() =~= s.to_multiset().filter(pred));
    }
}

/// No two records share a name.
pub open spec fn unique_names(s: Seq<SessionV>) -> bool {
    forall|i: int, j: int| 0 <= i < j < s.len() ==> s[i].name != s[j].name
}

/// Some record carries this name.
pub open spec fn has_name(s: Seq<SessionV>, name: Seq<char>) -> bool {
    exists|i: int| 0 <= i < s.len() && #[trigger] s[i].name == name
}

/// A session name the store accepts: non-empty and free of path
/// separators.
pub open spec fn valid_name(name: Seq<char>) -> bool {
    name.len() > 0 && !name.contains('/') && !name.contains('\\')
}

/// The position of the record with this name; meaningful only when
/// [`has_name`] holds and names are unique.
pub open spec fn index_of_name(s: Seq<SessionV>, name: Seq<char>) -> int {
    choose|i: int| 0 <= i < s.len() && #[trigger] s[i].name == name
}

/// The record stored under this name.
pub open spec fn record_of(s: Seq<SessionV>, name: Seq<char>) -> SessionV {
    s[index_of_name(s, name)]
}

/// The store after an unconditional overwrite of the record under
/// `rec.name`: the existing record is replaced, or the new one appended.
pub open spec fn spec_save(s: Seq<SessionV>, rec: SessionV) -> Seq<SessionV> {
    if has_name(s, rec.name) {
        s.update(index_of_name(s, rec.name), rec)
    } else {
        s.push(rec)
    }
}

/// With unique names, any position holding the name is the position
/// [`index_of_name`] denotes.
pub proof fn lemma_index_unique(s: Seq<SessionV>, name: Seq<char>, i: int)
    requires
        unique_names(s),
        0 <= i < s.len(),
        s[i].name == name,
    ensures
        has_name(s, name),
        index_of_name(s, name) == i,
{
    assert(has_name(s, name));
    let j = index_of_name(s, name);
    assert(0 <= j < s.len() && s[j].name == name);
    if i < j {
        assert(s[i].name != s[j].name);
    } else if j < i {
        assert(s[j].name != s[i].name);
    }
}

/// Overwriting a record keeps names unique.
pub proof fn lemma_save_wf(s: Seq<SessionV>, rec: SessionV)
    requires
        unique_names(s),
    ensures
        unique_names(spec_save(s, rec)),
        has_name(spec_save(s, rec), rec.name),
        record_of(spec_save(s, rec), rec.name) == rec,
        forall|n: Seq<char>|
            n != rec.name ==> (#[trigger] has_name(spec_save(s, rec), n) <==> has_name(s, n)),
        forall|n: Seq<char>|
            n != rec.name && has_name(s, n) ==> #[trigger] record_of(spec_save(s, rec), n)
                == record_of(s, n),
{
    let post = spec_save(s, rec);
    if has_name(s, rec.name) {
        let i = index_of_name(s, rec.name);
        assert(0 <= i < s.len() && s[i].name == rec.name);
        assert forall|a: int, b: int| 0 <= a < b < post.len() implies post[a].name
            != post[b].name by {
            assert(s[a].name != s[b].name);
        }
    } else {
        assert forall|a: int, b: int| 0 <= a < b < post.len() implies post[a].name
            != post[b].name by {
            if b == post.len() - 1 {
                assert(s[a].name != rec.name);
            } else {
                assert(s[a].name != s[b].name);
            }
        }
    }
    let k = if has_name(s, rec.name) {
        index_of_name(s, rec.name)
    } else {
        s.len() as int
    };
    assert(post[k] == rec);
    lemma_index_unique(post, rec.name, k);
    assert forall|n: Seq<char>| n != rec.name implies (#[trigger] has_name(post, n)
        <==> has_name(s, n)) by {
        if has_name(s, n) {
            let i = index_of_name(s, n);
            assert(0 <= i < s.len() && s[i].name == n);
            assert(i != k || rec.name == n);
            assert(post[i].name == n);
        }
        if has_name(post, n) {
            let i = index_of_name(post, n);
            assert(0 <= i < post.len() && post[i].name == n);
            assert(i != k);
            assert(s[i].name == n);
            assert(has_name(s, n));
        }
    }
    assert forall|n: Seq<char>| n != rec.name && has_name(s, n) implies #[trigger] record_of(
        post,
        n,
    ) == record_of(s, n) by {
        let i = index_of_name(s, n);
        assert(0 <= i < s.len() && s[i].name == n);
        assert(i != k);
        assert(post[i].name == n);
        lemma_index_unique(post, n, i);
    }
}

broadcast use {group_to_multiset_ensures, vstd::multiset::group_multiset_axioms};

/// Copy a list of session records.
fn clone_sessions(v: &Vec<Session>) -> (r: Vec<Session>)
    ensures
        r.deep_view() == v.deep_view(),
{
    let mut r: Vec<Session> = Vec::new();
    let mut i: usize = 0;
    let n = v.len();
    while i < n
        invariant
            i <= n,
            n == v@.len(),
            r.deep_view() =~= v.deep_view().subrange(0, i as int),
        decreases n - i,
    {
        r.push(v[i].clone());
        proof {
            assert(v.deep_view().subrange(0, i + 1 as int) =~= v.deep_view().subrange(
                0,
                i as int,
            ).push(v.deep_view()[i as int]));
        }
        i = i + 1;
    }
    proof {
        assert(r.deep_view() =~= v.deep_view());
    }
    r
}

/// Order session records most recently active first, by repeatedly moving
/// the earliest record with the greatest `last_active` to the output.
fn sort_sessions_desc(v: Vec<Session>) -> (r: Vec<Session>)
    ensures
        r.deep_view().to_multiset() == v.deep_view().to_multiset(),
        sorted_by_last_active_desc(r.deep_view()),
{
    let ghost all0 = v.deep_view();
    let mut src = v;
    let mut out: Vec<Session> = Vec::new();
    proof {
        assert(out.deep_view() =~= Seq::<SessionV>::empty());
        assert(out.deep_view().to_multiset().add(src.deep_view().to_multiset())
            =~= all0.to_multiset());
    }
    while src.len() > 0
        invariant
            out.deep_view().to_multiset().add(src.deep_view().to_multiset())
                =~= all0.to_multiset(),
            sorted_by_last_active_desc(out.deep_view()),
            forall|a: int, b: int|
                0 <= a < out.deep_view().len() && 0 <= b < src.deep_view().len()
                    ==> #[trigger] out.deep_view()[a].last_active
                        >= #[trigger] src.deep_view()[b].last_active,
        decreases src.len(),
    {
        let mut m: usize = 0;
        let mut k: usize = 1;
        while k < src.len()
            invariant
                0 < src.len(),
                m < k,
                k <= src.len(),
                forall|t: int|
                    0 <= t < k ==> src.deep_view()[m as int].last_active
                        >= #[trigger] src.deep_view()[t].last_active,
            decreases src.len() - k,
        {
            if src[k].last_active > src[m].last_active {
                m = k;
            }
            k = k + 1;
        }
        let ghost src0 = src.deep_view();
        let ghost out0 = out.deep_view();
        let x = src.remove(m);
        out.push(x);
        proof {
            assert(src.deep_view() =~= src0.remove(m as int));
            assert(out.deep_view() =~= out0.push(src0[m as int]));
            assert(src0.contains(src0[m as int]));
            assert(src0.to_multiset().count(src0[m as int]) > 0);
            assert(src.deep_view().to_multiset() =~= src0.to_multiset().remove(
                src0[m as int],
            ));
            assert(out.deep_view().to_multiset() =~= out0.to_multiset().insert(
                src0[m as int],
            ));
            assert(out.deep_view().to_multiset().add(src.deep_view().to_multiset())
                =~= all0.to_multiset());
        }
    }
    proof {
        assert forall|v2: SessionV| true implies #[trigger] src.deep_view().to_multiset().count(
            v2,
        ) == 0 by {
            if src.deep_view().to_multiset().count(v2) > 0 {
                assert(src.deep_view().contains(v2));
            }
        }
        assert(out.deep_view().to_multiset() =~= all0.to_multiset());
    }
    out
}

/// The session store: authoritative CRUD over session records, plus
/// relationship maintenance and lifecycle transitions.
pub struct SessionManager {
    /// The configuration the manager was created with.
    pub config: Config,
    sessions: Vec<Session>,
}

impl View for SessionManager {
    type V = Seq<SessionV>;

    closed spec fn view(&self) -> Seq<SessionV> {
        self.sessions.deep_view()
    }
}

impl SessionManager {
    /// The store invariant: session names are unique.
    pub open spec fn wf(&self) -> bool {
        unique_names(self@)
    }

    /// Create a manager with an empty store.
    pub fn new(config: Config) -> (r: Self)
        ensures
            r.wf(),
            r@.len() == 0,
    {
        SessionManager { config, sessions: Vec::new() }
    }

    /// Index of the first record with this name.
    fn find_index(&self, name: &str) -> (r: Option<usize>)
        ensures
            match r {
                Some(i) => i < self@.len() && self@[i as int].name == name@ && forall|j: int|
                    0 <= j < i ==> self@[j].name != name@,
                None => !has_name(self@, name@),
            },
    {
        let n = self.sessions.len();
        let mut i: usize = 0;
        while i < n
            invariant
                i <= n,
                n == self@.len(),
                forall|j: int| 0 <= j < i ==> self@[j].name != name@,
            decreases n - i,
        {
            if text::str_eq(self.sessions[i].name.as_str(), name) {
                return Some(i);
            }
            i = i + 1;
        }
        None
    }

    /// The records, in store order.
    pub fn records(&self) -> (r: &Vec<Session>)
        ensures
            r.deep_view() == self@,
    {
        &self.sessions
    }

    /// The number of records in the store.
    pub fn store_len(&self) -> (r: usize)
        ensures
            r == self@.len(),
    {
        self.sessions.len()
    }

    /// Check whether a record exists under this name.
    pub fn session_exists(&self, name: &str) -> (r: bool)
        ensures
            r == has_name(self@, name@),
    {
        self.find_index(name).is_some()
    }

    /// Check a session name: it must be non-empty and free of path
    /// separators.
    pub fn validate_session_name(&self, name: &str) -> (r: Result<(), Error>)
        ensures
            r is Ok <==> valid_name(name@),
            r matches Err(e) ==> e matches Error::InvalidSessionName(n, _) && n@ == name@,
    {
        if name.unicode_len() == 0 {
            return Err(Error::InvalidSessionName(
                name.to_owned(),
                "Session name cannot be empty".to_owned(),
            ));
        }
        if text::str_contains_char(name, '/') || text::str_contains_char(name, '\\') {
            return Err(Error::InvalidSessionName(
                name.to_owned(),
                "Session name cannot contain slashes".to_owned(),
            ));
        }
        Ok(())
    }

    /// Load the record under this name; `SessionNotFound` when there is
    /// none.
    pub fn load_session(&self, name: &str) -> (r: Result<Session, Error>)
        requires
            self.wf(),
        ensures
            r is Ok <==> has_name(self@, name@),
            r matches Ok(s) ==> s@ == record_of(self@, name@),
            r matches Err(e) ==> e matches Error::SessionNotFound(n) && n@ == name@,
    {
        match self.find_index(name) {
            Some(i) => {
                proof {
                    lemma_index_unique(self@, name@, i as int);
                }
                Ok(self.sessions[i].clone())
            },
            None => Err(Error::SessionNotFound(name.to_owned())),
        }
    }

    /// All records, most recently active first.
    pub fn list_sessions(&self) -> (r: Vec<Session>)
        ensures
            r.deep_view().to_multiset() == self@.to_multiset(),
            sorted_by_last_active_desc(r.deep_view()),
    {
        let clones = clone_sessions(&self.sessions);
        sort_sessions_desc(clones)
    }

    /// The records carrying this status, most recently active first.
    pub fn list_sessions_by_status(&self, status: SessionStatus) -> (r: Vec<Session>)
        ensures
            r.deep_view().to_multiset() == self@.to_multiset().filter(with_status(status)),
            sorted_by_last_active_desc(r.deep_view()),
    {
        let all = self.list_sessions();
        let n = all.len();
        let mut r: Vec<Session> = Vec::new();
        let mut i: usize = 0;
        while i < n
            invariant
                i <= n,
                n == all@.len(),
                r.deep_view() =~= all.deep_view().subrange(0, i as int).filter(
                    with_status(status),
                ),
                sorted_by_last_active_desc(all.deep_view()),
                sorted_by_last_active_desc(r.deep_view()),
                forall|a: int, b: int|
                    0 <= a < r.deep_view().len() && i <= b < all.deep_view().len()
                        ==> #[trigger] r.deep_view()[a].last_active
                            >= #[trigger] all.deep_view()[b].last_active,
            decreases n - i,
        {
            let ghost prefix = all.deep_view().subrange(0, i as int);
            let ghost r0 = r.deep_view();
            if all[i].status == status {
                r.push(all[i].clone());
                proof {
                    assert(r.deep_view() =~= r0.push(all.deep_view()[i as int]));
                    assert forall|a: int, b: int| 0 <= a < b < r.deep_view().len() implies r.deep_view()[a].last_active >= r.deep_view()[b].last_active by {
                        if b == r.deep_view().len() - 1 {
                            assert(r.deep_view()[a] == r0[a]);
                        }
                    }
                }
            }
            proof {
                assert(all.deep_view().subrange(0, i + 1 as int) =~= prefix.push(
                    all.deep_view()[i as int],
                ));
                lemma_filter_push(prefix, with_status(status), all.deep_view()[i as int]);
            }
            i = i + 1;
        }
        proof {
            assert(all.deep_view().subrange(0, n as int) =~= all.deep_view());
            lemma_filter_to_multiset(all.deep_view(), with_status(status));
        }
        r
    }

    /// The records carrying this agent type, most recently active first.
    pub fn list_sessions_by_type(&self, agent_type: AgentType) -> (r: Vec<Session>)
        ensures
            r.deep_view().to_multiset() == self@.to_multiset().filter(
                with_agent_type(agent_type@),
            ),
            sorted_by_last_active_desc(r.deep_view()),
    {
        let all = self.list_sessions();
        let n = all.len();
        let mut r: Vec<Session> = Vec::new();
        let mut i: usize = 0;
        while i < n
            invariant
                i <= n,
                n == all@.len(),
                r.deep_view() =~= all.deep_view().subrange(0, i as int).filter(
                    with_agent_type(agent_type@),
                ),
                sorted_by_last_active_desc(all.deep_view()),
                sorted_by_last_active_desc(r.deep_view()),
                forall|a: int, b: int|
                    0 <= a < r.deep_view().len() && i <= b < all.deep_view().len()
                        ==> #[trigger] r.deep_view()[a].last_active
                            >= #[trigger] all.deep_view()[b].last_active,
            decreases n - i,
        {
            let ghost prefix = all.deep_view().subrange(0, i as int);
            let ghost r0 = r.deep_view();
            if all[i].agent_type == agent_type {
                r.push(all[i].clone());
                proof {
                    assert(r.deep_view() =~= r0.push(all.deep_view()[i as int]));
                    assert forall|a: int, b: int| 0 <= a < b < r.deep_view().len() implies r.deep_view()[a].last_active >= r.deep_view()[b].last_active by {
                        if b == r.deep_view().len() - 1 {
                            assert(r.deep_view()[a] == r0[a]);
                        }
                    }
                }
            }
            proof {
                assert(all.deep_view().subrange(0, i + 1 as int) =~= prefix.push(
                    all.deep_view()[i as int],
                ));
                lemma_filter_push(prefix, with_agent_type(agent_type@), all.deep_view()[i as int]);
            }
            i = i + 1;
        }
        proof {
            assert(all.deep_view().subrange(0, n as int) =~= all.deep_view());
            lemma_filter_to_multiset(all.deep_view(), with_agent_type(agent_type@));
        }
        r
    }

    /// Store this record under its name, replacing any record already
    /// there: an unconditional overwrite, last writer wins.
    pub fn save_session(&mut self, session: &Session)
        requires
            old(self).wf(),
        ensures
            final(self).wf(),
            final(self)@ == spec_save(old(self)@, session@),
    {
        proof {
            lemma_save_wf(old(self)@, session@);
        }
        match self.find_index(session.name.as_str()) {
            Some(i) => {
                proof {
                    lemma_index_unique(self@, session@.name, i as int);
                }
                self.sessions.set(i, session.clone());
                proof {
                    assert(self@ =~= old(self)@.update(i as int, session@));
                }
            },
            None => {
                self.sessions.push(session.clone());
                proof {
                    assert(self@ =~= old(self)@.push(session@));
                }
            },
        }
    }

    /// Store this record under its name; an alias for [`Self::save_session`].
    pub fn update_session(&mut self, session: &Session)
        requires
            old(self).wf(),
        ensures
            final(self).wf(),
            final(self)@ == spec_save(old(self)@, session@),
    {
        self.save_session(session)
    }

    /// Remove the record under this name; `SessionNotFound` when there is
    /// none.
    pub fn delete_session(&mut self, name: &str) -> (r: Result<(), Error>)
        requires
            old(self).wf(),
        ensures
            final(self).wf(),
            r is Ok <==> has_name(old(self)@, name@),
            r is Ok ==> final(self)@ == old(self)@.remove(index_of_name(old(self)@, name@)),
            r matches Err(e) ==> final(self)@ == old(self)@ && (e matches Error::SessionNotFound(n)
                && n@ == name@),
    {
        match self.find_index(name) {
            Some(i) => {
                proof {
                    lemma_index_unique(self@, name@, i as int);
                }
                self.sessions.remove(i);
                proof {
                    assert(self@ =~= old(self)@.remove(i as int));
                    assert forall|a: int, b: int| 0 <= a < b < self@.len() implies self@[a].name
                        != self@[b].name by {
                        if a < i as int {
                            if b < i as int {
                                assert(self@[a] == old(self)@[a] && self@[b] == old(self)@[b]);
                            } else {
                                assert(self@[a] == old(self)@[a] && self@[b] == old(self)@[b + 1]);
                            }
                        } else {
                            assert(self@[a] == old(self)@[a + 1] && self@[b] == old(self)@[b + 1]);
                        }
                    }
                }
                Ok(())
            },
            None => Err(Error::SessionNotFound(name.to_owned())),
        }
    }
}


/// A record after an activity entry is appended at time `t`.
pub open spec fn with_activity(s: SessionV, t: i64, ev: ActivityType, details: Seq<char>) -> SessionV {
    SessionV {
        last_active: t,
        activity_log: s.activity_log.push(
            ActivityEventV { timestamp: t, event_type: ev, details: details },
        ),
        ..s
    }
}

/// The activity text recorded on the parent when a child is added.
pub open spec fn child_added_details(child: Seq<char>) -> Seq<char> {
    "Added child session '"@ + child + "'"@
}

/// The activity text recorded on the child when a parent is linked.
pub open spec fn parent_linked_details(parent: Seq<char>) -> Seq<char> {
    "Linked to parent session '"@ + parent + "'"@
}

/// The activity text recorded when a session is created.
pub open spec fn created_details(name: Seq<char>) -> Seq<char> {
    "Created session '"@ + name + "'"@
}

/// The activity text recorded on a clone.
pub open spec fn cloned_details(name: Seq<char>) -> Seq<char> {
    "Cloned from session '"@ + name + "'"@
}

/// The activity text recorded when a session is closed.
pub open spec fn closed_details(status: SessionStatus) -> Seq<char> {
    "Session closed with status: "@ + crate::models::status_label(status)
}

/// A parent record after a child is linked: the child name is added to
/// `children` (once), and a `ChildAdded` entry is appended.
pub open spec fn linked_parent(p: SessionV, child: Seq<char>, t: i64) -> SessionV {
    with_activity(
        SessionV {
            children: if p.children.contains(child) {
                p.children
            } else {
                p.children.push(child)
            },
            ..p
        },
        t,
        ActivityType::ChildAdded,
        child_added_details(child),
    )
}

/// A child record after a parent is linked: `parent` is set and a
/// `ParentLinked` entry is appended.
pub open spec fn linked_child(c: SessionV, parent: Seq<char>, t: i64) -> SessionV {
    with_activity(
        SessionV { parent: Some(parent), ..c },
        t,
        ActivityType::ParentLinked,
        parent_linked_details(parent),
    )
}

/// A parent record after a child is unlinked: every occurrence of the child
/// name leaves `children`.
pub open spec fn unlinked_parent(p: SessionV, child: Seq<char>) -> SessionV {
    SessionV { children: p.children.filter(keeps_other(child)), ..p }
}

/// A child record after its parent is unlinked.
pub open spec fn unlinked_child(c: SessionV) -> SessionV {
    SessionV { parent: None, ..c }
}

/// The names in `store`.
pub open spec fn present_in(store: Seq<SessionV>) -> spec_fn(Seq<char>) -> bool {
    |n: Seq<char>| has_name(store, n)
}

/// The record each name denotes in `store`.
pub open spec fn record_getter(store: Seq<SessionV>) -> spec_fn(Seq<char>) -> SessionV {
    |n: Seq<char>| record_of(store, n)
}

/// The records the given names denote, in order, names without a record
/// silently skipped.
pub open spec fn resolved_children(store: Seq<SessionV>, names: Seq<Seq<char>>) -> Seq<SessionV> {
    names.filter(present_in(store)).map_values(record_getter(store))
}

/// The pre-order traversal of the tree rooted at `name`, following each
/// record's stored child list and skipping names without a record. `fuel`
/// bounds the depth; a store with `n` records and an acyclic parent/child
/// relation is fully traversed by fuel `n`.
pub open spec fn tree_seq(store: Seq<SessionV>, name: Seq<char>, fuel: nat) -> Seq<SessionV>
    decreases fuel, 0int,
{
    if fuel == 0 || !has_name(store, name) {
        Seq::empty()
    } else {
        seq![record_of(store, name)] + forest_seq(
            store,
            record_of(store, name).children,
            (fuel - 1) as nat,
        )
    }
}

/// The concatenated pre-order traversals rooted at each of `names`.
pub open spec fn forest_seq(store: Seq<SessionV>, names: Seq<Seq<char>>, fuel: nat) -> Seq<SessionV>
    decreases fuel, names.len() + 1,
{
    if names.len() == 0 {
        Seq::empty()
    } else {
        tree_seq(store, names.first(), fuel) + forest_seq(store, names.drop_first(), fuel)
    }
}

/// Traversing one more root appends its traversal.
pub proof fn lemma_forest_snoc(
    store: Seq<SessionV>,
    names: Seq<Seq<char>>,
    c: Seq<char>,
    fuel: nat,
)
    ensures
        forest_seq(store, names.push(c), fuel) == forest_seq(store, names, fuel) + tree_seq(
            store,
            c,
            fuel,
        ),
    decreases names.len(),
{
    if names.len() == 0 {
        assert(names.push(c).first() == c);
        assert(names.push(c).drop_first() =~= Seq::<Seq<char>>::empty());
        assert(forest_seq(store, names.push(c), fuel) == tree_seq(store, c, fuel) + forest_seq(
            store,
            names.push(c).drop_first(),
            fuel,
        ));
        assert(forest_seq(store, names.push(c).drop_first(), fuel) == Seq::<SessionV>::empty());
        assert(forest_seq(store, names, fuel) == Seq::<SessionV>::empty());
        assert(forest_seq(store, names.push(c), fuel) =~= forest_seq(store, names, fuel)
            + tree_seq(store, c, fuel));
    } else {
        assert(names.push(c).first() == names.first());
        assert(names.push(c).drop_first() =~= names.drop_first().push(c));
        lemma_forest_snoc(store, names.drop_first(), c, fuel);
        assert(forest_seq(store, names.push(c), fuel) == tree_seq(store, names.first(), fuel)
            + forest_seq(store, names.drop_first().push(c), fuel));
        assert(forest_seq(store, names.drop_first().push(c), fuel) == forest_seq(
            store,
            names.drop_first(),
            fuel,
        ) + tree_seq(store, c, fuel));
        assert(forest_seq(store, names, fuel) == tree_seq(store, names.first(), fuel)
            + forest_seq(store, names.drop_first(), fuel));
        assert(forest_seq(store, names.push(c), fuel) =~= forest_seq(store, names, fuel)
            + tree_seq(store, c, fuel));
    }
}

impl SessionManager {
    /// Link a child session to a parent: the parent's child list gains the
    /// child (once), the child's parent is set, one activity entry is
    /// appended to each, and both records are stored. Loading failures
    /// leave the store untouched.
    pub fn link_parent_child(&mut self, parent_name: &str, child_name: &str) -> (r: Result<
        (),
        Error,
    >)
        requires
            old(self).wf(),
        ensures
            final(self).wf(),
            r is Ok <==> has_name(old(self)@, parent_name@) && has_name(old(self)@, child_name@),
            !has_name(old(self)@, parent_name@) ==> final(self)@ == old(self)@ && (
            r matches Err(e) && (e matches Error::SessionNotFound(n) && n@ == parent_name@)),
            has_name(old(self)@, parent_name@) && !has_name(old(self)@, child_name@)
                ==> final(self)@ == old(self)@ && (r matches Err(e) && (
            e matches Error::SessionNotFound(n) && n@ == child_name@)),
            r is Ok ==> exists|t1: i64, t2: i64|
                #![auto]
                final(self)@ == spec_save(
                    spec_save(
                        old(self)@,
                        linked_parent(record_of(old(self)@, parent_name@), child_name@, t1),
                    ),
                    linked_child(record_of(old(self)@, child_name@), parent_name@, t2),
                ),
    {
        let mut parent = match self.load_session(parent_name) {
            Ok(p) => p,
            Err(e) => {
                return Err(e);
            },
        };
        let mut child = match self.load_session(child_name) {
            Ok(c) => c,
            Err(e) => {
                return Err(e);
            },
        };
        parent.add_child(child_name.to_owned());
        let mut d1 = "Added child session '".to_owned();
        d1.append(child_name);
        d1.append("'");
        proof {
            assert(d1@ =~= child_added_details(child_name@));
        }
        parent.log_activity(ActivityType::ChildAdded, d1);
        child.parent = Some(parent_name.to_owned());
        let mut d2 = "Linked to parent session '".to_owned();
        d2.append(parent_name);
        d2.append("'");
        proof {
            assert(d2@ =~= parent_linked_details(parent_name@));
        }
        child.log_activity(ActivityType::ParentLinked, d2);
        proof {
            assert(parent@ == linked_parent(
                record_of(old(self)@, parent_name@),
                child_name@,
                parent@.last_active,
            ));
            assert(child@ == linked_child(
                record_of(old(self)@, child_name@),
                parent_name@,
                child@.last_active,
            ));
        }
        let ghost t1 = parent@.last_active;
        let ghost t2 = child@.last_active;
        self.save_session(&parent);
        self.save_session(&child);
        proof {
            assert(final(self)@ == spec_save(
                spec_save(
                    old(self)@,
                    linked_parent(record_of(old(self)@, parent_name@), child_name@, t1),
                ),
                linked_child(record_of(old(self)@, child_name@), parent_name@, t2),
            ));
        }
        Ok(())
    }

    /// Unlink a child session from its parent: the child leaves the
    /// parent's child list, the child's parent is cleared, and both records
    /// are stored. A child with no parent is left as it is.
    pub fn unlink_parent_child(&mut self, child_name: &str) -> (r: Result<(), Error>)
        requires
            old(self).wf(),
        ensures
            final(self).wf(),
            !has_name(old(self)@, child_name@) ==> final(self)@ == old(self)@ && (
            r matches Err(e) && (e matches Error::SessionNotFound(n) && n@ == child_name@)),
            has_name(old(self)@, child_name@) && record_of(old(self)@, child_name@).parent is None
                ==> final(self)@ == old(self)@ && r is Ok,
            (has_name(old(self)@, child_name@) && record_of(old(self)@, child_name@).parent
                is Some) ==> ({
                let pn = record_of(old(self)@, child_name@).parent->Some_0;
                &&& !has_name(old(self)@, pn) ==> final(self)@ == old(self)@ && (
                r matches Err(e) && (e matches Error::SessionNotFound(n) && n@ == pn))
                &&& has_name(old(self)@, pn) ==> r is Ok && final(self)@ == spec_save(
                    spec_save(old(self)@, unlinked_parent(record_of(old(self)@, pn), child_name@)),
                    unlinked_child(record_of(old(self)@, child_name@)),
                )
            }),
    {
        let mut child = match self.load_session(child_name) {
            Ok(c) => c,
            Err(e) => {
                return Err(e);
            },
        };
        let parent_name_opt = match &child.parent {
            Some(p) => Some(p.clone()),
            None => None,
        };
        if let Some(pn) = parent_name_opt {
            let mut parent = match self.load_session(pn.as_str()) {
                Ok(p) => p,
                Err(e) => {
                    return Err(e);
                },
            };
            parent.remove_child(child_name);
            child.parent = None;
            proof {
                assert(parent@ == unlinked_parent(record_of(old(self)@, pn@), child_name@));
                assert(child@ == unlinked_child(record_of(old(self)@, child_name@)));
            }
            self.save_session(&parent);
            self.save_session(&child);
            Ok(())
        } else {
            Ok(())
        }
    }

    /// The records of this session's children, in the stored order, child
    /// names without a record silently skipped.
    pub fn get_children(&self, name: &str) -> (r: Result<Vec<Session>, Error>)
        requires
            self.wf(),
        ensures
            r is Ok <==> has_name(self@, name@),
            r matches Ok(v) ==> v.deep_view() == resolved_children(
                self@,
                record_of(self@, name@).children,
            ),
            r matches Err(e) ==> e matches Error::SessionNotFound(n) && n@ == name@,
    {
        let parent = match self.load_session(name) {
            Ok(p) => p,
            Err(e) => {
                return Err(e);
            },
        };
        let n = parent.children.len();
        let mut out: Vec<Session> = Vec::new();
        let mut k: usize = 0;
        while k < n
            invariant
                self.wf(),
                k <= n,
                n == parent.children@.len(),
                parent@ == record_of(self@, name@),
                out.deep_view() =~= resolved_children(
                    self@,
                    parent@.children.subrange(0, k as int),
                ),
            decreases n - k,
        {
            let ghost prefix = parent@.children.subrange(0, k as int);
            let ghost nm = parent@.children[k as int];
            match self.load_session(parent.children[k].as_str()) {
                Ok(c) => {
                    out.push(c);
                },
                Err(_) => {},
            }
            proof {
                assert(parent@.children.subrange(0, k + 1 as int) =~= prefix.push(nm));
                lemma_filter_push(prefix, present_in(self@), nm);
                if has_name(self@, nm) {
                    assert((prefix.filter(present_in(self@)).push(nm)).map_values(
                        record_getter(self@),
                    ) =~= prefix.filter(present_in(self@)).map_values(record_getter(self@)).push(
                        record_of(self@, nm),
                    ));
                }
                assert(out.deep_view() =~= resolved_children(
                    self@,
                    parent@.children.subrange(0, k + 1 as int),
                ));
            }
            k = k + 1;
        }
        proof {
            assert(parent@.children.subrange(0, n as int) =~= parent@.children);
        }
        Ok(out)
    }

    /// The record of this session's parent, or nothing for a root session.
    /// A dangling parent reference is an error here, unlike in traversal.
    pub fn get_parent(&self, name: &str) -> (r: Result<Option<Session>, Error>)
        requires
            self.wf(),
        ensures
            !has_name(self@, name@) ==> (r matches Err(e) && (e matches Error::SessionNotFound(n)
                && n@ == name@)),
            has_name(self@, name@) && record_of(self@, name@).parent is None ==> (
            r matches Ok(p) && p is None),
            (has_name(self@, name@) && record_of(self@, name@).parent is Some) ==> ({
                let pn = record_of(self@, name@).parent->Some_0;
                &&& !has_name(self@, pn) ==> (r matches Err(e) && (
                e matches Error::SessionNotFound(n) && n@ == pn))
                &&& has_name(self@, pn) ==> (r matches Ok(p) && (p matches Some(ps) && ps@
                    == record_of(self@, pn)))
            }),
    {
        let child = match self.load_session(name) {
            Ok(c) => c,
            Err(e) => {
                return Err(e);
            },
        };
        match &child.parent {
            Some(pn) => match self.load_session(pn.as_str()) {
                Ok(p) => Ok(Some(p)),
                Err(e) => Err(e),
            },
            None => Ok(None),
        }
    }

    /// Collect the pre-order traversal rooted at `name`, depth-bounded by
    /// `fuel`.
    fn collect_tree(&self, name: &str, fuel: usize) -> (r: Vec<Session>)
        requires
            self.wf(),
        ensures
            r.deep_view() == tree_seq(self@, name@, fuel as nat),
        decreases fuel,
    {
        let mut out: Vec<Session> = Vec::new();
        if fuel == 0 {
            proof {
                assert(out.deep_view() =~= tree_seq(self@, name@, fuel as nat));
            }
            return out;
        }
        let root = match self.load_session(name) {
            Ok(s) => s,
            Err(_) => {
                proof {
                    assert(out.deep_view() =~= tree_seq(self@, name@, fuel as nat));
                }
                return out;
            },
        };
        out.push(root.clone());
        proof {
            assert(out.deep_view() =~= seq![record_of(self@, name@)] + forest_seq(
                self@,
                root@.children.subrange(0, 0),
                (fuel - 1) as nat,
            ));
        }
        let n = root.children.len();
        let mut k: usize = 0;
        while k < n
            invariant
                self.wf(),
                k <= n,
                n == root.children@.len(),
                root@ == record_of(self@, name@),
                fuel >= 1,
                out.deep_view() =~= seq![record_of(self@, name@)] + forest_seq(
                    self@,
                    root@.children.subrange(0, k as int),
                    (fuel - 1) as nat,
                ),
            decreases n - k,
        {
            let ghost out0 = out.deep_view();
            let mut sub = self.collect_tree(root.children[k].as_str(), fuel - 1);
            out.append(&mut sub);
            proof {
                assert(out.deep_view() =~= out0 + tree_seq(
                    self@,
                    root@.children[k as int],
                    (fuel - 1) as nat,
                ));
                assert(root@.children.subrange(0, k + 1 as int) =~= root@.children.subrange(
                    0,
                    k as int,
                ).push(root@.children[k as int]));
                lemma_forest_snoc(
                    self@,
                    root@.children.subrange(0, k as int),
                    root@.children[k as int],
                    (fuel - 1) as nat,
                );
                assert(out.deep_view() =~= seq![record_of(self@, name@)] + forest_seq(
                    self@,
                    root@.children.subrange(0, k + 1 as int),
                    (fuel - 1) as nat,
                ));
            }
            k = k + 1;
        }
        proof {
            assert(root@.children.subrange(0, n as int) =~= root@.children);
            assert(out.deep_view() =~= tree_seq(self@, name@, fuel as nat));
        }
        out
    }

    /// The session and all its descendants, in pre-order, following each
    /// record's stored child list and skipping names without a record.
    pub fn get_session_tree(&self, name: &str) -> (r: Result<Vec<Session>, Error>)
        requires
            self.wf(),
        ensures
            r is Ok <==> has_name(self@, name@),
            r matches Ok(v) ==> v.deep_view() == tree_seq(self@, name@, self@.len() as nat),
            r matches Err(e) ==> e matches Error::SessionNotFound(n) && n@ == name@,
    {
        if !self.session_exists(name) {
            return Err(Error::SessionNotFound(name.to_owned()));
        }
        Ok(self.collect_tree(name, self.sessions.len()))
    }

    /// Close a session: set its status, append a `StatusChanged` entry, and
    /// store the record. Removal of the backing workbox is the caller's
    /// step, taken before this one so that a failed removal leaves the
    /// record untouched.
    pub fn close_session(&mut self, name: &str, status: SessionStatus) -> (r: Result<(), Error>)
        requires
            old(self).wf(),
        ensures
            final(self).wf(),
            r is Ok <==> has_name(old(self)@, name@),
            r matches Err(e) ==> final(self)@ == old(self)@ && (e matches Error::SessionNotFound(n)
                && n@ == name@),
            r is Ok ==> final(self)@ == spec_save(
                old(self)@,
                with_activity(
                    (SessionV { status: status, ..record_of(old(self)@, name@) }),
                    record_of(final(self)@, name@).last_active,
                    ActivityType::StatusChanged,
                    closed_details(status),
                ),
            ),
    {
        let mut session = match self.load_session(name) {
            Ok(s) => s,
            Err(e) => {
                return Err(e);
            },
        };
        session.status = status;
        let mut d = "Session closed with status: ".to_owned();
        d.append(status.as_str());
        proof {
            assert(d@ =~= closed_details(status));
        }
        session.log_activity(ActivityType::StatusChanged, d);
        let ghost t = session@.last_active;
        self.save_session(&session);
        proof {
            lemma_save_wf(old(self)@, session@);
            assert(record_of(final(self)@, name@).last_active == t);
            assert(final(self)@ == spec_save(
                old(self)@,
                with_activity(
                    (SessionV { status: status, ..record_of(old(self)@, name@) }),
                    t,
                    ActivityType::StatusChanged,
                    closed_details(status),
                ),
            ));
        }
        Ok(())
    }
}


impl SessionManager {
    /// Create a new session over a freshly provisioned workbox: the name is
    /// checked, a colliding name is refused, and the new record is stored
    /// with one `SessionCreated` entry. The caller provisions the workbox
    /// first, so a failed provisioning step leaves no orphan record.
    pub fn create_session(
        &mut self,
        name: &str,
        agent_type: AgentType,
        workbox: &WorkboxInfo,
        repo_name: &str,
    ) -> (r: Result<Session, Error>)
        requires
            old(self).wf(),
        ensures
            final(self).wf(),
            r is Ok <==> valid_name(name@) && !has_name(old(self)@, name@),
            !valid_name(name@) ==> final(self)@ == old(self)@ && (r matches Err(e) && (
            e matches Error::InvalidSessionName(n, _) && n@ == name@)),
            valid_name(name@) && has_name(old(self)@, name@) ==> final(self)@ == old(self)@ && (
            r matches Err(e) && (e matches Error::SessionAlreadyExists(n) && n@ == name@)),
            r matches Ok(s) ==> ({
                &&& s@ == (SessionV {
                    id: s@.id,
                    name: name@,
                    created: s@.created,
                    last_active: s@.last_active,
                    agent_type: agent_type@,
                    status: SessionStatus::Active,
                    workbox_name: workbox@.name,
                    workbox_path: workbox@.path,
                    branch: workbox@.branch,
                    base_branch: workbox@.base_branch,
                    repo_name: repo_name@,
                    vcs_type: workbox@.vcs_type,
                    parent: None,
                    children: Seq::empty(),
                    context_dir: ".hp/contexts/"@ + repo_name@ + "/"@ + name@,
                    context_snapshots: Seq::empty(),
                    pr_number: None,
                    pr_url: None,
                    pr_status: None,
                    unresolved_comments: Seq::empty(),
                    activity_log: seq![
                        ActivityEventV {
                            timestamp: s@.last_active,
                            event_type: ActivityType::SessionCreated,
                            details: created_details(name@),
                        },
                    ],
                    metrics: SessionMetrics {
                        total_time_secs: 0,
                        commits: 0,
                        lines_added: 0,
                        lines_removed: 0,
                        files_changed: 0,
                        ai_interactions: 0,
                        tokens_used: 0,
                    },
                    tags: Seq::empty(),
                    notes: Seq::empty(),
                    locked_by: None,
                })
                &&& s@.id.len() == 36
                &&& final(self)@ == spec_save(old(self)@, s@)
            }),
    {
        match self.validate_session_name(name) {
            Ok(_) => {},
            Err(e) => {
                return Err(e);
            },
        }
        if self.session_exists(name) {
            return Err(Error::SessionAlreadyExists(name.to_owned()));
        }
        let mut session = Session::new(
            name.to_owned(),
            agent_type,
            workbox.name.clone(),
            workbox.path.clone(),
            workbox.branch.clone(),
            workbox.base_branch.clone(),
            repo_name.to_owned(),
            workbox.vcs_type.clone(),
        );
        let mut d = "Created session '".to_owned();
        d.append(name);
        d.append("'");
        proof {
            assert(d@ =~= created_details(name@));
        }
        session.log_activity(ActivityType::SessionCreated, d);
        proof {
            assert(session@.activity_log =~= seq![
                ActivityEventV {
                    timestamp: session@.last_active,
                    event_type: ActivityType::SessionCreated,
                    details: created_details(name@),
                },
            ]);
        }
        self.save_session(&session);
        Ok(session)
    }

    /// Clone a session for parallel work: most fields are copied, while the
    /// identifier, timestamps, activity log and relationships start afresh,
    /// and the workbox fields come from the newly provisioned workbox. The
    /// clone starts parent-less with no children.
    pub fn clone_session(
        &mut self,
        name: &str,
        new_name: &str,
        new_agent_type: Option<AgentType>,
        workbox: &WorkboxInfo,
    ) -> (r: Result<Session, Error>)
        requires
            old(self).wf(),
        ensures
            final(self).wf(),
            r is Ok <==> has_name(old(self)@, name@) && !has_name(old(self)@, new_name@),
            !has_name(old(self)@, name@) ==> final(self)@ == old(self)@ && (r matches Err(e) && (
            e matches Error::SessionNotFound(n) && n@ == name@)),
            has_name(old(self)@, name@) && has_name(old(self)@, new_name@) ==> final(self)@ == old(
                self,
            )@ && (r matches Err(e) && (e matches Error::SessionAlreadyExists(n) && n@
                == new_name@)),
            r matches Ok(s) ==> ({
                let orig = record_of(old(self)@, name@);
                &&& s@ == (SessionV {
                    id: s@.id,
                    name: new_name@,
                    created: s@.created,
                    last_active: s@.last_active,
                    agent_type: match new_agent_type {
                        Some(t) => t@,
                        None => orig.agent_type,
                    },
                    workbox_name: workbox@.name,
                    workbox_path: workbox@.path,
                    branch: workbox@.branch,
                    parent: None,
                    children: Seq::empty(),
                    context_dir: ".hp/contexts/"@ + orig.repo_name + "/"@ + new_name@,
                    activity_log: seq![
                        ActivityEventV {
                            timestamp: s@.last_active,
                            event_type: ActivityType::SessionCreated,
                            details: cloned_details(name@),
                        },
                    ],
                    ..orig
                })
                &&& s@.id.len() == 36
                &&& final(self)@ == spec_save(old(self)@, s@)
            }),
    {
        let original = match self.load_session(name) {
            Ok(s) => s,
            Err(e) => {
                return Err(e);
            },
        };
        if self.session_exists(new_name) {
            return Err(Error::SessionAlreadyExists(new_name.to_owned()));
        }
        let mut session = original;
        session.id = crate::external::fresh_uuid();
        session.name = new_name.to_owned();
        session.workbox_name = workbox.name.clone();
        session.workbox_path = workbox.path.clone();
        session.branch = workbox.branch.clone();
        session.parent = None;
        session.children = Vec::new();
        let now = crate::external::now_millis();
        session.created = now;
        session.last_active = now;
        session.activity_log = Vec::new();
        let mut cd = ".hp/contexts/".to_owned();
        cd.append(session.repo_name.as_str());
        cd.append("/");
        cd.append(new_name);
        proof {
            assert(cd@ =~= ".hp/contexts/"@ + record_of(old(self)@, name@).repo_name + "/"@
                + new_name@);
        }
        session.context_dir = cd;
        match new_agent_type {
            Some(t) => {
                session.agent_type = t;
            },
            None => {},
        }
        let mut d = "Cloned from session '".to_owned();
        d.append(name);
        d.append("'");
        proof {
            assert(d@ =~= cloned_details(name@));
        }
        session.log_activity(ActivityType::SessionCreated, d);
        proof {
            assert(session@.children =~= Seq::<Seq<char>>::empty());
            assert(session@.activity_log =~= seq![
                ActivityEventV {
                    timestamp: session@.last_active,
                    event_type: ActivityType::SessionCreated,
                    details: cloned_details(name@),
                },
            ]);
        }
        self.save_session(&session);
        Ok(session)
    }
}

/// Tree symmetry: after a link succeeds between distinct sessions, the
/// child names its parent and the parent\'s child list contains the child.
pub proof fn lemma_link_tree_symmetry(
    pre: Seq<SessionV>,
    post: Seq<SessionV>,
    parent_name: Seq<char>,
    child_name: Seq<char>,
    t1: i64,
    t2: i64,
)
    requires
        unique_names(pre),
        parent_name != child_name,
        has_name(pre, parent_name),
        has_name(pre, child_name),
        post == spec_save(
            spec_save(pre, linked_parent(record_of(pre, parent_name), child_name, t1)),
            linked_child(record_of(pre, child_name), parent_name, t2),
        ),
    ensures
        unique_names(post),
        has_name(post, parent_name),
        has_name(post, child_name),
        record_of(post, child_name).parent == Some(parent_name),
        record_of(post, parent_name).children.contains(child_name),
{
    let p1 = linked_parent(record_of(pre, parent_name), child_name, t1);
    assert(record_of(pre, parent_name).name == parent_name);
    assert(p1.name == parent_name);
    lemma_save_wf(pre, p1);
    let mid = spec_save(pre, p1);
    let c1 = linked_child(record_of(pre, child_name), parent_name, t2);
    assert(record_of(pre, child_name).name == child_name);
    assert(c1.name == child_name);
    lemma_save_wf(mid, c1);
    assert(record_of(post, child_name) == c1);
    assert(has_name(mid, parent_name) && record_of(mid, parent_name) == p1);
    assert(record_of(post, parent_name) == p1);
    if !record_of(pre, parent_name).children.contains(child_name) {
        assert(p1.children[p1.children.len() - 1] == child_name);
    }
}

/// After an unlink between distinct sessions, neither side of the
/// relationship remains.
pub proof fn lemma_unlink_tree_symmetry(
    pre: Seq<SessionV>,
    post: Seq<SessionV>,
    parent_name: Seq<char>,
    child_name: Seq<char>,
)
    requires
        unique_names(pre),
        parent_name != child_name,
        has_name(pre, parent_name),
        has_name(pre, child_name),
        post == spec_save(
            spec_save(pre, unlinked_parent(record_of(pre, parent_name), child_name)),
            unlinked_child(record_of(pre, child_name)),
        ),
    ensures
        unique_names(post),
        record_of(post, child_name).parent is None,
        !record_of(post, parent_name).children.contains(child_name),
{
    let p1 = unlinked_parent(record_of(pre, parent_name), child_name);
    assert(p1.name == parent_name);
    lemma_save_wf(pre, p1);
    let mid = spec_save(pre, p1);
    let c1 = unlinked_child(record_of(pre, child_name));
    assert(c1.name == child_name);
    lemma_save_wf(mid, c1);
    assert(record_of(post, child_name) == c1);
    assert(record_of(post, parent_name) == p1);
    let kids = record_of(pre, parent_name).children;
    kids.filter_lemma(keeps_other(child_name));
    if p1.children.contains(child_name) {
        let i = choose|i: int| 0 <= i < p1.children.len() && p1.children[i] == child_name;
        assert(keeps_other(child_name)(p1.children[i]));
    }
}

/// Idempotent child-add: linking the same child twice leaves the child in
/// the parent\'s child list exactly once.
pub proof fn lemma_link_idempotent(p: SessionV, child: Seq<char>, t1: i64, t2: i64)
    requires
        !p.children.contains(child),
    ensures
        linked_parent(linked_parent(p, child, t1), child, t2).children.to_multiset().count(child)
            == 1,
{
    let q = linked_parent(p, child, t1);
    assert(q.children == p.children.push(child));
    assert(q.children[q.children.len() - 1] == child);
    assert(q.children.contains(child));
    let r = linked_parent(q, child, t2);
    assert(r.children == q.children);
    assert(p.children.to_multiset().count(child) == 0) by {
        if p.children.to_multiset().count(child) > 0 {
            assert(p.children.contains(child));
        }
    }
    assert(q.children.to_multiset() =~= p.children.to_multiset().insert(child));
}

/// Round-trip persistence: right after a save, the store holds exactly the
/// saved record under its name, and saving the loaded record back changes
/// nothing.
pub proof fn lemma_save_load_roundtrip(pre: Seq<SessionV>, s: SessionV)
    requires
        unique_names(pre),
    ensures
        has_name(spec_save(pre, s), s.name),
        record_of(spec_save(pre, s), s.name) == s,
        spec_save(spec_save(pre, s), record_of(spec_save(pre, s), s.name)) == spec_save(pre, s),
{
    lemma_save_wf(pre, s);
    let mid = spec_save(pre, s);
    let i = index_of_name(mid, s.name);
    assert(0 <= i < mid.len() && mid[i].name == s.name);
    assert(mid[i] == s) by {
        lemma_index_unique(mid, s.name, i);
    }
    assert(mid.update(i, s) =~= mid);
}


} // verus!
