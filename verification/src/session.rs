use vstd::prelude::*;

use crate::strutil::str_eq;

verus! {

/// One live session, as held by the session store. Timestamps are Unix
/// seconds, minted by the credential authority when the session is created.
#[derive(Debug)]
pub struct SessionInfo {
    pub username: String,
    pub created_at: i64,
    pub last_activity: i64,
}

impl Clone for SessionInfo {
    fn clone(&self) -> (r: Self)
        ensures
            r == *self,
    {
        SessionInfo {
            username: self.username.clone(),
            created_at: self.created_at,
            last_activity: self.last_activity,
        }
    }
}

struct SessionEntry {
    id: String,
    info: SessionInfo,
}

/// The store of live sessions, keyed by the opaque session id. This is the
/// only state shared across requests; the surrounding server serializes
/// access to it behind a mutual-exclusion lock.
///
/// Abstractly, a map from session id to session data; every live session has
/// a unique id.
pub struct SessionStore {
    entries: Vec<SessionEntry>,
}

spec fn entries_map(s: Seq<SessionEntry>) -> Map<Seq<char>, SessionInfo>
    decreases s.len(),
{
    if s.len() == 0 {
        Map::empty()
    } else {
        entries_map(s.drop_last()).insert(s.last().id@, s.last().info)
    }
}

spec fn ids_unique(s: Seq<SessionEntry>) -> bool {
    forall|i: int, j: int| 0 <= i < j < s.len() ==> s[i].id@ != s[j].id@
}

proof fn lemma_entries_map_contains(s: Seq<SessionEntry>, k: Seq<char>)
    ensures
        entries_map(s).contains_key(k) <==> exists|i: int| 0 <= i < s.len() && s[i].id@ == k,
    decreases s.len(),
{
    if s.len() == 0 {
    } else {
        lemma_entries_map_contains(s.drop_last(), k);
        if entries_map(s).contains_key(k) {
            if s.last().id@ == k {
                assert(s[s.len() - 1].id@ == k);
            } else {
                let i = choose|i: int| 0 <= i < s.drop_last().len() && s.drop_last()[i].id@ == k;
                assert(s[i].id@ == k);
            }
        }
        if exists|i: int| 0 <= i < s.len() && s[i].id@ == k {
            let i = choose|i: int| 0 <= i < s.len() && s[i].id@ == k;
            if i < s.len() - 1 {
                assert(s.drop_last()[i].id@ == k);
            }
        }
    }
}

proof fn lemma_entries_map_value(s: Seq<SessionEntry>, i: int)
    requires
        ids_unique(s),
        0 <= i < s.len(),
    ensures
        entries_map(s).contains_key(s[i].id@),
        entries_map(s)[s[i].id@] == s[i].info,
    decreases s.len(),
{
    if i == s.len() - 1 {
    } else {
        assert(s[i].id@ != s.last().id@);
        assert(s.drop_last()[i] == s[i]);
        assert(ids_unique(s.drop_last())) by {
            assert(forall|a: int| 0 <= a < s.len() - 1 ==> s.drop_last()[a] == s[a]);
        }
        lemma_entries_map_value(s.drop_last(), i);
    }
}

proof fn lemma_entries_map_update(s: Seq<SessionEntry>, i: int, e: SessionEntry)
    requires
        ids_unique(s),
        0 <= i < s.len(),
        s[i].id@ == e.id@,
    ensures
        entries_map(s.update(i, e)) == entries_map(s).insert(e.id@, e.info),
    decreases s.len(),
{
    let su = s.update(i, e);
    if i == s.len() - 1 {
        assert(su.drop_last() =~= s.drop_last());
        assert(su.last() == e);
        assert(entries_map(s.drop_last()).insert(s.last().id@, s.last().info).insert(
            e.id@,
            e.info,
        ) =~= entries_map(s.drop_last()).insert(e.id@, e.info));
    } else {
        assert(ids_unique(s.drop_last())) by {
            assert(forall|a: int| 0 <= a < s.len() - 1 ==> s.drop_last()[a] == s[a]);
        }
        assert(su.drop_last() =~= s.drop_last().update(i, e));
        assert(s.drop_last()[i] == s[i]);
        lemma_entries_map_update(s.drop_last(), i, e);
        assert(su.last() == s.last());
        assert(e.id@ != s.last().id@);
        assert(entries_map(s.drop_last()).insert(e.id@, e.info).insert(
            s.last().id@,
            s.last().info,
        ) =~= entries_map(s.drop_last()).insert(s.last().id@, s.last().info).insert(
            e.id@,
            e.info,
        ));
    }
}

proof fn lemma_entries_map_remove(s: Seq<SessionEntry>, i: int)
    requires
        ids_unique(s),
        0 <= i < s.len(),
    ensures
        entries_map(s.remove(i)) == entries_map(s).remove(s[i].id@),
    decreases s.len(),
{
    let k = s[i].id@;
    let sr = s.remove(i);
    assert(ids_unique(s.drop_last())) by {
        assert(forall|a: int| 0 <= a < s.len() - 1 ==> s.drop_last()[a] == s[a]);
    }
    if i == s.len() - 1 {
        assert(sr =~= s.drop_last());
        lemma_entries_map_contains(s.drop_last(), k);
        assert(forall|a: int| 0 <= a < s.len() - 1 ==> s.drop_last()[a].id@ != k);
        assert(!entries_map(s.drop_last()).contains_key(k));
        assert(entries_map(s.drop_last()).insert(k, s.last().info).remove(k) =~= entries_map(
            s.drop_last(),
        ));
    } else {
        assert(sr.drop_last() =~= s.drop_last().remove(i));
        assert(sr.last() == s.last());
        assert(s.drop_last()[i] == s[i]);
        lemma_entries_map_remove(s.drop_last(), i);
        assert(k != s.last().id@);
        assert(entries_map(s.drop_last()).remove(k).insert(s.last().id@, s.last().info)
            =~= entries_map(s.drop_last()).insert(s.last().id@, s.last().info).remove(k));
    }
}

impl View for SessionStore {
    type V = Map<Seq<char>, SessionInfo>;

    closed spec fn view(&self) -> Map<Seq<char>, SessionInfo> {
        entries_map(self.entries@)
    }
}

impl SessionStore {
    /// Every live session has a unique id.
    pub closed spec fn wf(&self) -> bool {
        ids_unique(self.entries@)
    }

    /// A store with no live sessions.
    pub fn new() -> (r: SessionStore)
        ensures
            r.wf(),
            r@ == Map::<Seq<char>, SessionInfo>::empty(),
    {
        SessionStore { entries: Vec::new() }
    }

    fn find_index(&self, id: &str) -> (r: Option<usize>)
        ensures
            match r {
                Some(i) => i < self.entries@.len() && self.entries@[i as int].id@ == id@,
                None => forall|i: int|
                    0 <= i < self.entries@.len() ==> self.entries@[i].id@ != id@,
            },
    {
        let n = self.entries.len();
        let mut i: usize = 0;
        while i < n
            invariant
                n == self.entries@.len(),
                i <= n,
                forall|j: int| 0 <= j < i ==> self.entries@[j].id@ != id@,
            decreases n - i,
        {
            if str_eq(self.entries[i].id.as_str(), id) {
                return Some(i);
            }
            i += 1;
        }
        None
    }

    /// Is a session with this id live?
    pub fn contains(&self, id: &str) -> (r: bool)
        ensures
            r == self@.contains_key(id@),
    {
        proof {
            lemma_entries_map_contains(self.entries@, id@);
        }
        match self.find_index(id) {
            Some(_) => true,
            None => false,
        }
    }

    /// The session with this id, if one is live. The store is unchanged.
    pub fn lookup(&self, id: &str) -> (r: Option<SessionInfo>)
        requires
            self.wf(),
        ensures
            match r {
                Some(info) => self@.contains_key(id@) && info == self@[id@],
                None => !self@.contains_key(id@),
            },
    {
        proof {
            lemma_entries_map_contains(self.entries@, id@);
        }
        match self.find_index(id) {
            Some(i) => {
                proof {
                    lemma_entries_map_value(self.entries@, i as int);
                }
                Some(self.entries[i].info.clone())
            },
            None => None,
        }
    }

    /// Add a session under this id, replacing any session that already held
    /// the id.
    pub fn insert(&mut self, id: String, info: SessionInfo)
        requires
            old(self).wf(),
        ensures
            final(self).wf(),
            final(self)@ == old(self)@.insert(id@, info),
    {
        let ghost olds = self.entries@;
        let idx = self.find_index(id.as_str());
        let e = SessionEntry { id, info };
        let ghost ge = e;
        match idx {
            Some(i) => {
                proof {
                    lemma_entries_map_update(olds, i as int, ge);
                }
                self.entries[i] = e;
                assert(self.entries@ == olds.update(i as int, ge));
                assert(ids_unique(self.entries@)) by {
                    assert(forall|a: int|
                        0 <= a < olds.len() && a != i ==> self.entries@[a] == olds[a]);
                    assert(self.entries@[i as int].id@ == olds[i as int].id@);
                }
            },
            None => {
                proof {
                    lemma_entries_map_contains(olds, ge.id@);
                    assert(olds.push(ge).drop_last() =~= olds);
                }
                self.entries.push(e);
                assert(ids_unique(self.entries@)) by {
                    assert(forall|a: int| 0 <= a < olds.len() ==> self.entries@[a] == olds[a]);
                    assert(self.entries@[olds.len() as int].id@ == ge.id@);
                    assert(forall|a: int| 0 <= a < olds.len() ==> olds[a].id@ != ge.id@);
                }
            },
        }
    }

    /// Drop the session with this id, if one is live; says whether one was.
    pub fn remove(&mut self, id: &str) -> (r: bool)
        requires
            old(self).wf(),
        ensures
            final(self).wf(),
            final(self)@ == old(self)@.remove(id@),
            r == old(self)@.contains_key(id@),
    {
        let ghost olds = self.entries@;
        proof {
            lemma_entries_map_contains(olds, id@);
        }
        match self.find_index(id) {
            Some(i) => {
                proof {
                    lemma_entries_map_remove(olds, i as int);
                }
                self.entries.remove(i);
                assert(ids_unique(self.entries@)) by {
                    olds.remove_ensures(i as int);
                }
                true
            },
            None => {
                assert(old(self)@ =~= old(self)@.remove(id@));
                false
            },
        }
    }
}

/// The credential authority's shared state: its session store. The
/// surrounding server wraps one value of this in its own mutual-exclusion
/// lock and hands every request the same instance.
pub struct AuthState {
    pub sessions: SessionStore,
}

impl AuthState {
    /// A fresh authority state with no live sessions.
    pub fn new() -> (r: AuthState)
        ensures
            r.sessions.wf(),
            r.sessions@ == Map::<Seq<char>, SessionInfo>::empty(),
    {
        AuthState { sessions: SessionStore::new() }
    }
}

} // verus!
