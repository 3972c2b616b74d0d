//! The registry of sessions and scripts as a mathematical value.

use vstd::prelude::*;

verus! {

/// A live attachment to one process of one device.
pub struct SessionModel {
    pub device_id: Seq<char>,
    pub pid: u32,
    /// The scripts of the session, oldest first, none twice.
    pub script_ids: Seq<u64>,
}

/// The test that every id but `id` passes.
pub open spec fn is_not(id: u64) -> spec_fn(u64) -> bool {
    |other: u64| other != id
}

/// The list `ids` without `id`.
pub open spec fn strike(ids: Seq<u64>, id: u64) -> Seq<u64> {
    ids.filter(is_not(id))
}

/// Striking `id` from a list that grows by `last` leaves `last` in place
/// unless it is `id` itself.
pub proof fn lemma_strike_push(ids: Seq<u64>, last: u64, id: u64)
    ensures
        strike(ids.push(last), id) == if last != id {
            strike(ids, id).push(last)
        } else {
            strike(ids, id)
        },
{
    ids.lemma_filter_push(last, is_not(id));
}

/// Sessions by id, the owning session of each script by script id, and the
/// two counters that hand out ids.
pub struct RegistryModel {
    pub sessions: Map<u64, SessionModel>,
    pub scripts: Map<u64, u64>,
    pub next_session_id: u64,
    pub next_script_id: u64,
}

impl RegistryModel {
    /// Nothing registered; both counters at 1.
    pub open spec fn empty() -> RegistryModel {
        RegistryModel::starting_at(1, 1)
    }

    /// Nothing registered; the counters at the given ids.
    pub open spec fn starting_at(first_session_id: u64, first_script_id: u64) -> RegistryModel {
        RegistryModel {
            sessions: Map::empty(),
            scripts: Map::empty(),
            next_session_id: first_session_id,
            next_script_id: first_script_id,
        }
    }

    /// Every id that a session lists names a script that points back to it.
    pub open spec fn listed_scripts_point_back(self) -> bool {
        forall|session_id: u64, i: int|
            self.sessions.contains_key(session_id) && 0 <= i
                < self.sessions[session_id].script_ids.len() ==> {
                let script_id = #[trigger] self.sessions[session_id].script_ids[i];
                self.scripts.contains_key(script_id) && self.scripts[script_id] == session_id
            }
    }

    /// Every script belongs to a registered session that lists it.
    pub open spec fn scripts_are_listed(self) -> bool {
        forall|script_id: u64| #[trigger]
            self.scripts.contains_key(script_id) ==> {
                let session_id = self.scripts[script_id];
                self.sessions.contains_key(session_id)
                    && self.sessions[session_id].script_ids.contains(script_id)
            }
    }

    /// No session lists a script twice.
    pub open spec fn lists_are_sets(self) -> bool {
        forall|session_id: u64| #[trigger]
            self.sessions.contains_key(session_id)
                ==> self.sessions[session_id].script_ids.no_duplicates()
    }

    /// Ids start at 1 and every id in use lies below its counter, so a
    /// counter never hands out an id a second time.
    pub open spec fn ids_are_fresh(self) -> bool {
        &&& 1 <= self.next_session_id
        &&& 1 <= self.next_script_id
        &&& forall|session_id: u64| #[trigger]
            self.sessions.contains_key(session_id) ==> 1 <= session_id < self.next_session_id
        &&& forall|script_id: u64| #[trigger]
            self.scripts.contains_key(script_id) ==> 1 <= script_id < self.next_script_id
    }

    /// Only finitely many sessions and scripts are registered.
    pub open spec fn is_finite(self) -> bool {
        self.sessions.dom().finite() && self.scripts.dom().finite()
    }

    /// The cross-references between sessions and scripts are intact.
    pub open spec fn consistent(self) -> bool {
        &&& self.is_finite()
        &&& self.listed_scripts_point_back()
        &&& self.scripts_are_listed()
        &&& self.lists_are_sets()
        &&& self.ids_are_fresh()
    }

    /// The scripts that `session_id` lists; none for an unknown session.
    pub open spec fn scripts_of(self, session_id: u64) -> Seq<u64> {
        if self.sessions.contains_key(session_id) {
            self.sessions[session_id].script_ids
        } else {
            Seq::empty()
        }
    }

    /// Whether the session counter can still hand out an id.
    pub open spec fn has_session_id(self) -> bool {
        self.next_session_id < u64::MAX
    }

    /// Whether the script counter can still hand out an id.
    pub open spec fn has_script_id(self) -> bool {
        self.next_script_id < u64::MAX
    }

    /// Registers a session without scripts under the next session id.
    pub open spec fn open_session(self, device_id: Seq<char>, pid: u32) -> RegistryModel {
        RegistryModel {
            sessions: self.sessions.insert(
                self.next_session_id,
                SessionModel { device_id, pid, script_ids: Seq::empty() },
            ),
            next_session_id: (self.next_session_id + 1) as u64,
            ..self
        }
    }

    /// Takes the next script id out of circulation.
    pub open spec fn reserve_script_id(self) -> RegistryModel {
        RegistryModel { next_script_id: (self.next_script_id + 1) as u64, ..self }
    }

    /// Registers `script_id` under `session_id` and appends it to the
    /// session's list.
    pub open spec fn add_script(self, session_id: u64, script_id: u64) -> RegistryModel {
        if self.sessions.contains_key(session_id) {
            let session = self.sessions[session_id];
            RegistryModel {
                sessions: self.sessions.insert(
                    session_id,
                    SessionModel { script_ids: session.script_ids.push(script_id), ..session },
                ),
                scripts: self.scripts.insert(script_id, session_id),
                ..self
            }
        } else {
            self
        }
    }

    /// Forgets `script_id` and strikes it from the list of its session.
    pub open spec fn remove_script(self, script_id: u64) -> RegistryModel {
        if self.scripts.contains_key(script_id) {
            let session_id = self.scripts[script_id];
            let scripts = self.scripts.remove(script_id);
            if self.sessions.contains_key(session_id) {
                let session = self.sessions[session_id];
                RegistryModel {
                    sessions: self.sessions.insert(
                        session_id,
                        SessionModel {
                            script_ids: strike(session.script_ids, script_id),
                            ..session
                        },
                    ),
                    scripts,
                    ..self
                }
            } else {
                RegistryModel { scripts, ..self }
            }
        } else {
            self
        }
    }

    /// Forgets the session; its scripts must be gone already for the
    /// registry to stay consistent.
    pub open spec fn remove_session(self, session_id: u64) -> RegistryModel {
        RegistryModel { sessions: self.sessions.remove(session_id), ..self }
    }

    /// Puts a session back under the id it had.
    pub open spec fn restore_session(self, session_id: u64, record: SessionModel) -> RegistryModel {
        RegistryModel { sessions: self.sessions.insert(session_id, record), ..self }
    }
}

/// Striking `id` removes exactly `id`, and keeps a list free of repeats.
pub proof fn lemma_strike(ids: Seq<u64>, id: u64)
    ensures
        forall|other: u64|
            #[trigger] strike(ids, id).contains(other) <==> ids.contains(other) && other != id,
        ids.no_duplicates() ==> strike(ids, id).no_duplicates(),
    decreases ids.len(),
{
    if ids.len() == 0 {
        ids.lemma_filter_len(is_not(id));
        assert(strike(ids, id) =~= Seq::<u64>::empty());
    } else {
        let front = ids.drop_last();
        let last = ids.last();
        assert(ids =~= front.push(last));
        lemma_strike(front, id);
        lemma_strike_push(front, last, id);
        let kept = strike(front, id);
        assert forall|other: u64| #[trigger]
            strike(ids, id).contains(other) <==> ids.contains(other) && other != id by {
            if strike(ids, id).contains(other) {
                let struck = strike(ids, id);
                let i = choose|i: int| 0 <= i < struck.len() && struck[i] == other;
                if last != id && i == kept.len() {
                    assert(ids[ids.len() - 1] == other);
                } else {
                    assert(kept[i] == other);
                    assert(kept.contains(other));
                    let j = choose|j: int| 0 <= j < front.len() && front[j] == other;
                    assert(ids[j] == other);
                }
            }
            if ids.contains(other) && other != id {
                let j = choose|j: int| 0 <= j < ids.len() && ids[j] == other;
                if j == ids.len() - 1 {
                    assert(strike(ids, id)[kept.len() as int] == other);
                } else {
                    assert(front[j] == other);
                    assert(front.contains(other));
                    assert(strike(front, id).contains(other));
                    let i = choose|i: int| 0 <= i < kept.len() && kept[i] == other;
                    assert(strike(ids, id)[i] == other);
                }
            }
        }
        if ids.no_duplicates() {
            assert(front.no_duplicates());
            if last != id {
                assert forall|i: int, j: int|
                    0 <= i < kept.len() + 1 && 0 <= j < kept.len() + 1 && i != j implies kept.push(
                    last,
                )[i] != kept.push(last)[j] by {
                    if i == kept.len() {
                        assert(kept.contains(kept[j]));
                        let k = choose|k: int| 0 <= k < front.len() && front[k] == kept[j];
                        assert(ids[k] != ids[ids.len() - 1]);
                    } else if j == kept.len() {
                        assert(kept.contains(kept[i]));
                        let k = choose|k: int| 0 <= k < front.len() && front[k] == kept[i];
                        assert(ids[k] != ids[ids.len() - 1]);
                    }
                }
            }
        }
    }
}

/// Striking an id that is listed makes the list shorter.
pub proof fn lemma_strike_shorter(ids: Seq<u64>, id: u64)
    requires
        ids.contains(id),
    ensures
        strike(ids, id).len() < ids.len(),
    decreases ids.len(),
{
    let front = ids.drop_last();
    let last = ids.last();
    assert(ids =~= front.push(last));
    lemma_strike_push(front, last, id);
    front.lemma_filter_len(is_not(id));
    if last != id {
        let i = choose|i: int| 0 <= i < ids.len() && ids[i] == id;
        assert(front[i] == id);
        lemma_strike_shorter(front, id);
    }
}

impl RegistryModel {
    /// A session without scripts may join under the next id.
    pub proof fn lemma_open_session_consistent(self, device_id: Seq<char>, pid: u32)
        requires
            self.consistent(),
            self.has_session_id(),
        ensures
            self.open_session(device_id, pid).consistent(),
            self.open_session(device_id, pid).scripts_of(self.next_session_id).len() == 0,
            !self.sessions.contains_key(self.next_session_id),
    {
        let after = self.open_session(device_id, pid);
        assert forall|script_id: u64| #[trigger] after.scripts.contains_key(script_id) implies {
            let session_id = after.scripts[script_id];
            &&& after.sessions.contains_key(session_id)
            &&& after.sessions[session_id].script_ids.contains(script_id)
        } by {
            assert(self.scripts.contains_key(script_id));
        }
    }

    /// Spending a script id keeps the registry consistent.
    pub proof fn lemma_reserve_script_id_consistent(self)
        requires
            self.consistent(),
            self.has_script_id(),
        ensures
            self.reserve_script_id().consistent(),
            self.reserve_script_id().sessions == self.sessions,
            self.reserve_script_id().scripts == self.scripts,
    {
    }

    /// A script with a spent, unused id may join a registered session.
    pub proof fn lemma_add_script_consistent(self, session_id: u64, script_id: u64)
        requires
            self.consistent(),
            self.sessions.contains_key(session_id),
            !self.scripts.contains_key(script_id),
            1 <= script_id < self.next_script_id,
        ensures
            self.add_script(session_id, script_id).consistent(),
    {
        let after = self.add_script(session_id, script_id);
        let before_ids = self.sessions[session_id].script_ids;
        let after_ids = before_ids.push(script_id);
        assert(!before_ids.contains(script_id)) by {
            if before_ids.contains(script_id) {
                let i = choose|i: int| 0 <= i < before_ids.len() && before_ids[i] == script_id;
                assert(self.scripts.contains_key(self.sessions[session_id].script_ids[i]));
            }
        }
        assert forall|other: u64, i: int|
            after.sessions.contains_key(other) && 0 <= i
                < after.sessions[other].script_ids.len() implies {
            let listed = #[trigger] after.sessions[other].script_ids[i];
            after.scripts.contains_key(listed) && after.scripts[listed] == other
        } by {
            if other == session_id {
                if i < before_ids.len() {
                    assert(after_ids[i] == self.sessions[session_id].script_ids[i]);
                    assert(self.scripts.contains_key(self.sessions[session_id].script_ids[i]));
                }
            } else {
                assert(after.sessions[other].script_ids[i] == self.sessions[other].script_ids[i]);
                assert(self.scripts.contains_key(self.sessions[other].script_ids[i]));
            }
        }
        assert forall|listed: u64| #[trigger] after.scripts.contains_key(listed) implies {
            let owner = after.scripts[listed];
            after.sessions.contains_key(owner) && after.sessions[owner].script_ids.contains(listed)
        } by {
            if listed == script_id {
                assert(after_ids[before_ids.len() as int] == script_id);
            } else {
                assert(self.scripts.contains_key(listed));
                let owner = self.scripts[listed];
                let ids = self.sessions[owner].script_ids;
                let i = choose|i: int| 0 <= i < ids.len() && ids[i] == listed;
                if owner == session_id {
                    assert(after_ids[i] == listed);
                } else {
                    assert(after.sessions[owner].script_ids[i] == listed);
                }
            }
        }
        assert forall|other: u64| #[trigger] after.sessions.contains_key(other) implies {
            after.sessions[other].script_ids.no_duplicates()
        } by {
            assert(self.sessions.contains_key(other));
            if other == session_id {
                assert forall|i: int, j: int|
                    0 <= i < after_ids.len() && 0 <= j < after_ids.len() && i != j implies {
                        after_ids[i] != after_ids[j]
                    } by {
                    if i < before_ids.len() {
                        assert(before_ids.contains(before_ids[i]));
                    }
                    if j < before_ids.len() {
                        assert(before_ids.contains(before_ids[j]));
                    }
                }
            }
        }
    }

    /// A script may leave: its session stops listing it.
    pub proof fn lemma_remove_script_consistent(self, script_id: u64)
        requires
            self.consistent(),
        ensures
            self.remove_script(script_id).consistent(),
            !self.remove_script(script_id).scripts.contains_key(script_id),
            self.remove_script(script_id).sessions.dom() == self.sessions.dom(),
            self.remove_script(script_id).next_session_id == self.next_session_id,
            self.remove_script(script_id).next_script_id == self.next_script_id,
            forall|other: u64| #[trigger]
                self.scripts.contains_key(other) && other != script_id ==> self.remove_script(
                    script_id,
                ).scripts.contains_key(other),
    {
        let after = self.remove_script(script_id);
        if self.scripts.contains_key(script_id) {
            let session_id = self.scripts[script_id];
            let before_ids = self.sessions[session_id].script_ids;
            lemma_strike(before_ids, script_id);
            assert(after.sessions.dom() =~= self.sessions.dom());
            assert forall|other: u64, i: int|
                after.sessions.contains_key(other) && 0 <= i
                    < after.sessions[other].script_ids.len() implies {
                let listed = #[trigger] after.sessions[other].script_ids[i];
                after.scripts.contains_key(listed) && after.scripts[listed] == other
            } by {
                let listed = after.sessions[other].script_ids[i];
                assert(after.sessions[other].script_ids.contains(listed));
                if other == session_id {
                    assert(before_ids.contains(listed) && listed != script_id);
                    let j = choose|j: int| 0 <= j < before_ids.len() && before_ids[j] == listed;
                    assert(self.scripts.contains_key(self.sessions[session_id].script_ids[j]));
                } else {
                    assert(self.scripts.contains_key(self.sessions[other].script_ids[i]));
                }
            }
            assert forall|listed: u64| #[trigger] after.scripts.contains_key(listed) implies {
                let owner = after.scripts[listed];
                after.sessions.contains_key(owner) && after.sessions[owner].script_ids.contains(
                    listed,
                )
            } by {
                assert(self.scripts.contains_key(listed));
            }
            assert forall|other: u64| #[trigger] after.sessions.contains_key(other) implies {
                after.sessions[other].script_ids.no_duplicates()
            } by {
                assert(self.sessions.contains_key(other));
            }
        }
    }

    /// Once a session lists no script, no script belongs to it.
    pub proof fn lemma_no_scripts_no_owner(self, session_id: u64)
        requires
            self.consistent(),
            self.scripts_of(session_id).len() == 0,
        ensures
            forall|script_id: u64| #[trigger]
                self.scripts.contains_key(script_id) ==> self.scripts[script_id] != session_id,
    {
        assert forall|script_id: u64| #[trigger]
            self.scripts.contains_key(script_id) implies self.scripts[script_id] != session_id by {
            if self.scripts[script_id] == session_id {
                let ids = self.sessions[session_id].script_ids;
                assert(ids.contains(script_id));
            }
        }
    }

    /// A session without scripts may leave.
    pub proof fn lemma_remove_session_consistent(self, session_id: u64)
        requires
            self.consistent(),
            self.scripts_of(session_id).len() == 0,
        ensures
            self.remove_session(session_id).consistent(),
    {
        self.lemma_no_scripts_no_owner(session_id);
        let after = self.remove_session(session_id);
        assert forall|script_id: u64| #[trigger] after.scripts.contains_key(script_id) implies {
            let owner = after.scripts[script_id];
            after.sessions.contains_key(owner) && after.sessions[owner].script_ids.contains(
                script_id,
            )
        } by {
            assert(self.scripts.contains_key(script_id));
        }
        assert forall|other: u64, i: int|
            after.sessions.contains_key(other) && 0 <= i
                < after.sessions[other].script_ids.len() implies {
            let listed = #[trigger] after.sessions[other].script_ids[i];
            after.scripts.contains_key(listed) && after.scripts[listed] == other
        } by {
            assert(self.scripts.contains_key(self.sessions[other].script_ids[i]));
        }
    }

    /// A session without scripts may come back under the id it had.
    pub proof fn lemma_restore_session_consistent(self, session_id: u64, record: SessionModel)
        requires
            self.consistent(),
            !self.sessions.contains_key(session_id),
            1 <= session_id < self.next_session_id,
            record.script_ids.len() == 0,
        ensures
            self.restore_session(session_id, record).consistent(),
    {
        let after = self.restore_session(session_id, record);
        assert forall|script_id: u64| #[trigger] after.scripts.contains_key(script_id) implies {
            let owner = after.scripts[script_id];
            after.sessions.contains_key(owner) && after.sessions[owner].script_ids.contains(
                script_id,
            )
        } by {
            assert(self.scripts.contains_key(script_id));
        }
        assert forall|other: u64, i: int|
            after.sessions.contains_key(other) && 0 <= i
                < after.sessions[other].script_ids.len() implies {
            let listed = #[trigger] after.sessions[other].script_ids[i];
            after.scripts.contains_key(listed) && after.scripts[listed] == other
        } by {
            if other != session_id {
                assert(self.scripts.contains_key(self.sessions[other].script_ids[i]));
            }
        }
    }
}

} // verus!
