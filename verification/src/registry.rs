//! The registry of sessions and scripts that the actor keeps.

use crate::registry_model::{lemma_strike_push, strike, RegistryModel, SessionModel};
use std::collections::HashMap;
use vstd::prelude::*;

verus! {

/// What the registry remembers of one session.
#[derive(Debug, PartialEq, Eq)]
pub struct SessionRecord {
    pub device_id: String,
    pub pid: u32,
    pub script_ids: Vec<u64>,
}

impl View for SessionRecord {
    type V = SessionModel;

    open spec fn view(&self) -> SessionModel {
        SessionModel { device_id: self.device_id@, pid: self.pid, script_ids: self.script_ids@ }
    }
}

/// Copies `ids` without every occurrence of `id`.
pub fn without(ids: &Vec<u64>, id: u64) -> (rest: Vec<u64>)
    ensures
        rest@ == strike(ids@, id),
{
    let mut rest: Vec<u64> = Vec::new();
    let mut i: usize = 0;
    while i < ids.len()
        invariant
            i <= ids.len(),
            rest@ == strike(ids@.subrange(0, i as int), id),
        decreases ids.len() - i,
    {
        proof {
            lemma_strike_push(ids@.subrange(0, i as int), ids@[i as int], id);
            assert(ids@.subrange(0, i + 1) =~= ids@.subrange(0, i as int).push(ids@[i as int]));
        }
        if ids[i] != id {
            rest.push(ids[i]);
        }
        i += 1;
    }
    proof {
        assert(ids@.subrange(0, i as int) =~= ids@);
    }
    rest
}

/// Live sessions, live scripts, and the counters that name them.
pub struct Registry {
    sessions: HashMap<u64, SessionRecord>,
    scripts: HashMap<u64, u64>,
    next_session_id: u64,
    next_script_id: u64,
}

impl View for Registry {
    type V = RegistryModel;

    closed spec fn view(&self) -> RegistryModel {
        RegistryModel {
            sessions: self.sessions@.map_values(|record: SessionRecord| record@),
            scripts: self.scripts@,
            next_session_id: self.next_session_id,
            next_script_id: self.next_script_id,
        }
    }
}

impl Registry {
    /// An empty registry whose first ids will be 1.
    pub fn new() -> (registry: Registry)
        ensures
            registry@ == RegistryModel::empty(),
    {
        Registry::starting_at(1, 1)
    }

    /// An empty registry whose first ids will be the given ones.
    pub(crate) fn starting_at(first_session_id: u64, first_script_id: u64) -> (registry: Registry)
        ensures
            registry@ == RegistryModel::starting_at(first_session_id, first_script_id),
    {
        let registry = Registry {
            sessions: HashMap::new(),
            scripts: HashMap::new(),
            next_session_id: first_session_id,
            next_script_id: first_script_id,
        };
        assert(registry@.sessions =~= Map::empty());
        registry
    }

    /// Whether `session_id` is registered.
    pub fn has_session(&self, session_id: u64) -> (known: bool)
        ensures
            known == self@.sessions.contains_key(session_id),
    {
        self.sessions.contains_key(&session_id)
    }

    /// Whether `script_id` is registered.
    pub fn has_script(&self, script_id: u64) -> (known: bool)
        ensures
            known == self@.scripts.contains_key(script_id),
    {
        self.scripts.contains_key(&script_id)
    }

    /// The session that owns `script_id`.
    pub fn session_of(&self, script_id: u64) -> (owner: Option<u64>)
        ensures
            owner == if self@.scripts.contains_key(script_id) {
                Some(self@.scripts[script_id])
            } else {
                None
            },
    {
        match self.scripts.get(&script_id) {
            Some(session_id) => Some(*session_id),
            None => None,
        }
    }

    /// How many sessions are registered.
    pub fn session_count(&self) -> (count: usize)
        ensures
            count == self@.sessions.dom().len(),
    {
        assert(self@.sessions.dom() =~= self.sessions@.dom());
        self.sessions.len()
    }

    /// How many scripts are registered.
    pub fn script_count(&self) -> (count: usize)
        ensures
            count == self@.scripts.dom().len(),
    {
        self.scripts.len()
    }

    /// The id that the next session will get.
    pub fn next_session_id(&self) -> (id: u64)
        ensures
            id == self@.next_session_id,
    {
        self.next_session_id
    }

    /// The id that the next script will get.
    pub fn next_script_id(&self) -> (id: u64)
        ensures
            id == self@.next_script_id,
    {
        self.next_script_id
    }

    /// The scripts that `session_id` lists, oldest first.
    pub fn script_ids(&self, session_id: u64) -> (ids: Vec<u64>)
        ensures
            ids@ == self@.scripts_of(session_id),
    {
        match self.sessions.get(&session_id) {
            Some(record) => record.script_ids.clone(),
            None => Vec::new(),
        }
    }

    /// The oldest script of `session_id`, if it has any.
    pub fn first_script(&self, session_id: u64) -> (first: Option<u64>)
        ensures
            first == if self@.scripts_of(session_id).len() > 0 {
                Some(self@.scripts_of(session_id)[0])
            } else {
                None
            },
    {
        match self.sessions.get(&session_id) {
            Some(record) => {
                if record.script_ids.len() > 0 {
                    Some(record.script_ids[0])
                } else {
                    None
                }
            },
            None => None,
        }
    }

    /// The device and process that `session_id` was attached to.
    pub fn target_of(&self, session_id: u64) -> (target: Option<(String, u32)>)
        ensures
            match target {
                Some((device_id, pid)) => self@.sessions.contains_key(session_id)
                    && device_id@ == self@.sessions[session_id].device_id
                    && pid == self@.sessions[session_id].pid,
                None => !self@.sessions.contains_key(session_id),
            },
    {
        match self.sessions.get(&session_id) {
            Some(record) => Some((record.device_id.clone(), record.pid)),
            None => None,
        }
    }

    /// The ids of all registered sessions, each once, in no particular order.
    pub fn session_ids(&self) -> (ids: Vec<u64>)
        ensures
            ids@.no_duplicates(),
            ids@.to_set() == self@.sessions.dom(),
    {
        let mut ids: Vec<u64> = Vec::new();
        assert(self@.sessions.dom() =~= self.sessions@.dom());
        for key in it: self.sessions.keys()
            invariant
                it.seq().no_duplicates(),
                it.seq().unref().to_set() == self.sessions@.dom(),
                ids@ == it.seq().unref().take(it.index() as int),
                it.index() == it.seq().len() ==> ids@.no_duplicates() && ids@.to_set()
                    == self.sessions@.dom(),
        {
            assert(it.seq().unref().take(it.index() + 1) =~= it.seq().unref().take(
                it.index() as int,
            ).push(*key));
            assert(it.index() + 1 == it.seq().len() ==> it.seq().unref().take(it.index() + 1)
                =~= it.seq().unref());
            assert forall|i: int, j: int|
                0 <= i < it.seq().len() && 0 <= j < it.seq().len() && i != j implies {
                    it.seq().unref()[i] != it.seq().unref()[j]
                } by {
                assert(it.seq()[i] != it.seq()[j]);
            }
            ids.push(*key);
        }
        ids
    }

    /// Registers a session without scripts under the next id and returns
    /// that id.
    pub(crate) fn open_session(&mut self, device_id: String, pid: u32) -> (session_id: u64)
        requires
            old(self)@.has_session_id(),
        ensures
            session_id == old(self)@.next_session_id,
            final(self)@ == old(self)@.open_session(device_id@, pid),
    {
        let session_id = self.next_session_id;
        self.next_session_id = self.next_session_id + 1;
        self.sessions.insert(session_id, SessionRecord { device_id, pid, script_ids: Vec::new() });
        assert(self@.sessions =~= old(self)@.open_session(device_id@, pid).sessions);
        session_id
    }

    /// Takes the next script id out of circulation and returns it.
    pub(crate) fn reserve_script_id(&mut self) -> (script_id: u64)
        requires
            old(self)@.has_script_id(),
        ensures
            script_id == old(self)@.next_script_id,
            final(self)@ == old(self)@.reserve_script_id(),
    {
        let script_id = self.next_script_id;
        self.next_script_id = self.next_script_id + 1;
        script_id
    }

    /// Registers `script_id` under `session_id` and appends it to that
    /// session's list. Does nothing for an unknown session.
    pub(crate) fn add_script(&mut self, session_id: u64, script_id: u64)
        ensures
            final(self)@ == old(self)@.add_script(session_id, script_id),
    {
        match self.sessions.remove(&session_id) {
            Some(record) => {
                let mut record = record;
                record.script_ids.push(script_id);
                self.sessions.insert(session_id, record);
                self.scripts.insert(script_id, session_id);
                assert(self@.sessions =~= old(self)@.add_script(session_id, script_id).sessions);
            },
            None => {
                assert(self@.sessions =~= old(self)@.sessions);
            },
        }
    }

    /// Forgets `script_id`, strikes it from the list of its session and
    /// returns that session's id.
    pub(crate) fn remove_script(&mut self, script_id: u64) -> (owner: Option<u64>)
        ensures
            final(self)@ == old(self)@.remove_script(script_id),
            owner == if old(self)@.scripts.contains_key(script_id) {
                Some(old(self)@.scripts[script_id])
            } else {
                None
            },
    {
        match self.scripts.remove(&script_id) {
            Some(session_id) => {
                match self.sessions.remove(&session_id) {
                    Some(record) => {
                        let rest = without(&record.script_ids, script_id);
                        self.sessions.insert(
                            session_id,
                            SessionRecord {
                                device_id: record.device_id,
                                pid: record.pid,
                                script_ids: rest,
                            },
                        );
                        assert(self@.sessions =~= old(self)@.remove_script(script_id).sessions);
                    },
                    None => {
                        assert(self@.sessions =~= old(self)@.sessions);
                    },
                }
                Some(session_id)
            },
            None => {
                assert(self.scripts@ =~= old(self).scripts@);
                None
            },
        }
    }

    /// Forgets the session and returns what was remembered of it.
    pub(crate) fn remove_session(&mut self, session_id: u64) -> (record: Option<SessionRecord>)
        ensures
            final(self)@ == old(self)@.remove_session(session_id),
            match record {
                Some(record) => old(self)@.sessions.contains_key(session_id) && record@ == old(
                    self,
                )@.sessions[session_id],
                None => !old(self)@.sessions.contains_key(session_id),
            },
    {
        let record = self.sessions.remove(&session_id);
        assert(self@.sessions =~= old(self)@.sessions.remove(session_id));
        record
    }

    /// Puts a session back under the id it had.
    pub(crate) fn restore_session(&mut self, session_id: u64, record: SessionRecord)
        ensures
            final(self)@ == old(self)@.restore_session(session_id, record@),
    {
        self.sessions.insert(session_id, record);
        assert(self@.sessions =~= old(self)@.sessions.insert(session_id, record@));
    }
}

} // verus!
