//! An in-process store that executes commands exactly as `step` describes.

use std::collections::HashSet;
use vstd::prelude::*;
use crate::assoc::{assoc, entries_map, entries_view, entries_wf, find, push_new, put, take_at};
use crate::collections::{copy_fields, copy_set, remove_all, union_into};
use crate::command::{
    answer, next_db, outcome_view, step, Command, CommandView, Db, Entry, Reply,
    StoreError,
};

verus! {

/// Writes `pairs` into the fields `f`, in order, so that a later pair for a
/// name wins.
fn write_fields(f: &mut Vec<(String, String)>, pairs: &Vec<(String, String)>)
    requires
        entries_wf(old(f)@),
    ensures
        entries_wf(final(f)@),
        entries_map(final(f)@) == entries_map(old(f)@).union_prefer_right(
            assoc(entries_view(pairs@)),
        ),
{
    let ghost m0 = entries_map(f@);
    let mut i: usize = 0;
    while i < pairs.len()
        invariant
            i <= pairs.len(),
            entries_wf(f@),
            entries_map(f@) == m0.union_prefer_right(assoc(entries_view(pairs@.take(i as int)))),
        decreases pairs.len() - i,
    {
        let name = pairs[i].0.clone();
        let value = pairs[i].1.clone();
        proof {
            let t = pairs@.take(i as int + 1);
            assert(entries_view(t).drop_last() =~= entries_view(pairs@.take(i as int)));
            assert(m0.union_prefer_right(assoc(entries_view(t))) =~= m0.union_prefer_right(
                assoc(entries_view(pairs@.take(i as int))),
            ).insert(name@, value@));
        }
        put(f, name, value);
        i = i + 1;
    }
    assert(pairs@.take(i as int) =~= pairs@);
}

/// What one key holds, as stored.
#[derive(Debug)]
enum Value {
    Members(HashSet<u64>),
    Fields(Vec<(String, String)>),
}

impl View for Value {
    type V = Entry;

    closed spec fn view(&self) -> Entry {
        match self {
            Value::Members(s) => Entry::Members(s@),
            Value::Fields(f) => Entry::Fields(entries_map(f@)),
        }
    }
}

/// A stored hash names each field once.
spec fn value_wf(v: Value) -> bool {
    match v {
        Value::Fields(f) => entries_wf(f@),
        Value::Members(_) => true,
    }
}

spec fn values_wf(s: Seq<(String, Value)>) -> bool {
    forall|j: int| 0 <= j < s.len() ==> value_wf(#[trigger] s[j].1)
}

/// A store kept in memory: each key once, with what it holds.
#[derive(Debug)]
pub struct MemStore {
    entries: Vec<(String, Value)>,
}

impl View for MemStore {
    type V = Db;

    closed spec fn view(&self) -> Db {
        entries_map(self.entries@)
    }
}

impl MemStore {
    /// Each key is held once, and each stored hash names each field once.
    pub closed spec fn wf(&self) -> bool {
        entries_wf(self.entries@) && values_wf(self.entries@)
    }

    /// An empty store.
    pub fn new() -> (s: MemStore)
        ensures
            s.wf(),
            s@ == Db::empty(),
    {
        let s = MemStore { entries: Vec::new() };
        assert(s@ =~= Db::empty());
        s
    }

    /// Removes the entry at `i`, handing it out.
    fn take(&mut self, i: usize) -> (r: (String, Value))
        requires
            old(self).wf(),
            i < old(self).entries.len(),
        ensures
            final(self).wf(),
            r == old(self).entries@[i as int],
            value_wf(r.1),
            old(self)@.contains_key(r.0@),
            old(self)@[r.0@] == r.1@,
            final(self)@ == old(self)@.remove(r.0@),
    {
        proof {
            crate::assoc::lemma_assoc_index(entries_view(self.entries@), i as int);
        }
        let r = take_at(&mut self.entries, i);
        assert(values_wf(self.entries@)) by {
            assert forall|j: int| 0 <= j < self.entries@.len() implies value_wf(
                #[trigger] self.entries@[j].1,
            ) by {
                let k = if j < i { j } else { j + 1 };
                assert(self.entries@[j] == old(self).entries@[k]);
            }
        }
        r
    }

    /// Adds an entry for a key that is not held.
    fn insert_new(&mut self, key: String, v: Value)
        requires
            old(self).wf(),
            value_wf(v),
            !old(self)@.contains_key(key@),
        ensures
            final(self).wf(),
            final(self)@ == old(self)@.insert(key@, v@),
    {
        push_new(&mut self.entries, key, v);
        assert(values_wf(self.entries@)) by {
            assert forall|j: int| 0 <= j < self.entries@.len() implies value_wf(
                #[trigger] self.entries@[j].1,
            ) by {
                if j < old(self).entries@.len() {
                    assert(self.entries@[j] == old(self).entries@[j]);
                }
            }
        }
    }

    /// Runs `cmd` against the store.
    pub fn execute(&mut self, cmd: Command) -> (r: Result<Reply, StoreError>)
        requires
            old(self).wf(),
        ensures
            final(self).wf(),
            final(self)@ == next_db(old(self)@, cmd@),
            outcome_view(r) == answer(old(self)@, cmd@),
            r matches Ok(reply) ==> reply.wf(),
    {
        match cmd {
            Command::SetAdd { key, members } => self.set_add(key, members),
            Command::SetRemove { key, members } => self.set_remove(key, members),
            Command::SetMembers { key } => self.set_members(&key),
            Command::HashWrite { key, fields } => self.hash_write(key, fields),
            Command::HashGetAll { key } => self.hash_get_all(&key),
            Command::Exists { key } => self.key_exists(&key),
            Command::Delete { key } => self.delete(&key),
            Command::Rename { from, to } => self.rename(&from, to),
        }
    }

    fn set_add(&mut self, key: String, members: HashSet<u64>) -> (r: Result<Reply, StoreError>)
        requires
            old(self).wf(),
        ensures
            final(self).wf(),
            (final(self)@, outcome_view(r)) == step(
                old(self)@,
                CommandView::SetAdd { key: key@, members: members@ },
            ),
            r matches Ok(reply) ==> reply.wf(),
    {
        if members.is_empty() {
            return Err(StoreError::MissingArguments);
        }
        match find(&self.entries, &key) {
            None => {
                self.insert_new(key, Value::Members(members));
                Ok(Reply::Done)
            },
            Some(i) => {
                let ghost db0 = self@;
                let (k, v) = self.take(i);
                match v {
                    Value::Members(mut s) => {
                        union_into(&mut s, &members);
                        self.insert_new(k, Value::Members(s));
                        Ok(Reply::Done)
                    },
                    Value::Fields(f) => {
                        self.insert_new(k, Value::Fields(f));
                        assert(self@ =~= db0);
                        Err(StoreError::WrongType)
                    },
                }
            },
        }
    }

    fn set_remove(&mut self, key: String, members: HashSet<u64>) -> (r: Result<Reply, StoreError>)
        requires
            old(self).wf(),
        ensures
            final(self).wf(),
            (final(self)@, outcome_view(r)) == step(
                old(self)@,
                CommandView::SetRemove { key: key@, members: members@ },
            ),
            r matches Ok(reply) ==> reply.wf(),
    {
        if members.is_empty() {
            return Err(StoreError::MissingArguments);
        }
        match find(&self.entries, &key) {
            None => Ok(Reply::Done),
            Some(i) => {
                let ghost db0 = self@;
                let (k, v) = self.take(i);
                match v {
                    Value::Members(mut s) => {
                        remove_all(&mut s, &members);
                        if !s.is_empty() {
                            self.insert_new(k, Value::Members(s));
                        }
                        Ok(Reply::Done)
                    },
                    Value::Fields(f) => {
                        self.insert_new(k, Value::Fields(f));
                        assert(self@ =~= db0);
                        Err(StoreError::WrongType)
                    },
                }
            },
        }
    }

    fn set_members(&self, key: &String) -> (r: Result<Reply, StoreError>)
        requires
            self.wf(),
        ensures
            (self@, outcome_view(r)) == step(self@, CommandView::SetMembers { key: key@ }),
            r matches Ok(reply) ==> reply.wf(),
    {
        match find(&self.entries, key) {
            None => {
                let s = HashSet::new();
                assert(s@ =~= Set::empty());
                Ok(Reply::Members(s))
            },
            Some(i) => match &self.entries[i].1 {
                Value::Members(s) => Ok(Reply::Members(copy_set(s))),
                Value::Fields(_) => Err(StoreError::WrongType),
            },
        }
    }

    fn hash_write(&mut self, key: String, fields: Vec<(String, String)>) -> (r: Result<
        Reply,
        StoreError,
    >)
        requires
            old(self).wf(),
        ensures
            final(self).wf(),
            (final(self)@, outcome_view(r)) == step(
                old(self)@,
                CommandView::HashWrite { key: key@, fields: entries_view(fields@) },
            ),
            r matches Ok(reply) ==> reply.wf(),
    {
        if fields.len() == 0 {
            return Err(StoreError::MissingArguments);
        }
        match find(&self.entries, &key) {
            None => {
                let mut f: Vec<(String, String)> = Vec::new();
                assert(entries_map(f@) =~= Map::empty());
                write_fields(&mut f, &fields);
                assert(entries_map(f@) =~= assoc(entries_view(fields@)));
                self.insert_new(key, Value::Fields(f));
                Ok(Reply::Done)
            },
            Some(i) => {
                let ghost db0 = self@;
                let (k, v) = self.take(i);
                match v {
                    Value::Fields(mut f) => {
                        write_fields(&mut f, &fields);
                        self.insert_new(k, Value::Fields(f));
                        Ok(Reply::Done)
                    },
                    Value::Members(s) => {
                        self.insert_new(k, Value::Members(s));
                        assert(self@ =~= db0);
                        Err(StoreError::WrongType)
                    },
                }
            },
        }
    }

    fn hash_get_all(&self, key: &String) -> (r: Result<Reply, StoreError>)
        requires
            self.wf(),
        ensures
            (self@, outcome_view(r)) == step(self@, CommandView::HashGetAll { key: key@ }),
            r matches Ok(reply) ==> reply.wf(),
    {
        match find(&self.entries, key) {
            None => {
                let f: Vec<(String, String)> = Vec::new();
                assert(entries_map(f@) =~= Map::empty());
                Ok(Reply::Fields(f))
            },
            Some(i) => {
                assert(value_wf(self.entries@[i as int].1));
                match &self.entries[i].1 {
                    Value::Fields(f) => Ok(Reply::Fields(copy_fields(f))),
                    Value::Members(_) => Err(StoreError::WrongType),
                }
            },
        }
    }

    fn key_exists(&self, key: &String) -> (r: Result<Reply, StoreError>)
        requires
            self.wf(),
        ensures
            (self@, outcome_view(r)) == step(self@, CommandView::Exists { key: key@ }),
            r matches Ok(reply) ==> reply.wf(),
    {
        let found = find(&self.entries, key);
        Ok(Reply::Flag(found.is_some()))
    }

    fn delete(&mut self, key: &String) -> (r: Result<Reply, StoreError>)
        requires
            old(self).wf(),
        ensures
            final(self).wf(),
            (final(self)@, outcome_view(r)) == step(old(self)@, CommandView::Delete { key: key@ }),
            r matches Ok(reply) ==> reply.wf(),
    {
        match find(&self.entries, key) {
            None => {
                assert(self@.remove(key@) =~= self@);
                Ok(Reply::Flag(false))
            },
            Some(i) => {
                let _ = self.take(i);
                Ok(Reply::Flag(true))
            },
        }
    }

    fn rename(&mut self, from: &String, to: String) -> (r: Result<Reply, StoreError>)
        requires
            old(self).wf(),
        ensures
            final(self).wf(),
            (final(self)@, outcome_view(r)) == step(
                old(self)@,
                CommandView::Rename { from: from@, to: to@ },
            ),
            r matches Ok(reply) ==> reply.wf(),
    {
        let ghost db0 = self@;
        match find(&self.entries, from) {
            None => Err(StoreError::NoSuchKey),
            Some(i) => {
                if *from == to {
                    return Ok(Reply::Done);
                }
                let (_, v) = self.take(i);
                match find(&self.entries, &to) {
                    Some(j) => {
                        let _ = self.take(j);
                    },
                    None => {},
                }
                self.insert_new(to, v);
                assert(self@ =~= db0.remove(from@).insert(to@, db0[from@]));
                Ok(Reply::Done)
            },
        }
    }
}

} // verus!
