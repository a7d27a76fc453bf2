//! Store commands and replies, and what each command does to the store.
//!
//! The store maps string keys to either a set of `u64` members or a hash of
//! string fields. A command addresses one key (two for a rename).

use std::collections::HashSet;
use vstd::prelude::*;
use crate::assoc::{assoc, entries_view};

verus! {

/// What one key holds.
pub enum Entry {
    Members(Set<u64>),
    Fields(Map<Seq<char>, Seq<char>>),
}

/// The whole store: what each existing key holds.
pub type Db = Map<Seq<char>, Entry>;

/// Why the store refused a command.
#[derive(Clone, Copy, Debug, PartialEq, Eq, Structural)]
pub enum StoreError {
    /// The key holds a structure of the other type.
    WrongType,
    /// The key to rename does not exist.
    NoSuchKey,
    /// A bulk write was given nothing to write.
    MissingArguments,
}

/// One store command.
#[derive(Debug, PartialEq, Eq)]
pub enum Command {
    /// Add members to the set at `key` (creating it).
    SetAdd { key: String, members: HashSet<u64> },
    /// Remove members from the set at `key`; an emptied set ceases to exist.
    SetRemove { key: String, members: HashSet<u64> },
    /// Read the whole set at `key`.
    SetMembers { key: String },
    /// Write fields into the hash at `key` (creating it); later pairs win.
    HashWrite { key: String, fields: Vec<(String, String)> },
    /// Read the whole hash at `key`.
    HashGetAll { key: String },
    /// Whether `key` exists.
    Exists { key: String },
    /// Remove `key`, telling whether it existed.
    Delete { key: String },
    /// Move what `from` holds to `to`, replacing what `to` held.
    Rename { from: String, to: String },
}

/// A command seen as plain values.
pub enum CommandView {
    SetAdd { key: Seq<char>, members: Set<u64> },
    SetRemove { key: Seq<char>, members: Set<u64> },
    SetMembers { key: Seq<char> },
    HashWrite { key: Seq<char>, fields: Seq<(Seq<char>, Seq<char>)> },
    HashGetAll { key: Seq<char> },
    Exists { key: Seq<char> },
    Delete { key: Seq<char> },
    Rename { from: Seq<char>, to: Seq<char> },
}

impl View for Command {
    type V = CommandView;

    open spec fn view(&self) -> CommandView {
        match self {
            Command::SetAdd { key, members } => CommandView::SetAdd { key: key@, members: members@ },
            Command::SetRemove { key, members } => CommandView::SetRemove {
                key: key@,
                members: members@,
            },
            Command::SetMembers { key } => CommandView::SetMembers { key: key@ },
            Command::HashWrite { key, fields } => CommandView::HashWrite {
                key: key@,
                fields: entries_view(fields@),
            },
            Command::HashGetAll { key } => CommandView::HashGetAll { key: key@ },
            Command::Exists { key } => CommandView::Exists { key: key@ },
            Command::Delete { key } => CommandView::Delete { key: key@ },
            Command::Rename { from, to } => CommandView::Rename { from: from@, to: to@ },
        }
    }
}

/// The store's answer to a command that succeeded.
#[derive(Debug, PartialEq, Eq)]
pub enum Reply {
    /// A write was applied.
    Done,
    /// The members of a set.
    Members(HashSet<u64>),
    /// The fields of a hash, each name once.
    Fields(Vec<(String, String)>),
    /// The answer to a yes/no question.
    Flag(bool),
}

/// A reply seen as plain values.
pub enum ReplyView {
    Done,
    Members(Set<u64>),
    Fields(Map<Seq<char>, Seq<char>>),
    Flag(bool),
}

impl View for Reply {
    type V = ReplyView;

    open spec fn view(&self) -> ReplyView {
        match self {
            Reply::Done => ReplyView::Done,
            Reply::Members(s) => ReplyView::Members(s@),
            Reply::Fields(f) => ReplyView::Fields(assoc(entries_view(f@))),
            Reply::Flag(b) => ReplyView::Flag(*b),
        }
    }
}

impl Reply {
    /// A hash reply names each field once.
    pub open spec fn wf(&self) -> bool {
        match self {
            Reply::Fields(f) => crate::assoc::entries_wf(f@),
            _ => true,
        }
    }
}

/// The outcome of a command seen as plain values.
pub open spec fn outcome_view(r: Result<Reply, StoreError>) -> Result<ReplyView, StoreError> {
    match r {
        Ok(reply) => Ok(reply@),
        Err(e) => Err(e),
    }
}

/// The store after `cmd`.
pub open spec fn next_db(db: Db, cmd: CommandView) -> Db {
    step(db, cmd).0
}

/// The answer to `cmd`.
pub open spec fn answer(db: Db, cmd: CommandView) -> Result<ReplyView, StoreError> {
    step(db, cmd).1
}

/// What `cmd` does to `db`, and what the store answers.
pub open spec fn step(db: Db, cmd: CommandView) -> (Db, Result<ReplyView, StoreError>) {
    match cmd {
        CommandView::SetAdd { key, members } => {
            if members.is_empty() {
                (db, Err(StoreError::MissingArguments))
            } else if !db.contains_key(key) {
                (db.insert(key, Entry::Members(members)), Ok(ReplyView::Done))
            } else {
                match db[key] {
                    Entry::Members(s) => (
                        db.insert(key, Entry::Members(s.union(members))),
                        Ok(ReplyView::Done),
                    ),
                    Entry::Fields(_) => (db, Err(StoreError::WrongType)),
                }
            }
        },
        CommandView::SetRemove { key, members } => {
            if members.is_empty() {
                (db, Err(StoreError::MissingArguments))
            } else if !db.contains_key(key) {
                (db, Ok(ReplyView::Done))
            } else {
                match db[key] {
                    Entry::Members(s) => {
                        let rest = s.difference(members);
                        if rest.is_empty() {
                            (db.remove(key), Ok(ReplyView::Done))
                        } else {
                            (db.insert(key, Entry::Members(rest)), Ok(ReplyView::Done))
                        }
                    },
                    Entry::Fields(_) => (db, Err(StoreError::WrongType)),
                }
            }
        },
        CommandView::SetMembers { key } => {
            if !db.contains_key(key) {
                (db, Ok(ReplyView::Members(Set::empty())))
            } else {
                match db[key] {
                    Entry::Members(s) => (db, Ok(ReplyView::Members(s))),
                    Entry::Fields(_) => (db, Err(StoreError::WrongType)),
                }
            }
        },
        CommandView::HashWrite { key, fields } => {
            if fields.len() == 0 {
                (db, Err(StoreError::MissingArguments))
            } else if !db.contains_key(key) {
                (db.insert(key, Entry::Fields(assoc(fields))), Ok(ReplyView::Done))
            } else {
                match db[key] {
                    Entry::Fields(m) => (
                        db.insert(key, Entry::Fields(m.union_prefer_right(assoc(fields)))),
                        Ok(ReplyView::Done),
                    ),
                    Entry::Members(_) => (db, Err(StoreError::WrongType)),
                }
            }
        },
        CommandView::HashGetAll { key } => {
            if !db.contains_key(key) {
                (db, Ok(ReplyView::Fields(Map::empty())))
            } else {
                match db[key] {
                    Entry::Fields(m) => (db, Ok(ReplyView::Fields(m))),
                    Entry::Members(_) => (db, Err(StoreError::WrongType)),
                }
            }
        },
        CommandView::Exists { key } => (db, Ok(ReplyView::Flag(db.contains_key(key)))),
        CommandView::Delete { key } => (db.remove(key), Ok(ReplyView::Flag(db.contains_key(key)))),
        CommandView::Rename { from, to } => {
            if !db.contains_key(from) {
                (db, Err(StoreError::NoSuchKey))
            } else if from == to {
                (db, Ok(ReplyView::Done))
            } else {
                (db.remove(from).insert(to, db[from]), Ok(ReplyView::Done))
            }
        },
    }
}

} // verus!
