//! Group member sets, stored at `group:<id>`.

use std::collections::HashSet;
use vstd::prelude::*;
use crate::collections::copy_set;
use crate::command::{Command, CommandView};
use crate::keys::{get_group_key, group_key};

verus! {

/// Adds the members `hs` to group `clt`.
pub fn add_group(clt: u64, hs: &HashSet<u64>) -> (c: Command)
    ensures
        c@ == (CommandView::SetAdd { key: group_key(clt), members: hs@ }),
{
    Command::SetAdd { key: get_group_key(clt), members: copy_set(hs) }
}

/// Removes the members `hs` from group `clt`.
pub fn del_group(clt: u64, hs: &HashSet<u64>) -> (c: Command)
    ensures
        c@ == (CommandView::SetRemove { key: group_key(clt), members: hs@ }),
{
    Command::SetRemove { key: get_group_key(clt), members: copy_set(hs) }
}

/// Reads all members of group `clt`.
pub fn get_group(clt: u64) -> (c: Command)
    ensures
        c@ == (CommandView::SetMembers { key: group_key(clt) }),
{
    Command::SetMembers { key: get_group_key(clt) }
}

/// Asks whether group `clt` exists.
pub fn exists_group(clt: u64) -> (c: Command)
    ensures
        c@ == (CommandView::Exists { key: group_key(clt) }),
{
    Command::Exists { key: get_group_key(clt) }
}

/// Deletes group `clt`, answering whether it existed.
pub fn remove_group(clt: u64) -> (c: Command)
    ensures
        c@ == (CommandView::Delete { key: group_key(clt) }),
{
    Command::Delete { key: get_group_key(clt) }
}

} // verus!
