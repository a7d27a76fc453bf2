//! User records (`users:<id>`, hashes), removed user records
//! (`del_users:<id>`), and the contact sets of users (`conts_user:<id>`) and
//! groups (`conts_group:<id>`).

use std::collections::HashSet;
use vstd::prelude::*;
use crate::assoc::entries_view;
use crate::collections::{copy_fields, copy_set};
use crate::command::{Command, CommandView};
use crate::keys::{
    del_user_key, get_del_user_key, get_group_conts_key, get_user_conts_key, get_user_key,
    group_conts_key, user_conts_key, user_key,
};

verus! {

/// Writes the fields `hm` into the record of user `clt`; a later pair for a
/// field name wins over an earlier one.
pub fn add_user(clt: u64, hm: &Vec<(String, String)>) -> (c: Command)
    ensures
        c@ == (CommandView::HashWrite { key: user_key(clt), fields: entries_view(hm@) }),
{
    Command::HashWrite { key: get_user_key(clt), fields: copy_fields(hm) }
}

/// Reads the whole record of user `clt`.
pub fn get_user(clt: u64) -> (c: Command)
    ensures
        c@ == (CommandView::HashGetAll { key: user_key(clt) }),
{
    Command::HashGetAll { key: get_user_key(clt) }
}

/// Asks whether user `clt` has a record.
pub fn exists_user(clt: u64) -> (c: Command)
    ensures
        c@ == (CommandView::Exists { key: user_key(clt) }),
{
    Command::Exists { key: get_user_key(clt) }
}

/// Moves the record of user `clt` to the removed-user namespace. The store
/// refuses this when the user has no record.
pub fn remove_user(clt: u64) -> (c: Command)
    ensures
        c@ == (CommandView::Rename { from: user_key(clt), to: del_user_key(clt) }),
{
    Command::Rename { from: get_user_key(clt), to: get_del_user_key(clt) }
}

/// Adds the contacts `hs` to user `clt`.
pub fn add_user_contacts(clt: u64, hs: &HashSet<u64>) -> (c: Command)
    ensures
        c@ == (CommandView::SetAdd { key: user_conts_key(clt), members: hs@ }),
{
    Command::SetAdd { key: get_user_conts_key(clt), members: copy_set(hs) }
}

/// Removes the contacts `hs` from user `clt`.
pub fn del_user_contacts(clt: u64, hs: &HashSet<u64>) -> (c: Command)
    ensures
        c@ == (CommandView::SetRemove { key: user_conts_key(clt), members: hs@ }),
{
    Command::SetRemove { key: get_user_conts_key(clt), members: copy_set(hs) }
}

/// Reads all contacts of user `clt`.
pub fn get_user_contacts(clt: u64) -> (c: Command)
    ensures
        c@ == (CommandView::SetMembers { key: user_conts_key(clt) }),
{
    Command::SetMembers { key: get_user_conts_key(clt) }
}

/// Adds the contacts `hs` to group `clt`.
pub fn add_group_contacts(clt: u64, hs: &HashSet<u64>) -> (c: Command)
    ensures
        c@ == (CommandView::SetAdd { key: group_conts_key(clt), members: hs@ }),
{
    Command::SetAdd { key: get_group_conts_key(clt), members: copy_set(hs) }
}

/// Removes the contacts `hs` from group `clt`.
pub fn del_group_contacts(clt: u64, hs: &HashSet<u64>) -> (c: Command)
    ensures
        c@ == (CommandView::SetRemove { key: group_conts_key(clt), members: hs@ }),
{
    Command::SetRemove { key: get_group_conts_key(clt), members: copy_set(hs) }
}

/// Reads all contacts of group `clt`.
pub fn get_group_contacts(clt: u64) -> (c: Command)
    ensures
        c@ == (CommandView::SetMembers { key: group_conts_key(clt) }),
{
    Command::SetMembers { key: get_group_conts_key(clt) }
}

} // verus!
