//! The device set of each client (`client_device:<id>`) and one record per
//! device (`client_device:<id>:<dev>`, a hash).

use std::collections::HashSet;
use vstd::prelude::*;
use crate::assoc::entries_view;
use crate::collections::{copy_fields, copy_set};
use crate::command::{Command, CommandView};
use crate::keys::{dev_hash_key, dev_list_key, get_clt_dev_hash_key, get_clt_dev_list_key};

verus! {

/// Adds the devices `devs` to client `clt`.
pub fn add_dev2clt(clt: u64, devs: &HashSet<u64>) -> (c: Command)
    ensures
        c@ == (CommandView::SetAdd { key: dev_list_key(clt), members: devs@ }),
{
    Command::SetAdd { key: get_clt_dev_list_key(clt), members: copy_set(devs) }
}

/// Removes the devices `devs` from client `clt`.
pub fn del_dev4clt(clt: u64, devs: &HashSet<u64>) -> (c: Command)
    ensures
        c@ == (CommandView::SetRemove { key: dev_list_key(clt), members: devs@ }),
{
    Command::SetRemove { key: get_clt_dev_list_key(clt), members: copy_set(devs) }
}

/// Reads all devices of client `clt`.
pub fn get_devclt_set(clt: u64) -> (c: Command)
    ensures
        c@ == (CommandView::SetMembers { key: dev_list_key(clt) }),
{
    Command::SetMembers { key: get_clt_dev_list_key(clt) }
}

/// Asks whether client `clt` has a device set.
pub fn exists_devclt(clt: u64) -> (c: Command)
    ensures
        c@ == (CommandView::Exists { key: dev_list_key(clt) }),
{
    Command::Exists { key: get_clt_dev_list_key(clt) }
}

/// Deletes the device set of client `clt`, answering whether it existed.
pub fn remove_devclt_set(clt: u64) -> (c: Command)
    ensures
        c@ == (CommandView::Delete { key: dev_list_key(clt) }),
{
    Command::Delete { key: get_clt_dev_list_key(clt) }
}

/// Writes the fields `hm` into the record of device `dev` of client `clt`;
/// a later pair for a field name wins over an earlier one.
pub fn add_dev2clt_hash(clt: u64, dev: u32, hm: &Vec<(String, String)>) -> (c: Command)
    ensures
        c@ == (CommandView::HashWrite { key: dev_hash_key(clt, dev), fields: entries_view(hm@) }),
{
    Command::HashWrite { key: get_clt_dev_hash_key(clt, dev), fields: copy_fields(hm) }
}

/// Reads the whole record of device `dev` of client `clt`.
pub fn get_device(clt: u64, dev: u32) -> (c: Command)
    ensures
        c@ == (CommandView::HashGetAll { key: dev_hash_key(clt, dev) }),
{
    Command::HashGetAll { key: get_clt_dev_hash_key(clt, dev) }
}

/// Asks whether device `dev` of client `clt` has a record.
pub fn exists_device(clt: u64, dev: u32) -> (c: Command)
    ensures
        c@ == (CommandView::Exists { key: dev_hash_key(clt, dev) }),
{
    Command::Exists { key: get_clt_dev_hash_key(clt, dev) }
}

/// Deletes the record of device `dev` of client `clt`, answering whether it
/// existed.
pub fn remove_device(clt: u64, dev: u32) -> (c: Command)
    ensures
        c@ == (CommandView::Delete { key: dev_hash_key(clt, dev) }),
{
    Command::Delete { key: get_clt_dev_hash_key(clt, dev) }
}

} // verus!
