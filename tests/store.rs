use std::collections::HashSet;

use redis_db::command::{Command, Reply, StoreError};
use redis_db::device::{
    add_dev2clt, add_dev2clt_hash, del_dev4clt, exists_devclt, exists_device, get_devclt_set,
    get_device, remove_devclt_set, remove_device,
};
use redis_db::groups::{add_group, del_group, exists_group, get_group, remove_group};
use redis_db::memstore::MemStore;
use redis_db::users::{
    add_group_contacts, add_user, add_user_contacts, del_group_contacts, del_user_contacts,
    exists_user, get_group_contacts, get_user, get_user_contacts, remove_user,
};

fn set(items: &[u64]) -> HashSet<u64> {
    items.iter().copied().collect()
}

fn fields(pairs: &[(&str, &str)]) -> Vec<(String, String)> {
    pairs.iter().map(|(a, b)| (a.to_string(), b.to_string())).collect()
}

fn sorted(reply: Result<Reply, StoreError>) -> Vec<(String, String)> {
    match reply {
        Ok(Reply::Fields(mut f)) => {
            f.sort();
            f
        }
        other => panic!("expected fields, got {:?}", other),
    }
}

#[test]
fn group_add_read_and_remove_members() {
    let mut st = MemStore::new();
    assert_eq!(st.execute(add_group(123, &set(&[456, 789]))), Ok(Reply::Done));
    assert_eq!(st.execute(get_group(123)), Ok(Reply::Members(set(&[456, 789]))));
    assert_eq!(st.execute(del_group(123, &set(&[456]))), Ok(Reply::Done));
    assert_eq!(st.execute(get_group(123)), Ok(Reply::Members(set(&[789]))));
}

#[test]
fn device_record_written_read_and_removed() {
    let mut st = MemStore::new();
    let hm = fields(&[("name", "Device1")]);
    assert_eq!(st.execute(add_dev2clt_hash(1001, 1, &hm)), Ok(Reply::Done));
    assert_eq!(st.execute(get_device(1001, 1)), Ok(Reply::Fields(hm)));
    assert_eq!(st.execute(remove_device(1001, 1)), Ok(Reply::Flag(true)));
    assert_eq!(st.execute(exists_device(1001, 1)), Ok(Reply::Flag(false)));
}

#[test]
fn read_after_add_is_union_with_what_was_there() {
    let mut st = MemStore::new();
    st.execute(add_user_contacts(5, &set(&[1, 2]))).unwrap();
    assert_eq!(st.execute(get_user_contacts(5)), Ok(Reply::Members(set(&[1, 2]))));
    st.execute(add_user_contacts(5, &set(&[2, 3]))).unwrap();
    assert_eq!(st.execute(get_user_contacts(5)), Ok(Reply::Members(set(&[1, 2, 3]))));
}

#[test]
fn read_after_write_overrides_fields() {
    let mut st = MemStore::new();
    st.execute(add_user(9, &fields(&[("name", "ann"), ("age", "30")]))).unwrap();
    st.execute(add_user(9, &fields(&[("age", "31"), ("city", "oslo")]))).unwrap();
    assert_eq!(
        sorted(st.execute(get_user(9))),
        fields(&[("age", "31"), ("city", "oslo"), ("name", "ann")])
    );
}

#[test]
fn later_pair_for_a_field_wins_within_one_write() {
    let mut st = MemStore::new();
    st.execute(add_user(9, &fields(&[("k", "first"), ("k", "second")]))).unwrap();
    assert_eq!(st.execute(get_user(9)), Ok(Reply::Fields(fields(&[("k", "second")]))));
}

#[test]
fn remove_after_add_leaves_none_of_the_payload() {
    let mut st = MemStore::new();
    st.execute(add_group_contacts(8, &set(&[1]))).unwrap();
    st.execute(add_group_contacts(8, &set(&[2, 3]))).unwrap();
    st.execute(del_group_contacts(8, &set(&[2, 3]))).unwrap();
    assert_eq!(st.execute(get_group_contacts(8)), Ok(Reply::Members(set(&[1]))));
}

#[test]
fn emptied_set_no_longer_exists() {
    let mut st = MemStore::new();
    st.execute(add_dev2clt(4, &set(&[10, 11]))).unwrap();
    assert_eq!(st.execute(exists_devclt(4)), Ok(Reply::Flag(true)));
    st.execute(del_dev4clt(4, &set(&[10, 11, 12]))).unwrap();
    assert_eq!(st.execute(exists_devclt(4)), Ok(Reply::Flag(false)));
    assert_eq!(st.execute(get_devclt_set(4)), Ok(Reply::Members(HashSet::new())));
}

#[test]
fn exists_false_before_any_write_and_true_after_add() {
    let mut st = MemStore::new();
    assert_eq!(st.execute(exists_group(77)), Ok(Reply::Flag(false)));
    assert_eq!(st.execute(exists_user(77)), Ok(Reply::Flag(false)));
    st.execute(add_group(77, &set(&[1]))).unwrap();
    st.execute(add_user(77, &fields(&[("a", "b")]))).unwrap();
    assert_eq!(st.execute(exists_group(77)), Ok(Reply::Flag(true)));
    assert_eq!(st.execute(exists_user(77)), Ok(Reply::Flag(true)));
}

#[test]
fn delete_answers_true_once() {
    let mut st = MemStore::new();
    st.execute(add_group(3, &set(&[1]))).unwrap();
    assert_eq!(st.execute(remove_group(3)), Ok(Reply::Flag(true)));
    assert_eq!(st.execute(remove_group(3)), Ok(Reply::Flag(false)));
    st.execute(add_dev2clt(3, &set(&[1]))).unwrap();
    assert_eq!(st.execute(remove_devclt_set(3)), Ok(Reply::Flag(true)));
    assert_eq!(st.execute(remove_devclt_set(3)), Ok(Reply::Flag(false)));
}

#[test]
fn read_of_missing_keys_is_empty() {
    let mut st = MemStore::new();
    assert_eq!(st.execute(get_group(1)), Ok(Reply::Members(HashSet::new())));
    assert_eq!(st.execute(get_user(1)), Ok(Reply::Fields(Vec::new())));
}

#[test]
fn remove_user_moves_the_record() {
    let mut st = MemStore::new();
    let hm = fields(&[("name", "bob")]);
    st.execute(add_user(21, &hm)).unwrap();
    assert_eq!(st.execute(remove_user(21)), Ok(Reply::Done));
    assert_eq!(st.execute(exists_user(21)), Ok(Reply::Flag(false)));
    let read_deleted = Command::HashGetAll { key: "del_users:21".to_string() };
    assert_eq!(st.execute(read_deleted), Ok(Reply::Fields(hm)));
    assert_eq!(st.execute(remove_user(21)), Err(StoreError::NoSuchKey));
}

#[test]
fn remove_user_replaces_an_earlier_removed_record() {
    let mut st = MemStore::new();
    st.execute(add_user(2, &fields(&[("v", "1")]))).unwrap();
    st.execute(remove_user(2)).unwrap();
    st.execute(add_user(2, &fields(&[("v", "2")]))).unwrap();
    st.execute(remove_user(2)).unwrap();
    let read_deleted = Command::HashGetAll { key: "del_users:2".to_string() };
    assert_eq!(st.execute(read_deleted), Ok(Reply::Fields(fields(&[("v", "2")]))));
}

#[test]
fn rename_onto_itself_changes_nothing() {
    let mut st = MemStore::new();
    st.execute(add_user(6, &fields(&[("a", "b")]))).unwrap();
    let same = Command::Rename { from: "users:6".to_string(), to: "users:6".to_string() };
    assert_eq!(st.execute(same), Ok(Reply::Done));
    assert_eq!(st.execute(get_user(6)), Ok(Reply::Fields(fields(&[("a", "b")]))));
}

#[test]
fn empty_payloads_are_refused() {
    let mut st = MemStore::new();
    assert_eq!(st.execute(add_group(1, &HashSet::new())), Err(StoreError::MissingArguments));
    assert_eq!(st.execute(del_group(1, &HashSet::new())), Err(StoreError::MissingArguments));
    assert_eq!(st.execute(add_user(1, &Vec::new())), Err(StoreError::MissingArguments));
    assert_eq!(st.execute(exists_group(1)), Ok(Reply::Flag(false)));
    assert_eq!(st.execute(exists_user(1)), Ok(Reply::Flag(false)));
}

#[test]
fn commands_of_the_other_structure_are_refused() {
    let mut st = MemStore::new();
    st.execute(add_user(1, &fields(&[("a", "b")]))).unwrap();
    st.execute(add_group(1, &set(&[5]))).unwrap();
    let set_on_hash = Command::SetAdd { key: "users:1".to_string(), members: set(&[1]) };
    assert_eq!(st.execute(set_on_hash), Err(StoreError::WrongType));
    let read_hash_as_set = Command::SetMembers { key: "users:1".to_string() };
    assert_eq!(st.execute(read_hash_as_set), Err(StoreError::WrongType));
    let hash_on_set = Command::HashWrite { key: "group:1".to_string(), fields: fields(&[("x", "y")]) };
    assert_eq!(st.execute(hash_on_set), Err(StoreError::WrongType));
    let read_set_as_hash = Command::HashGetAll { key: "group:1".to_string() };
    assert_eq!(st.execute(read_set_as_hash), Err(StoreError::WrongType));
    assert_eq!(st.execute(get_user(1)), Ok(Reply::Fields(fields(&[("a", "b")]))));
    assert_eq!(st.execute(get_group(1)), Ok(Reply::Members(set(&[5]))));
}

#[test]
fn builders_address_the_entity_keys() {
    assert_eq!(get_group(5), Command::SetMembers { key: "group:5".to_string() });
    assert_eq!(
        remove_user(5),
        Command::Rename { from: "users:5".to_string(), to: "del_users:5".to_string() }
    );
    assert_eq!(
        add_dev2clt_hash(5, 2, &fields(&[("n", "d")])),
        Command::HashWrite { key: "client_device:5:2".to_string(), fields: fields(&[("n", "d")]) }
    );
    assert_eq!(
        del_user_contacts(5, &set(&[1])),
        Command::SetRemove { key: "conts_user:5".to_string(), members: set(&[1]) }
    );
}

#[test]
fn entities_with_one_id_do_not_share_keys() {
    let mut st = MemStore::new();
    st.execute(add_group(1, &set(&[1]))).unwrap();
    st.execute(add_user_contacts(1, &set(&[2]))).unwrap();
    st.execute(add_group_contacts(1, &set(&[3]))).unwrap();
    st.execute(add_dev2clt(1, &set(&[4]))).unwrap();
    st.execute(add_dev2clt_hash(1, 1, &fields(&[("d", "1")]))).unwrap();
    assert_eq!(st.execute(get_group(1)), Ok(Reply::Members(set(&[1]))));
    assert_eq!(st.execute(get_user_contacts(1)), Ok(Reply::Members(set(&[2]))));
    assert_eq!(st.execute(get_group_contacts(1)), Ok(Reply::Members(set(&[3]))));
    assert_eq!(st.execute(get_devclt_set(1)), Ok(Reply::Members(set(&[4]))));
    assert_eq!(st.execute(get_device(1, 1)), Ok(Reply::Fields(fields(&[("d", "1")]))));
}
