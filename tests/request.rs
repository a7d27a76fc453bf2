use std::collections::HashSet;

use redis_db::command::Command;
use redis_db::device::{add_dev2clt_hash, remove_device};
use redis_db::groups::{add_group, get_group};
use redis_db::request::command_args;
use redis_db::users::{exists_user, remove_user};

fn args(cmd: &Command) -> Vec<String> {
    command_args(cmd).into_iter().map(|a| String::from_utf8(a).unwrap()).collect()
}

#[test]
fn single_key_commands_are_name_then_key() {
    assert_eq!(args(&get_group(123)), vec!["SMEMBERS", "group:123"]);
    assert_eq!(args(&exists_user(7)), vec!["EXISTS", "users:7"]);
    assert_eq!(args(&remove_device(1001, 1)), vec!["DEL", "client_device:1001:1"]);
}

#[test]
fn rename_names_both_keys() {
    assert_eq!(args(&remove_user(21)), vec!["RENAME", "users:21", "del_users:21"]);
}

#[test]
fn hash_write_lists_pairs_in_order() {
    let hm = vec![
        ("name".to_string(), "Device1".to_string()),
        ("os".to_string(), "linux".to_string()),
    ];
    assert_eq!(
        args(&add_dev2clt_hash(1001, 1, &hm)),
        vec!["HSET", "client_device:1001:1", "name", "Device1", "os", "linux"]
    );
}

#[test]
fn set_add_lists_each_member_once_in_decimal() {
    let hs: HashSet<u64> = [456, 789, 0, u64::MAX].into_iter().collect();
    let a = args(&add_group(123, &hs));
    assert_eq!(&a[..2], &["SADD".to_string(), "group:123".to_string()]);
    let mut members: Vec<String> = a[2..].to_vec();
    members.sort();
    assert_eq!(members, vec!["0", "18446744073709551615", "456", "789"]);
}

#[test]
fn text_is_sent_as_utf8() {
    let hm = vec![("名前".to_string(), "é".to_string())];
    let raw = command_args(&add_dev2clt_hash(1, 2, &hm));
    assert_eq!(raw[2], "名前".as_bytes().to_vec());
    assert_eq!(raw[3], vec![0xc3, 0xa9]);
}
