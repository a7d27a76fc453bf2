use redis_db::keys::{
    get_clt_dev_hash_key, get_clt_dev_list_key, get_del_user_key, get_group_conts_key,
    get_group_key, get_user_conts_key, get_user_key,
};

#[test]
fn user_keys_are_prefixed_decimal() {
    assert_eq!(get_user_key(42), "users:42");
    assert_eq!(get_del_user_key(42), "del_users:42");
    assert_eq!(get_user_conts_key(7), "conts_user:7");
    assert_eq!(get_group_conts_key(7), "conts_group:7");
}

#[test]
fn group_key_of_zero_and_largest_id() {
    assert_eq!(get_group_key(0), "group:0");
    assert_eq!(get_group_key(123), "group:123");
    assert_eq!(get_group_key(u64::MAX), "group:18446744073709551615");
}

#[test]
fn device_keys() {
    assert_eq!(get_clt_dev_list_key(1001), "client_device:1001");
    assert_eq!(get_clt_dev_hash_key(1001, 1), "client_device:1001:1");
    assert_eq!(get_clt_dev_hash_key(10, 0), "client_device:10:0");
    assert_eq!(
        get_clt_dev_hash_key(u64::MAX, u32::MAX),
        "client_device:18446744073709551615:4294967295"
    );
}

#[test]
fn keys_with_round_numbers_keep_their_zeros() {
    assert_eq!(get_user_key(100), "users:100");
    assert_eq!(get_user_key(9), "users:9");
    assert_eq!(get_user_key(10), "users:10");
}
