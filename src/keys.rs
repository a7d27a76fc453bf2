//! Store keys: a fixed prefix per entity kind followed by the identifier in
//! decimal (and `:` and the device number for device records).

use vstd::prelude::*;

verus! {

/// The ten decimal digit characters, in order.
pub open spec fn digit_chars() -> Seq<char> {
    seq!['0', '1', '2', '3', '4', '5', '6', '7', '8', '9']
}

/// The decimal representation of `n`, most significant digit first, with no
/// leading zeros.
pub open spec fn decimal(n: nat) -> Seq<char>
    decreases n,
{
    if n < 10 {
        seq![digit_chars()[n as int]]
    } else {
        decimal(n / 10).push(digit_chars()[(n % 10) as int])
    }
}

/// Appends the decimal representation of `n` to `out`.
pub(crate) fn push_decimal(out: &mut String, n: u64)
    ensures
        final(out)@ == old(out)@ + decimal(n as nat),
    decreases n,
{
    if n >= 10 {
        push_decimal(out, n / 10);
    }
    let d = (n % 10) as usize;
    proof {
        reveal_strlit("0123456789");
    }
    let digit = "0123456789".substring_ascii(d, d + 1);
    assert(digit@ =~= seq![digit_chars()[d as int]]);
    out.append(digit);
}

/// Key of a user record (a hash): `users:<id>`.
pub open spec fn user_key(id: u64) -> Seq<char> {
    "users:"@ + decimal(id as nat)
}

/// Key under which a removed user's record is kept (a hash): `del_users:<id>`.
pub open spec fn del_user_key(id: u64) -> Seq<char> {
    "del_users:"@ + decimal(id as nat)
}

/// Key of a user's contact set: `conts_user:<id>`.
pub open spec fn user_conts_key(id: u64) -> Seq<char> {
    "conts_user:"@ + decimal(id as nat)
}

/// Key of a group's contact set: `conts_group:<id>`.
pub open spec fn group_conts_key(id: u64) -> Seq<char> {
    "conts_group:"@ + decimal(id as nat)
}

/// Key of a group's member set: `group:<id>`.
pub open spec fn group_key(id: u64) -> Seq<char> {
    "group:"@ + decimal(id as nat)
}

/// Key of a client's device set: `client_device:<id>`.
pub open spec fn dev_list_key(id: u64) -> Seq<char> {
    "client_device:"@ + decimal(id as nat)
}

/// Key of one device record of a client (a hash): `client_device:<id>:<dev>`.
pub open spec fn dev_hash_key(id: u64, dev: u32) -> Seq<char> {
    "client_device:"@ + decimal(id as nat) + ":"@ + decimal(dev as nat)
}

/// A user's record and the key it is moved to on removal are distinct keys.
pub proof fn lemma_user_keys_differ(id: u64)
    ensures
        user_key(id) != del_user_key(id),
{
    reveal_strlit("users:");
    reveal_strlit("del_users:");
    assert(user_key(id)[0] == 'u');
    assert(del_user_key(id)[0] == 'd');
}

/// A decimal representation is non-empty and holds no `:`.
pub proof fn lemma_decimal_has_no_colon(n: nat)
    ensures
        decimal(n).len() >= 1,
        forall|i: int| 0 <= i < decimal(n).len() ==> decimal(n)[i] != ':',
    decreases n,
{
    if n >= 10 {
        lemma_decimal_has_no_colon(n / 10);
    }
}

/// The keys under which sets are kept for identifier `id`.
pub open spec fn set_keys(id: u64) -> Set<Seq<char>> {
    set![group_key(id), user_conts_key(id), group_conts_key(id), dev_list_key(id)]
}

/// The keys under which hashes are kept for identifier `id` and device `dev`.
pub open spec fn hash_keys(id: u64, dev: u32) -> Set<Seq<char>> {
    set![user_key(id), del_user_key(id), dev_hash_key(id, dev)]
}

/// The structure a key holds is fixed by its prefix: no key used for a set is
/// ever used for a hash, whatever the identifiers.
pub proof fn lemma_set_keys_are_not_hash_keys(a: u64, b: u64, dev: u32)
    ensures
        forall|k: Seq<char>| set_keys(a).contains(k) ==> !hash_keys(b, dev).contains(k),
{
    reveal_strlit("users:");
    reveal_strlit("del_users:");
    reveal_strlit("conts_user:");
    reveal_strlit("conts_group:");
    reveal_strlit("group:");
    reveal_strlit("client_device:");
    reveal_strlit(":");
    let da = decimal(a as nat);
    let db = decimal(b as nat);
    let dd = decimal(dev as nat);
    assert(group_key(a)[0] == 'g');
    assert(user_conts_key(a)[1] == 'o');
    assert(group_conts_key(a)[1] == 'o');
    assert(dev_list_key(a)[0] == 'c' && dev_list_key(a)[1] == 'l');
    assert(user_key(b)[0] == 'u');
    assert(del_user_key(b)[0] == 'd');
    assert(dev_hash_key(b, dev)[0] == 'c' && dev_hash_key(b, dev)[1] == 'l');
    lemma_decimal_has_no_colon(a as nat);
    lemma_decimal_has_no_colon(b as nat);
    let i: int = 14 + db.len() as int;
    assert(dev_hash_key(b, dev)[i] == ':');
    assert(("client_device:"@).len() == 14);
    if dev_list_key(a) == dev_hash_key(b, dev) {
        assert(dev_list_key(a).len() == 14 + da.len());
        assert(dev_hash_key(b, dev).len() > i);
        assert(dev_list_key(a)[i] == da[i - 14]);
        assert(false);
    }
}

/// Builds `prefix` followed by `id` in decimal.
fn prefixed(prefix: &str, id: u64) -> (r: String)
    ensures
        r@ == prefix@ + decimal(id as nat),
{
    let mut r = String::from_str(prefix);
    push_decimal(&mut r, id);
    r
}

/// The key of the user record of `clt`.
pub fn get_user_key(clt: u64) -> (r: String)
    ensures
        r@ == user_key(clt),
{
    prefixed("users:", clt)
}

/// The key under which `remove_user` keeps the record of `clt`.
pub fn get_del_user_key(clt: u64) -> (r: String)
    ensures
        r@ == del_user_key(clt),
{
    prefixed("del_users:", clt)
}

/// The key of the contact set of user `clt`.
pub fn get_user_conts_key(clt: u64) -> (r: String)
    ensures
        r@ == user_conts_key(clt),
{
    prefixed("conts_user:", clt)
}

/// The key of the contact set of group `clt`.
pub fn get_group_conts_key(clt: u64) -> (r: String)
    ensures
        r@ == group_conts_key(clt),
{
    prefixed("conts_group:", clt)
}

/// The key of the member set of group `clt`.
pub fn get_group_key(clt: u64) -> (r: String)
    ensures
        r@ == group_key(clt),
{
    prefixed("group:", clt)
}

/// The key of the device set of client `clt`.
pub fn get_clt_dev_list_key(clt: u64) -> (r: String)
    ensures
        r@ == dev_list_key(clt),
{
    prefixed("client_device:", clt)
}

/// The key of device `dev`'s record under client `clt`.
pub fn get_clt_dev_hash_key(clt: u64, dev: u32) -> (r: String)
    ensures
        r@ == dev_hash_key(clt, dev),
{
    let mut r = prefixed("client_device:", clt);
    r.append(":");
    push_decimal(&mut r, dev as u64);
    r
}

} // verus!
