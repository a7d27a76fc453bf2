//! How a command is spelled to the store: the command name followed by its
//! arguments, each a byte string. Text is sent as UTF-8 and numbers in
//! decimal.

use std::collections::HashSet;
use vstd::prelude::*;
use vstd::utf8::encode_utf8;
use crate::command::{Command, CommandView};
use crate::keys::decimal;

verus! {

/// Text as the bytes sent for it.
pub open spec fn text(s: Seq<char>) -> Seq<u8> {
    encode_utf8(s)
}

/// A number as the bytes sent for it.
pub open spec fn number(n: u64) -> Seq<u8> {
    text(decimal(n as nat))
}

/// Each field name followed by its value, pair after pair.
pub open spec fn field_args(fields: Seq<(Seq<char>, Seq<char>)>) -> Seq<Seq<u8>>
    decreases fields.len(),
{
    if fields.len() == 0 {
        Seq::empty()
    } else {
        field_args(fields.drop_last()) + seq![text(fields.last().0), text(fields.last().1)]
    }
}

/// `order` lists each member of `members` exactly once.
pub open spec fn lists(order: Seq<u64>, members: Set<u64>) -> bool {
    order.no_duplicates() && order.to_set() == members
}

/// The members a command carries; none for commands that carry no set.
pub open spec fn carried_members(cmd: CommandView) -> Set<u64> {
    match cmd {
        CommandView::SetAdd { members, .. } => members,
        CommandView::SetRemove { members, .. } => members,
        _ => Set::empty(),
    }
}

/// The name and arguments of `cmd`, with a set's members listed in `order`.
pub open spec fn request(cmd: CommandView, order: Seq<u64>) -> Seq<Seq<u8>> {
    match cmd {
        CommandView::SetAdd { key, .. } => seq![text("SADD"@), text(key)] + order.map_values(
            |m: u64| number(m),
        ),
        CommandView::SetRemove { key, .. } => seq![text("SREM"@), text(key)] + order.map_values(
            |m: u64| number(m),
        ),
        CommandView::SetMembers { key } => seq![text("SMEMBERS"@), text(key)],
        CommandView::HashWrite { key, fields } => seq![text("HSET"@), text(key)] + field_args(
            fields,
        ),
        CommandView::HashGetAll { key } => seq![text("HGETALL"@), text(key)],
        CommandView::Exists { key } => seq![text("EXISTS"@), text(key)],
        CommandView::Delete { key } => seq![text("DEL"@), text(key)],
        CommandView::Rename { from, to } => seq![text("RENAME"@), text(from), text(to)],
    }
}

/// The views of a list of byte strings.
pub open spec fn bytes_view(v: Seq<Vec<u8>>) -> Seq<Seq<u8>> {
    v.map_values(|a: Vec<u8>| a@)
}

fn push_text(out: &mut Vec<Vec<u8>>, s: &str)
    ensures
        bytes_view(final(out)@) == bytes_view(old(out)@).push(text(s@)),
{
    out.push(s.as_bytes_vec());
    assert(bytes_view(out@) =~= bytes_view(old(out)@).push(text(s@)));
}

fn push_number(out: &mut Vec<Vec<u8>>, n: u64)
    ensures
        bytes_view(final(out)@) == bytes_view(old(out)@).push(number(n)),
{
    let mut s = String::new();
    crate::keys::push_decimal(&mut s, n);
    assert(s@ =~= decimal(n as nat));
    push_text(out, s.as_str());
}

/// The empty list lists the empty set.
proof fn lemma_lists_nothing()
    ensures
        lists(Seq::empty(), Set::empty()),
{
    assert(Seq::<u64>::empty().to_set() =~= Set::empty());
}

/// Once every item of `items` has been listed, the list is `items` as a set.
proof fn lemma_listed_all(items: Seq<u64>, i: int, order: Seq<u64>, all: Set<u64>)
    requires
        items.to_set() == all,
        items.no_duplicates(),
        0 <= i <= items.len(),
        order == items.take(i),
    ensures
        i == items.len() ==> lists(order, all),
{
    if i == items.len() {
        assert(order =~= items);
    }
}

/// Appends every member of `members`, in the order the set hands them out.
fn push_members(out: &mut Vec<Vec<u8>>, members: &HashSet<u64>) -> (order: Ghost<Seq<u64>>)
    ensures
        lists(order@, members@),
        bytes_view(final(out)@) == bytes_view(old(out)@) + order@.map_values(|m: u64| number(m)),
{
    let ghost start = bytes_view(out@);
    let ghost mut order: Seq<u64> = Seq::empty();
    proof {
        lemma_lists_nothing();
        assert forall|s: Seq<u64>| s.len() == 0 implies #[trigger] s.to_set() == Set::<u64>::empty() by {
            assert(s =~= Seq::<u64>::empty());
        }
    }
    for x in it: members.iter()
        invariant
            it.seq().unref().to_set() == members@,
            it.seq().unref().no_duplicates(),
            order == it.seq().unref().take(it.index() as int),
            bytes_view(out@) == start + order.map_values(|m: u64| number(m)),
            it.index() == it.seq().len() ==> lists(order, members@),
    {
        proof {
            order = order.push(*x);
        }
        push_number(out, *x);
        proof {
            assert(order.map_values(|m: u64| number(m)) =~= order.drop_last().map_values(
                |m: u64| number(m),
            ).push(number(*x)));
            assert(order =~= it.seq().unref().take(it.index() + 1));
            lemma_listed_all(it.seq().unref(), it.index() + 1, order, members@);
        }
    }
    Ghost(order)
}

/// Appends each field name followed by its value.
fn push_fields(out: &mut Vec<Vec<u8>>, fields: &Vec<(String, String)>)
    ensures
        bytes_view(final(out)@) == bytes_view(old(out)@) + field_args(
            crate::assoc::entries_view(fields@),
        ),
{
    let ghost start = bytes_view(out@);
    let mut i: usize = 0;
    while i < fields.len()
        invariant
            i <= fields.len(),
            bytes_view(out@) == start + field_args(
                crate::assoc::entries_view(fields@.take(i as int)),
            ),
        decreases fields.len() - i,
    {
        push_text(out, fields[i].0.as_str());
        push_text(out, fields[i].1.as_str());
        proof {
            let t = crate::assoc::entries_view(fields@.take(i as int + 1));
            assert(t.drop_last() =~= crate::assoc::entries_view(fields@.take(i as int)));
        }
        i = i + 1;
        proof {
            let t = crate::assoc::entries_view(fields@.take(i as int));
            assert(bytes_view(out@) =~= start + field_args(t));
        }
    }
    assert(fields@.take(i as int) =~= fields@);
}

/// The name and arguments to send for `cmd`. The members of a set are listed
/// once each, in an order the set chooses.
pub fn command_args(cmd: &Command) -> (r: Vec<Vec<u8>>)
    ensures
        exists|order: Seq<u64>|
            lists(order, carried_members(cmd@)) && bytes_view(r@) == request(cmd@, order),
{
    let mut r: Vec<Vec<u8>> = Vec::new();
    assert(bytes_view(r@) =~= Seq::empty());
    match cmd {
        Command::SetAdd { key, members } => {
            push_text(&mut r, "SADD");
            push_text(&mut r, key.as_str());
            let order = push_members(&mut r, members);
            assert(bytes_view(r@) =~= request(cmd@, order@));
        },
        Command::SetRemove { key, members } => {
            push_text(&mut r, "SREM");
            push_text(&mut r, key.as_str());
            let order = push_members(&mut r, members);
            assert(bytes_view(r@) =~= request(cmd@, order@));
        },
        Command::SetMembers { key } => {
            push_text(&mut r, "SMEMBERS");
            push_text(&mut r, key.as_str());
            proof {
                lemma_lists_nothing();
            }
            assert(bytes_view(r@) =~= request(cmd@, Seq::empty()));
        },
        Command::HashWrite { key, fields } => {
            push_text(&mut r, "HSET");
            push_text(&mut r, key.as_str());
            push_fields(&mut r, fields);
            proof {
                lemma_lists_nothing();
            }
            assert(bytes_view(r@) =~= request(cmd@, Seq::empty()));
        },
        Command::HashGetAll { key } => {
            push_text(&mut r, "HGETALL");
            push_text(&mut r, key.as_str());
            proof {
                lemma_lists_nothing();
            }
            assert(bytes_view(r@) =~= request(cmd@, Seq::empty()));
        },
        Command::Exists { key } => {
            push_text(&mut r, "EXISTS");
            push_text(&mut r, key.as_str());
            proof {
                lemma_lists_nothing();
            }
            assert(bytes_view(r@) =~= request(cmd@, Seq::empty()));
        },
        Command::Delete { key } => {
            push_text(&mut r, "DEL");
            push_text(&mut r, key.as_str());
            proof {
                lemma_lists_nothing();
            }
            assert(bytes_view(r@) =~= request(cmd@, Seq::empty()));
        },
        Command::Rename { from, to } => {
            push_text(&mut r, "RENAME");
            push_text(&mut r, from.as_str());
            push_text(&mut r, to.as_str());
            proof {
                lemma_lists_nothing();
            }
            assert(bytes_view(r@) =~= request(cmd@, Seq::empty()));
        },
    }
    r
}

} // verus!
