//! What holds of the store across several commands.

use vstd::prelude::*;
use crate::assoc::assoc;
use crate::command::{answer, next_db, CommandView, Db, Entry, ReplyView, StoreError};
use crate::keys::{del_user_key, lemma_user_keys_differ, user_key};

verus! {

/// The set held at `key`; empty where `key` holds none.
pub open spec fn members_at(db: Db, key: Seq<char>) -> Set<u64> {
    if db.contains_key(key) {
        match db[key] {
            Entry::Members(s) => s,
            Entry::Fields(_) => Set::empty(),
        }
    } else {
        Set::empty()
    }
}

/// The hash held at `key`; empty where `key` holds none.
pub open spec fn fields_at(db: Db, key: Seq<char>) -> Map<Seq<char>, Seq<char>> {
    if db.contains_key(key) {
        match db[key] {
            Entry::Fields(m) => m,
            Entry::Members(_) => Map::empty(),
        }
    } else {
        Map::empty()
    }
}

/// `key` does not hold a hash.
pub open spec fn holds_no_hash(db: Db, key: Seq<char>) -> bool {
    db.contains_key(key) ==> db[key] is Members
}

/// `key` does not hold a set.
pub open spec fn holds_no_set(db: Db, key: Seq<char>) -> bool {
    db.contains_key(key) ==> db[key] is Fields
}

/// Reading a set right after adding members to it gives what it held together
/// with the added members; a set that did not exist reads back exactly the
/// added members.
pub proof fn read_after_add_members(db: Db, key: Seq<char>, payload: Set<u64>)
    requires
        !payload.is_empty(),
        holds_no_hash(db, key),
    ensures
        answer(next_db(db, CommandView::SetAdd { key, members: payload }), CommandView::SetMembers { key })
            == Ok::<ReplyView, StoreError>(ReplyView::Members(members_at(db, key).union(payload))),
        !db.contains_key(key) ==> answer(
            next_db(db, CommandView::SetAdd { key, members: payload }),
            CommandView::SetMembers { key },
        ) == Ok::<ReplyView, StoreError>(ReplyView::Members(payload)),
{
    assert(Set::<u64>::empty().union(payload) =~= payload);
}

/// Reading a hash right after writing fields into it gives what it held, with
/// the written fields overriding; a hash that did not exist reads back exactly
/// the written fields.
pub proof fn read_after_write_fields(
    db: Db,
    key: Seq<char>,
    fields: Seq<(Seq<char>, Seq<char>)>,
)
    requires
        fields.len() > 0,
        holds_no_set(db, key),
    ensures
        answer(next_db(db, CommandView::HashWrite { key, fields }), CommandView::HashGetAll { key })
            == Ok::<ReplyView, StoreError>(
            ReplyView::Fields(fields_at(db, key).union_prefer_right(assoc(fields))),
        ),
        !db.contains_key(key) ==> answer(
            next_db(db, CommandView::HashWrite { key, fields }),
            CommandView::HashGetAll { key },
        ) == Ok::<ReplyView, StoreError>(ReplyView::Fields(assoc(fields))),
{
    assert(Map::<Seq<char>, Seq<char>>::empty().union_prefer_right(assoc(fields)) =~= assoc(
        fields,
    ));
}

/// Removing the members just added leaves none of them in the set: what
/// remains is what the set held before, less those members.
pub proof fn remove_after_add_members(db: Db, key: Seq<char>, payload: Set<u64>)
    requires
        !payload.is_empty(),
        holds_no_hash(db, key),
    ensures
        ({
            let added = next_db(db, CommandView::SetAdd { key, members: payload });
            let removed = next_db(added, CommandView::SetRemove { key, members: payload });
            &&& answer(removed, CommandView::SetMembers { key }) == Ok::<ReplyView, StoreError>(
                ReplyView::Members(members_at(db, key).difference(payload)),
            )
            &&& forall|x: u64| #[trigger] payload.contains(x) ==> !members_at(removed, key).contains(x)
        }),
{
    let s = members_at(db, key);
    assert(s.union(payload).difference(payload) =~= s.difference(payload));
    let added = next_db(db, CommandView::SetAdd { key, members: payload });
    let removed = next_db(added, CommandView::SetRemove { key, members: payload });
    if s.difference(payload).is_empty() {
        assert(!removed.contains_key(key));
        assert(members_at(removed, key) =~= s.difference(payload));
    }
}

/// No key exists in an empty store, and a key exists right after an add or a
/// field write to it succeeds.
pub proof fn exists_before_and_after_add(
    db: Db,
    key: Seq<char>,
    payload: Set<u64>,
    fields: Seq<(Seq<char>, Seq<char>)>,
)
    ensures
        answer(Db::empty(), CommandView::Exists { key }) == Ok::<ReplyView, StoreError>(
            ReplyView::Flag(false),
        ),
        answer(db, CommandView::SetAdd { key, members: payload }) is Ok ==> answer(
            next_db(db, CommandView::SetAdd { key, members: payload }),
            CommandView::Exists { key },
        ) == Ok::<ReplyView, StoreError>(ReplyView::Flag(true)),
        answer(db, CommandView::HashWrite { key, fields }) is Ok ==> answer(
            next_db(db, CommandView::HashWrite { key, fields }),
            CommandView::Exists { key },
        ) == Ok::<ReplyView, StoreError>(ReplyView::Flag(true)),
{
}

/// Deleting a key answers whether it existed; deleting it again answers false.
pub proof fn delete_answers_once(db: Db, key: Seq<char>)
    ensures
        answer(db, CommandView::Delete { key }) == Ok::<ReplyView, StoreError>(
            ReplyView::Flag(db.contains_key(key)),
        ),
        answer(next_db(db, CommandView::Delete { key }), CommandView::Delete { key }) == Ok::<
            ReplyView,
            StoreError,
        >(ReplyView::Flag(false)),
{
}

/// Removing a user moves its record: afterwards the user does not exist, the
/// removed-user key reads back the former record, and removing the user again
/// is refused.
pub proof fn remove_user_moves_record(db: Db, id: u64)
    requires
        db.contains_key(user_key(id)),
        db[user_key(id)] is Fields,
    ensures
        ({
            let rename = CommandView::Rename { from: user_key(id), to: del_user_key(id) };
            let after = next_db(db, rename);
            &&& answer(db, rename) == Ok::<ReplyView, StoreError>(ReplyView::Done)
            &&& answer(after, CommandView::Exists { key: user_key(id) }) == Ok::<
                ReplyView,
                StoreError,
            >(ReplyView::Flag(false))
            &&& answer(after, CommandView::HashGetAll { key: del_user_key(id) }) == Ok::<
                ReplyView,
                StoreError,
            >(ReplyView::Fields(fields_at(db, user_key(id))))
            &&& answer(after, rename) == Err::<ReplyView, StoreError>(StoreError::NoSuchKey)
        }),
{
    lemma_user_keys_differ(id);
}

} // verus!
