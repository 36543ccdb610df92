//! What holds of the calls this crate issues, when the engine does with
//! them what [`crate::model`] says.

use vstd::prelude::*;

use crate::column_family::destroy_calls;
use crate::db::DB;
use crate::db_iterator::{Cursor, Direction, Position, SeekView};
use crate::db_options::{ReadOptions, WriteOptions};
use crate::engine::CallView;
use crate::handle::{CfPtr, ConstHandle, DbPtr, Handle};
use crate::model::{
    key_lt, lists, ordered, place_of, place_past, store_with, value_at, Engine, Store, Walk,
};
use crate::ops::iter::{Iterate, IterateCF};
use crate::ops::delete::DeleteCF;
use crate::ops::get::{GetCF, Read};
use crate::ops::put::{PutCF, Write};
use crate::secondary_db::SecondaryDB;
use crate::snapshot::Snapshot;

verus! {

/// One write to a key: a value put there, or the key removed.
pub enum WriteOp {
    Put { key: Seq<u8>, value: Seq<u8> },
    Delete { key: Seq<u8> },
}

impl WriteOp {
    /// The key written to.
    pub open spec fn key(self) -> Seq<u8> {
        match self {
            WriteOp::Put { key, .. } => key,
            WriteOp::Delete { key } => key,
        }
    }

    /// What the key holds once the write is made.
    pub open spec fn outcome(self) -> Option<Seq<u8>> {
        match self {
            WriteOp::Put { value, .. } => Some(value),
            WriteOp::Delete { .. } => None,
        }
    }
}

/// The call by which `target` makes the write `op` in the family `cf`.
pub open spec fn write_call<T: Handle<DbPtr> + Write>(
    target: &T,
    cf: Option<CfPtr>,
    op: WriteOp,
) -> CallView {
    match op {
        WriteOp::Put { key, value } => target.put_cf_call(cf, key, value, None::<&WriteOptions>),
        WriteOp::Delete { key } => target.delete_cf_call(cf, key, None::<&WriteOptions>),
    }
}

/// The calls by which `target` makes the writes `ops` in the family `cf`,
/// in order.
pub open spec fn write_calls<T: Handle<DbPtr> + Write>(
    target: &T,
    cf: Option<CfPtr>,
    ops: Seq<WriteOp>,
) -> Seq<CallView> {
    Seq::new(ops.len(), |i: int| write_call(target, cf, ops[i]))
}

/// The last write of `ops` to `key`, if there is one.
pub open spec fn last_write(ops: Seq<WriteOp>, key: Seq<u8>) -> Option<WriteOp>
    decreases ops.len(),
{
    if ops.len() == 0 {
        None
    } else if ops.last().key() == key {
        Some(ops.last())
    } else {
        last_write(ops.drop_last(), key)
    }
}

/// `store` after the writes `ops`, in order.
pub open spec fn store_after(store: Store, ops: Seq<WriteOp>) -> Store
    decreases ops.len(),
{
    if ops.len() == 0 {
        store
    } else {
        store_with(store_after(store, ops.drop_last()), ops.last().key(), ops.last().outcome())
    }
}

/// A run of writes leaves under a key what its last write to that key put
/// there, and leaves a key it never wrote to as it was.
pub proof fn lemma_store_after(store: Store, ops: Seq<WriteOp>, key: Seq<u8>)
    ensures
        value_at(store_after(store, ops), key) == match last_write(ops, key) {
            Some(op) => op.outcome(),
            None => value_at(store, key),
        },
    decreases ops.len(),
{
    if ops.len() > 0 {
        lemma_store_after(store, ops.drop_last(), key);
    }
}

/// Writes through one instance into one family change what that instance
/// reads in that family, and nothing else: not another family, not another
/// instance, no snapshot.
pub proof fn lemma_writes_are_local<T: Handle<DbPtr> + Write>(
    e: Engine,
    target: &T,
    cf: Option<CfPtr>,
    ops: Seq<WriteOp>,
)
    ensures
        ({
            let after = e.after_all(write_calls(target, cf, ops));
            let db = target.raw();
            let family = e.family(cf);
            &&& after.families == e.families
            &&& after.followed == e.followed
            &&& after.snapshots == e.snapshots
            &&& after.views[db][family] == store_after(e.views[db][family], ops)
            &&& forall|other: Seq<char>| other != family ==> after.views[db][other] == e.views[db][other]
            &&& forall|other: DbPtr| other != db ==> after.views[other] == e.views[other]
        }),
    decreases ops.len(),
{
    if ops.len() > 0 {
        let calls = write_calls(target, cf, ops);
        assert(calls.drop_last() =~= write_calls(target, cf, ops.drop_last()));
        assert(calls.last() == write_call(target, cf, ops.last()));
        lemma_writes_are_local(e, target, cf, ops.drop_last());
    }
}

/// For every run of puts and deletes made through one handle, a read of a
/// key through that handle returns what the most recent write to the key
/// left there: the value of a put, nothing after a delete. A key that was
/// not written to reads as before.
pub proof fn law_last_write_wins<T: Handle<DbPtr> + Read + Write>(
    e: Engine,
    target: &T,
    cf: Option<CfPtr>,
    ops: Seq<WriteOp>,
    key: Seq<u8>,
)
    ensures
        ({
            let read = target.get_cf_call(cf, key, None::<&ReadOptions>);
            e.after_all(write_calls(target, cf, ops)).answer(read) == match last_write(ops, key) {
                Some(op) => op.outcome(),
                None => e.answer(read),
            }
        }),
{
    lemma_writes_are_local(e, target, cf, ops);
    lemma_store_after(e.views[target.raw()][e.family(cf)], ops, key);
}

/// What a snapshot returns for a key does not change with the writes made
/// to the database after the snapshot was taken: it stays what the database
/// returned when the snapshot was taken, whatever read options the read
/// through the snapshot is given. The same holds of what a cursor opened
/// through the snapshot walks.
pub proof fn law_snapshot_isolation(
    e: Engine,
    db: &DB,
    snapshot: &Snapshot<'_>,
    written: Option<CfPtr>,
    ops: Seq<WriteOp>,
    cf: Option<CfPtr>,
    key: Seq<u8>,
    readopts: Option<&ReadOptions>,
)
    requires
        snapshot.db() == db.raw(),
    ensures
        ({
            let taken = e.snapshot_taken(db.raw(), snapshot.const_raw());
            let later = taken.after_all(write_calls(db, written, ops));
            let options = ReadOptions::spec_input_or_default(readopts);
            &&& later.answer(snapshot.get_cf_call(cf, key, readopts)) == e.answer(
                db.get_cf_call(cf, key, None::<&ReadOptions>),
            )
            &&& later.walked(snapshot.raw_iter_call(options)) == e.walked(
                db.raw_iter_call(ReadOptions::spec_default()),
            )
            &&& cf matches Some(cf) ==> later.walked(snapshot.raw_iter_cf_call(cf, options))
                == e.walked(db.raw_iter_cf_call(cf, ReadOptions::spec_default()))
        }),
{
    let taken = e.snapshot_taken(db.raw(), snapshot.const_raw());
    lemma_writes_are_local(taken, db, written, ops);
}

/// Writes to one column family are not seen through another: a read of any
/// key in a family of another name returns what it returned before, and a
/// cursor opened on that family walks what it would have walked before.
pub proof fn law_column_family_isolation<T: Handle<DbPtr> + Read + Write>(
    e: Engine,
    target: &T,
    written: Option<CfPtr>,
    ops: Seq<WriteOp>,
    cf: Option<CfPtr>,
    key: Seq<u8>,
    readopts: Option<&ReadOptions>,
)
    requires
        e.family(written) != e.family(cf),
    ensures
        ({
            let after = e.after_all(write_calls(target, written, ops));
            let read = target.get_cf_call(cf, key, readopts);
            let options = ReadOptions::spec_input_or_default(readopts);
            let walk = match cf {
                Some(cf) => CallView::CreateIteratorCf { db: target.raw(), readopts: options, cf },
                None => CallView::CreateIterator { db: target.raw(), readopts: options },
            };
            &&& after.answer(read) == e.answer(read)
            &&& after.walked(walk) == e.walked(walk)
        }),
{
    lemma_writes_are_local(e, target, written, ops);
}

/// A follower reads what its primary had written when the follower last
/// caught up. Writes made to the primary since do not show in the
/// follower's reads; once the follower has caught up, its reads return what
/// the primary's do.
pub proof fn law_catch_up(
    e: Engine,
    primary: &DB,
    secondary: &SecondaryDB,
    written: Option<CfPtr>,
    ops: Seq<WriteOp>,
    cf: Option<CfPtr>,
    key: Seq<u8>,
)
    requires
        e.followed[secondary.raw()] == primary.raw(),
        secondary.raw() != primary.raw(),
    ensures
        ({
            let later = e.after_all(write_calls(primary, written, ops));
            let caught_up = later.after(
                CallView::TryCatchUpWithPrimary { db: secondary.raw() },
            );
            let stale = secondary.get_cf_call(cf, key, None::<&ReadOptions>);
            let fresh = primary.get_cf_call(cf, key, None::<&ReadOptions>);
            &&& later.answer(stale) == e.answer(stale)
            &&& caught_up.answer(stale) == later.answer(fresh)
        }),
{
    lemma_writes_are_local(e, primary, written, ops);
}

/// No key comes before itself, and of two keys at most one comes before
/// the other.
pub proof fn lemma_key_lt_asymmetric(a: Seq<u8>, b: Seq<u8>)
    ensures
        !(key_lt(a, b) && key_lt(b, a)),
    decreases a.len(),
{
    if a.len() > 0 && b.len() > 0 && a[0] == b[0] {
        lemma_key_lt_asymmetric(a.drop_first(), b.drop_first());
    }
}

/// In ordered entries, a seek to a key that is there finds its place.
pub proof fn lemma_place_of_key(entries: Seq<(Seq<u8>, Seq<u8>)>, j: int)
    requires
        ordered(entries),
        0 <= j < entries.len(),
    ensures
        place_of(entries, entries[j].0) == j,
        place_past(entries, entries[j].0) == j + 1,
    decreases j,
{
    let key = entries[j].0;
    let rest = entries.drop_first();
    lemma_key_lt_asymmetric(key, key);
    assert(ordered(rest)) by {
        assert forall|a: int, b: int| 0 <= a < b < rest.len() implies key_lt(rest[a].0, rest[b].0) by {
            assert(key_lt(entries[a + 1].0, entries[b + 1].0));
        }
    }
    if j == 0 {
        lemma_none_past(rest, key, entries);
    } else {
        assert(key_lt(entries[0].0, key));
        lemma_key_lt_asymmetric(entries[0].0, key);
        assert(rest[j - 1] == entries[j]);
        lemma_place_of_key(rest, j - 1);
    }
}

proof fn lemma_none_past(rest: Seq<(Seq<u8>, Seq<u8>)>, key: Seq<u8>, entries: Seq<(Seq<u8>, Seq<u8>)>)
    requires
        ordered(entries),
        entries.len() > 0,
        rest == entries.drop_first(),
        key == entries[0].0,
    ensures
        place_past(rest, key) == 0,
{
    if rest.len() > 0 {
        assert(key_lt(entries[0].0, entries[1].0));
        assert(rest[0] == entries[1]);
    }
}

/// One round of reading through a typed cursor: the cursor is stepped in
/// the direction `d`, the engine makes the move if one is asked for, and
/// the cursor takes the engine's word on whether it rests on an entry.
pub open spec fn round(cursor: Cursor, walk: Walk, d: Direction) -> (Cursor, Walk) {
    let walk = match cursor.step_call(d) {
        Some(call) => walk.after(call),
        None => walk,
    };
    (cursor.stepped(d).observed(walk.valid()), walk)
}

/// `n` rounds of reading in the direction `d`.
pub open spec fn rounds(cursor: Cursor, walk: Walk, d: Direction, n: nat) -> (Cursor, Walk)
    decreases n,
{
    if n == 0 {
        (cursor, walk)
    } else {
        let before = rounds(cursor, walk, d, (n - 1) as nat);
        round(before.0, before.1, d)
    }
}

/// What is read after a round: the entry under the cursor if the cursor
/// lets it be read, nothing otherwise.
pub open spec fn read_through(state: (Cursor, Walk)) -> Option<(Seq<u8>, Seq<u8>)> {
    if state.0.raw.position == Position::Valid {
        Some(state.1.entry())
    } else {
        None
    }
}

/// The place a walk of `len` entries is at after the `n`-th round of an
/// iteration from the first entry forward.
pub open spec fn forward_place(len: nat, n: nat) -> int {
    if n - 1 < len {
        n - 1
    } else {
        len as int
    }
}

/// The place a walk of `len` entries is at after the `n`-th round of an
/// iteration from the last entry in reverse.
pub open spec fn reverse_place(len: nat, n: nat) -> int {
    if n - 1 < len {
        len - n
    } else {
        -1
    }
}

proof fn lemma_forward_rounds(cursor: Cursor, walk: Walk, first: int, n: nat)
    requires
        n >= 1,
        cursor.just_seeked,
        cursor.direction == Direction::Forward,
        cursor.raw.position == Position::Moved,
        0 <= first <= walk.entries.len(),
        walk.at == first,
    ensures
        ({
            let state = rounds(cursor, walk, Direction::Forward, n);
            let len = (walk.entries.len() - first) as nat;
            &&& state.1.entries == walk.entries
            &&& state.1.at == first + forward_place(len, n)
            &&& !state.0.just_seeked
            &&& state.0.direction == Direction::Forward
            &&& state.0.raw.iter == cursor.raw.iter
            &&& state.0.raw.position == if state.1.valid() {
                Position::Valid
            } else {
                Position::Invalid
            }
        }),
    decreases n,
{
    let before = rounds(cursor, walk, Direction::Forward, (n - 1) as nat);
    assert(rounds(cursor, walk, Direction::Forward, n) == round(
        before.0,
        before.1,
        Direction::Forward,
    ));
    if n > 1 {
        lemma_forward_rounds(cursor, walk, first, (n - 1) as nat);
    } else {
        assert(before == (cursor, walk));
    }
}

proof fn lemma_reverse_rounds(cursor: Cursor, walk: Walk, last: int, n: nat)
    requires
        n >= 1,
        cursor.just_seeked,
        cursor.direction == Direction::Reverse,
        cursor.raw.position == Position::Moved,
        -1 <= last < walk.entries.len(),
        walk.at == last,
    ensures
        ({
            let state = rounds(cursor, walk, Direction::Reverse, n);
            let len = (last + 1) as nat;
            &&& state.1.entries == walk.entries
            &&& state.1.at == reverse_place(len, n)
            &&& !state.0.just_seeked
            &&& state.0.direction == Direction::Reverse
            &&& state.0.raw.iter == cursor.raw.iter
            &&& state.0.raw.position == if state.1.valid() {
                Position::Valid
            } else {
                Position::Invalid
            }
        }),
    decreases n,
{
    let before = rounds(cursor, walk, Direction::Reverse, (n - 1) as nat);
    assert(rounds(cursor, walk, Direction::Reverse, n) == round(
        before.0,
        before.1,
        Direction::Reverse,
    ));
    if n > 1 {
        lemma_reverse_rounds(cursor, walk, last, (n - 1) as nat);
    } else {
        assert(before == (cursor, walk));
    }
}

/// A cursor positioned on the first key and stepped forward again and
/// again reads the entries in their order, one in each round, each key
/// after the one before it, and reads nothing from the round after the
/// last entry on.
pub proof fn law_forward_iteration(cursor: Cursor, walk: Walk, n: nat)
    requires
        n >= 1,
    ensures
        ({
            let start = cursor.positioned(SeekView::First);
            let first = walk.after(SeekView::First.call(cursor.raw.iter));
            let read = read_through(rounds(start, first, Direction::Forward, n));
            &&& n <= walk.entries.len() ==> read == Some(walk.entries[n - 1])
            &&& n > walk.entries.len() ==> read is None
            &&& ordered(walk.entries) && 1 < n <= walk.entries.len() ==> key_lt(
                walk.entries[n - 2].0,
                walk.entries[n - 1].0,
            )
        }),
{
    let start = cursor.positioned(SeekView::First);
    let first = walk.after(SeekView::First.call(cursor.raw.iter));
    lemma_forward_rounds(start, first, 0, n);
}

/// A cursor positioned on the last key and stepped in reverse again and
/// again reads the entries in reverse order, one in each round, and reads
/// nothing from the round after the first entry on.
pub proof fn law_reverse_iteration(cursor: Cursor, walk: Walk, n: nat)
    requires
        n >= 1,
    ensures
        ({
            let start = cursor.positioned(SeekView::Last);
            let last = walk.after(SeekView::Last.call(cursor.raw.iter));
            let read = read_through(rounds(start, last, Direction::Reverse, n));
            &&& n <= walk.entries.len() ==> read == Some(walk.entries[walk.entries.len() - n])
            &&& n > walk.entries.len() ==> read is None
            &&& ordered(walk.entries) && 1 < n <= walk.entries.len() ==> key_lt(
                walk.entries[walk.entries.len() - n].0,
                walk.entries[walk.entries.len() - n + 1].0,
            )
        }),
{
    let start = cursor.positioned(SeekView::Last);
    let last = walk.after(SeekView::Last.call(cursor.raw.iter));
    lemma_reverse_rounds(start, last, walk.entries.len() - 1, n);
}

/// A cursor over the entries that list a store reads, from the first key
/// forward, nothing but what the store holds, and reads every key the store
/// holds in one of its rounds.
pub proof fn law_iteration_covers_store(cursor: Cursor, walk: Walk, store: Store)
    requires
        lists(walk.entries, store),
    ensures
        ({
            let start = cursor.positioned(SeekView::First);
            let first = walk.after(SeekView::First.call(cursor.raw.iter));
            &&& forall|n: nat|
                n >= 1 ==> match #[trigger] read_through(
                    rounds(start, first, Direction::Forward, n),
                ) {
                    Some(entry) => value_at(store, entry.0) == Some(entry.1),
                    None => n > walk.entries.len(),
                }
            &&& forall|key: Seq<u8>| #[trigger]
                store.dom().contains(key) ==> exists|n: nat|
                    1 <= n <= walk.entries.len() && read_through(
                        rounds(start, first, Direction::Forward, n),
                    ) == Some((key, store[key]))
        }),
{
    let start = cursor.positioned(SeekView::First);
    let first = walk.after(SeekView::First.call(cursor.raw.iter));
    assert forall|n: nat| n >= 1 implies match #[trigger] read_through(
        rounds(start, first, Direction::Forward, n),
    ) {
        Some(entry) => value_at(store, entry.0) == Some(entry.1),
        None => n > walk.entries.len(),
    } by {
        law_forward_iteration(cursor, walk, n);
        if n <= walk.entries.len() {
            assert(value_at(store, walk.entries[n - 1].0) == Some(walk.entries[n - 1].1));
        }
    }
    assert forall|key: Seq<u8>| #[trigger] store.dom().contains(key) implies exists|n: nat|
        1 <= n <= walk.entries.len() && read_through(rounds(start, first, Direction::Forward, n))
            == Some((key, store[key])) by {
        let i = choose|i: int| 0 <= i < walk.entries.len() && walk.entries[i].0 == key;
        let n = (i + 1) as nat;
        law_forward_iteration(cursor, walk, n);
        assert(value_at(store, walk.entries[i].0) == Some(walk.entries[i].1));
        assert(1 <= n <= walk.entries.len() && read_through(
            rounds(start, first, Direction::Forward, n),
        ) == Some((key, store[key])));
    }
}

/// After a seek to a key that is there, the first read returns the entry of
/// that very key: the step that follows the seek in the seek's own
/// direction does not pass over it. This holds forward, for a seek to the
/// first key at or after the given one, and in reverse, for a seek to the
/// last key at or before it.
pub proof fn law_seek_then_read(cursor: Cursor, walk: Walk, j: int)
    requires
        ordered(walk.entries),
        0 <= j < walk.entries.len(),
    ensures
        ({
            let key = walk.entries[j].0;
            let forward = SeekView::To(key);
            let reverse = SeekView::ForPrev(key);
            &&& read_through(
                round(
                    cursor.positioned(forward),
                    walk.after(forward.call(cursor.raw.iter)),
                    Direction::Forward,
                ),
            ) == Some(walk.entries[j])
            &&& read_through(
                round(
                    cursor.positioned(reverse),
                    walk.after(reverse.call(cursor.raw.iter)),
                    Direction::Reverse,
                ),
            ) == Some(walk.entries[j])
        }),
{
    lemma_place_of_key(walk.entries, j);
}

/// Tearing a database down releases every registered column family once,
/// in the order of the registry, and closes the database after all of
/// them. Where no two families share a handle, no call is made twice.
pub proof fn law_teardown_releases_once(entries: Seq<(Seq<char>, CfPtr)>, db: DbPtr)
    ensures
        ({
            let calls = destroy_calls(entries).push(CallView::Close { db });
            &&& calls.len() == entries.len() + 1
            &&& calls.last() == CallView::Close { db }
            &&& forall|i: int|
                0 <= i < entries.len() ==> calls[i] == (CallView::ColumnFamilyHandleDestroy {
                    cf: entries[i].1,
                })
            &&& (forall|i: int, j: int| 0 <= i < j < entries.len() ==> entries[i].1 != entries[j].1)
                ==> forall|i: int, j: int| 0 <= i < j < calls.len() ==> calls[i] != calls[j]
        }),
{
}

} // verus!
