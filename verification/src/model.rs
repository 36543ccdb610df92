//! What this crate takes the engine to do with the calls it is sent.
//!
//! The engine is not part of the crate, and nothing here is run. This is
//! the contract the calls are written against, kept as small as the laws
//! of this crate need: what a database instance reads, by column family and
//! key; what a snapshot keeps; what a follower sees of its primary; and
//! where a cursor rests on the keys it walks.

use vstd::prelude::*;

use crate::db_options::ReadOptions;
use crate::engine::CallView;
use crate::handle::{CfPtr, DbPtr, SnapshotPtr};
use crate::options::default_name;

verus! {

/// What one column family holds: a value for each key that is there.
pub type Store = Map<Seq<u8>, Seq<u8>>;

/// What can be read in one go: a store for each column family, by name.
pub type Data = Map<Seq<char>, Store>;

/// The engine, as far as reads can tell.
pub struct Engine {
    /// What each open database instance reads.
    pub views: Map<DbPtr, Data>,
    /// For each follower, the primary it follows.
    pub followed: Map<DbPtr, DbPtr>,
    /// What each live snapshot keeps.
    pub snapshots: Map<SnapshotPtr, Data>,
    /// The name of the column family behind each handle.
    pub families: Map<CfPtr, Seq<char>>,
}

/// The value under `key` in `store`, if the key is there.
pub open spec fn value_at(store: Store, key: Seq<u8>) -> Option<Seq<u8>> {
    if store.dom().contains(key) {
        Some(store[key])
    } else {
        None
    }
}

/// `store` with `key` set to `value`, or taken out where there is none.
pub open spec fn store_with(store: Store, key: Seq<u8>, value: Option<Seq<u8>>) -> Store {
    match value {
        Some(value) => store.insert(key, value),
        None => store.remove(key),
    }
}

impl Engine {
    /// The name of the column family a call addresses: the one behind the
    /// handle, or the default family where no handle is given.
    pub open spec fn family(self, cf: Option<CfPtr>) -> Seq<char> {
        match cf {
            Some(cf) => self.families[cf],
            None => default_name(),
        }
    }

    /// What a read through `db` with `readopts` draws on: what the snapshot
    /// keeps if the options name one, what the instance reads otherwise.
    pub open spec fn read_from(self, db: DbPtr, readopts: ReadOptions) -> Data {
        match readopts.snapshot {
            Some(snapshot) => self.snapshots[snapshot],
            None => self.views[db],
        }
    }

    /// The engine after `key` in the family `cf` of `db` was set to
    /// `value`, or taken out where there is none. Snapshots and other
    /// instances are as they were.
    pub open spec fn written(
        self,
        db: DbPtr,
        cf: Option<CfPtr>,
        key: Seq<u8>,
        value: Option<Seq<u8>>,
    ) -> Engine {
        let family = self.family(cf);
        let data = self.views[db];
        Engine {
            views: self.views.insert(
                db,
                data.insert(family, store_with(data[family], key, value)),
            ),
            ..self
        }
    }

    /// The engine after it has made a snapshot of `db` at `snapshot`.
    pub open spec fn snapshot_taken(self, db: DbPtr, snapshot: SnapshotPtr) -> Engine {
        Engine { snapshots: self.snapshots.insert(snapshot, self.views[db]), ..self }
    }

    /// The engine after `call`: after a write, a read, the release of a
    /// snapshot, or a follower's catching up. Of any other call nothing is
    /// said.
    pub open spec fn after(self, call: CallView) -> Engine {
        match call {
            CallView::Put { db, key, value, .. } => self.written(db, None, key, Some(value)),
            CallView::PutCf { db, cf, key, value, .. } => self.written(
                db,
                Some(cf),
                key,
                Some(value),
            ),
            CallView::Delete { db, key, .. } => self.written(db, None, key, None),
            CallView::DeleteCf { db, cf, key, .. } => self.written(db, Some(cf), key, None),
            CallView::Get { .. } | CallView::GetCf { .. } => self,
            CallView::ReleaseSnapshot { snapshot, .. } => Engine {
                snapshots: self.snapshots.remove(snapshot),
                ..self
            },
            CallView::TryCatchUpWithPrimary { db } => Engine {
                views: self.views.insert(db, self.views[self.followed[db]]),
                ..self
            },
            _ => arbitrary(),
        }
    }

    /// The value a read returns; none for a key that is not there. Of a
    /// call that is no read nothing is said.
    pub open spec fn answer(self, call: CallView) -> Option<Seq<u8>> {
        match call {
            CallView::Get { db, readopts, key } => value_at(
                self.read_from(db, readopts)[self.family(None)],
                key,
            ),
            CallView::GetCf { db, readopts, cf, key } => value_at(
                self.read_from(db, readopts)[self.family(Some(cf))],
                key,
            ),
            _ => arbitrary(),
        }
    }

    /// The store whose entries a cursor walks that the call `call` opens:
    /// what the addressed column family holds, where the read options of
    /// the call say to read it. Of a call that opens no cursor on a database
    /// nothing is said.
    pub open spec fn walked(self, call: CallView) -> Store {
        match call {
            CallView::CreateIterator { db, readopts } => self.read_from(db, readopts)[self.family(
                None,
            )],
            CallView::CreateIteratorCf { db, readopts, cf } => self.read_from(
                db,
                readopts,
            )[self.family(Some(cf))],
            _ => arbitrary(),
        }
    }

    /// The engine after each call of `calls`, in order.
    pub open spec fn after_all(self, calls: Seq<CallView>) -> Engine
        decreases calls.len(),
    {
        if calls.len() == 0 {
            self
        } else {
            self.after_all(calls.drop_last()).after(calls.last())
        }
    }
}

/// Whether `a` comes before `b` in the order of byte strings: the order of
/// their first differing bytes, a proper prefix before what it begins.
pub open spec fn key_lt(a: Seq<u8>, b: Seq<u8>) -> bool
    decreases a.len(),
{
    if b.len() == 0 {
        false
    } else if a.len() == 0 {
        true
    } else if a[0] != b[0] {
        a[0] < b[0]
    } else {
        key_lt(a.drop_first(), b.drop_first())
    }
}

/// The entries of a store as a cursor walks them: in the order of their
/// keys, no key twice.
pub open spec fn ordered(entries: Seq<(Seq<u8>, Seq<u8>)>) -> bool {
    forall|i: int, j: int| 0 <= i < j < entries.len() ==> key_lt(entries[i].0, entries[j].0)
}

/// Whether `entries` lists `store`: in order, each entry from the store,
/// each key of the store in an entry.
pub open spec fn lists(entries: Seq<(Seq<u8>, Seq<u8>)>, store: Store) -> bool {
    &&& ordered(entries)
    &&& forall|i: int|
        0 <= i < entries.len() ==> #[trigger] value_at(store, entries[i].0) == Some(entries[i].1)
    &&& forall|key: Seq<u8>| #[trigger]
        store.dom().contains(key) ==> exists|i: int| 0 <= i < entries.len() && entries[i].0 == key
}

/// How many entries at the front of `entries` have keys before `key`: the
/// place of the first key at or after `key`.
pub open spec fn place_of(entries: Seq<(Seq<u8>, Seq<u8>)>, key: Seq<u8>) -> int
    decreases entries.len(),
{
    if entries.len() == 0 || !key_lt(entries[0].0, key) {
        0
    } else {
        1 + place_of(entries.drop_first(), key)
    }
}

/// How many entries at the front of `entries` have keys at or before
/// `key`: one past the place of the last key at or before `key`.
pub open spec fn place_past(entries: Seq<(Seq<u8>, Seq<u8>)>, key: Seq<u8>) -> int
    decreases entries.len(),
{
    if entries.len() == 0 || key_lt(key, entries[0].0) {
        0
    } else {
        1 + place_past(entries.drop_first(), key)
    }
}

/// A seek to `key` lands on the first key at or after it: every entry
/// before the place has a key before `key`, and the entry at the place, if
/// there is one, has not.
pub proof fn law_seek_finds_first_at_or_after(entries: Seq<(Seq<u8>, Seq<u8>)>, key: Seq<u8>)
    ensures
        0 <= place_of(entries, key) <= entries.len(),
        forall|i: int| 0 <= i < place_of(entries, key) ==> key_lt(entries[i].0, key),
        place_of(entries, key) < entries.len() ==> !key_lt(
            entries[place_of(entries, key)].0,
            key,
        ),
    decreases entries.len(),
{
    if entries.len() > 0 && key_lt(entries[0].0, key) {
        let rest = entries.drop_first();
        law_seek_finds_first_at_or_after(rest, key);
        assert forall|i: int| 0 <= i < place_of(entries, key) implies key_lt(
            entries[i].0,
            key,
        ) by {
            if i > 0 {
                assert(rest[i - 1] == entries[i]);
            }
        }
        if place_of(entries, key) < entries.len() {
            assert(rest[place_of(rest, key)] == entries[place_of(entries, key)]);
        }
    }
}

/// A seek for the key before `key` lands on the last key at or before it:
/// every entry up to the place has a key not after `key`, and the entry
/// after the place, if there is one, has a key after it.
pub proof fn law_seek_for_prev_finds_last_at_or_before(entries: Seq<(Seq<u8>, Seq<u8>)>, key: Seq<u8>)
    ensures
        0 <= place_past(entries, key) <= entries.len(),
        forall|i: int| 0 <= i < place_past(entries, key) ==> !key_lt(key, entries[i].0),
        place_past(entries, key) < entries.len() ==> key_lt(
            key,
            entries[place_past(entries, key)].0,
        ),
    decreases entries.len(),
{
    if entries.len() > 0 && !key_lt(key, entries[0].0) {
        let rest = entries.drop_first();
        law_seek_for_prev_finds_last_at_or_before(rest, key);
        assert forall|i: int| 0 <= i < place_past(entries, key) implies !key_lt(
            key,
            entries[i].0,
        ) by {
            if i > 0 {
                assert(rest[i - 1] == entries[i]);
            }
        }
        if place_past(entries, key) < entries.len() {
            assert(rest[place_past(rest, key)] == entries[place_past(entries, key)]);
        }
    }
}

/// A cursor of the engine: the entries it walks, fixed when it was made,
/// and the place it is at. It rests on an entry when the place is one of
/// the entries'.
pub struct Walk {
    pub entries: Seq<(Seq<u8>, Seq<u8>)>,
    pub at: int,
}

impl Walk {
    /// Whether the cursor rests on an entry.
    pub open spec fn valid(self) -> bool {
        0 <= self.at < self.entries.len()
    }

    /// The entry the cursor rests on.
    pub open spec fn entry(self) -> (Seq<u8>, Seq<u8>) {
        self.entries[self.at]
    }

    /// The entry read from the cursor: the one it rests on, none when it
    /// rests on none.
    pub open spec fn read(self) -> Option<(Seq<u8>, Seq<u8>)> {
        if self.valid() {
            Some(self.entry())
        } else {
            None
        }
    }

    /// The cursor after a call that positions or moves it. A step is made
    /// from an entry only; of a step from anywhere else, and of any other
    /// call, nothing is said.
    pub open spec fn after(self, call: CallView) -> Walk {
        match call {
            CallView::IterSeekToFirst { .. } => Walk { at: 0, ..self },
            CallView::IterSeekToLast { .. } => Walk { at: self.entries.len() - 1, ..self },
            CallView::IterSeek { key, .. } => Walk { at: place_of(self.entries, key), ..self },
            CallView::IterSeekForPrev { key, .. } => Walk {
                at: place_past(self.entries, key) - 1,
                ..self
            },
            CallView::IterNext { .. } if self.valid() => Walk { at: self.at + 1, ..self },
            CallView::IterPrev { .. } if self.valid() => Walk { at: self.at - 1, ..self },
            _ => arbitrary(),
        }
    }
}

} // verus!
