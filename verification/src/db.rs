//! The primary database: open for reading and writing.

use vstd::prelude::*;
use vstd::string::*;
use vstd::utf8::encode_utf8;

use crate::column_family::{
    already_open_message, destroy_calls, distinct_names, handle_views, lemma_lookup_registered,
    lemma_registering, lookup, registered, without, ColumnFamilies, ColumnFamily,
};
use crate::db_iterator::PendingRawIterator;
use crate::db_options::{Options, OptionsView, ReadOptions};
use crate::engine::{call_views, ffi_try, Call, CallView, Reply};
use crate::error::Error;
use crate::ffi_util::{has_nul, to_cpath, utf8_lossy};
use crate::handle::{CfPtr, ConstHandle, DbPtr, Handle, SnapshotPtr};
use crate::open_raw::{OpenRaw, OpenRawFFI};
use crate::ops::column_family::GetColumnFamilys;
use crate::ops::get::Read;
use crate::ops::iter::{Iterate, IterateCF};
use crate::ops::put::Write;
use crate::snapshot::Snapshot;

verus! {

/// What the error says when a column family's name cannot go into a C
/// string.
pub open spec fn bad_family_name_message() -> Seq<char> {
    "Failed to convert path to CString when opening rocksdb"@
}

/// What the error says when a column family is not open.
pub open spec fn invalid_family_message(name: Seq<char>) -> Seq<char> {
    "Invalid column family: "@ + name
}

/// What asking for a new column family `name` comes to, beside the
/// families `entries`: the name as it goes into a C string, or the
/// complaint about it.
pub open spec fn creating(entries: Seq<(Seq<char>, CfPtr)>, name: Seq<char>) -> Result<
    Seq<u8>,
    Seq<char>,
> {
    if has_nul(encode_utf8(name)) {
        Err(bad_family_name_message())
    } else if registered(entries, name) {
        Err(already_open_message(name))
    } else {
        Ok(encode_utf8(name))
    }
}

#[derive(Debug)]
pub struct DB {
    inner: DbPtr,
    cfs: ColumnFamilies,
    path: String,
}

impl DB {
    pub fn path(&self) -> (p: &str)
        ensures
            p@ == self.path_text(),
    {
        self.path.as_str()
    }

    /// Asks for a snapshot: a view of what is committed at this moment.
    pub fn snapshot(&self) -> (p: PendingSnapshot<'_>)
        ensures
            p.db() == self.raw(),
    {
        PendingSnapshot::new(self)
    }

    /// The call that creates the column family `name` with the options
    /// `opts`. A name that holds a zero byte, or one that is already open,
    /// is an error.
    pub fn create_cf(&self, name: &str, opts: &Options) -> (r: Result<Call, Error>)
        ensures
            match creating(self.cfs(), name@) {
                Err(message) => r is Err && r->Err_0@ == message,
                Ok(bytes) => r is Ok && r->Ok_0@ == (CallView::CreateColumnFamily {
                    db: self.raw(),
                    options: opts@,
                    name: bytes,
                }),
            },
    {
        let cname = match to_cpath(
            name,
            "Failed to convert path to CString when opening rocksdb",
        ) {
            Ok(c) => c,
            Err(e) => {
                return Err(e);
            },
        };
        proof {
            lemma_lookup_registered(self.cfs(), name@);
        }
        match self.cfs.get(name) {
            Some(_) => {
                let message = String::from_str("a column family named \"").concat(name).concat(
                    "\" is already open",
                );
                Err(Error::new(message))
            },
            None => Ok(
                Call::CreateColumnFamily { db: self.inner, options: opts.clone(), name: cname },
            ),
        }
    }

    /// Completes `create_cf` with the engine's reply: the new family is
    /// registered under `name`, unless the engine reported an error or the
    /// name has been taken meanwhile.
    pub fn register_cf(&mut self, name: &str, reply: Reply<CfPtr>) -> (r: Result<(), Error>)
        ensures
            final(self).raw() == old(self).raw(),
            final(self).path_text() == old(self).path_text(),
            distinct_names(old(self).cfs()) ==> distinct_names(final(self).cfs()),
            match reply.error {
                Some(message) => {
                    &&& r is Err
                    &&& r->Err_0@ == utf8_lossy(message@)
                    &&& final(self).cfs() == old(self).cfs()
                },
                None => if registered(old(self).cfs(), name@) {
                    &&& r is Err
                    &&& r->Err_0@ == already_open_message(name@)
                    &&& final(self).cfs() == old(self).cfs()
                } else {
                    &&& r is Ok
                    &&& final(self).cfs() == old(self).cfs().push((name@, reply.value))
                },
            },
    {
        match ffi_try(reply) {
            Err(e) => Err(e),
            Ok(handle) => self.cfs.insert(name, handle),
        }
    }

    /// Drops the column family `name`: takes it out of the registry and
    /// gives the calls that drop it and then destroy its handle. An unknown
    /// name is an error, and nothing changes then.
    pub fn drop_cf(&mut self, name: &str) -> (r: Result<Vec<Call>, Error>)
        ensures
            final(self).raw() == old(self).raw(),
            final(self).path_text() == old(self).path_text(),
            distinct_names(old(self).cfs()) ==> distinct_names(final(self).cfs()),
            final(self).cfs() == without(old(self).cfs(), name@),
            match lookup(old(self).cfs(), name@) {
                Some(cf) => r is Ok && call_views(r->Ok_0@) == seq![
                    CallView::DropColumnFamily { db: old(self).raw(), cf },
                    CallView::ColumnFamilyHandleDestroy { cf },
                ],
                None => r is Err && r->Err_0@ == invalid_family_message(name@),
            },
    {
        match self.cfs.remove(name) {
            Some(cf) => {
                let mut calls: Vec<Call> = Vec::new();
                calls.push(Call::DropColumnFamily { db: self.inner, cf: cf.handle() });
                calls.push(Call::ColumnFamilyHandleDestroy { cf: cf.handle() });
                assert(call_views(calls@) =~= seq![
                    CallView::DropColumnFamily { db: old(self).raw(), cf: cf.raw() },
                    CallView::ColumnFamilyHandleDestroy { cf: cf.raw() },
                ]);
                Ok(calls)
            },
            None => Err(
                Error::new(String::from_str("Invalid column family: ").concat(name)),
            ),
        }
    }

    /// Tears the database down: the calls that destroy the handle of every
    /// open column family, and after them the call that closes the
    /// database.
    pub fn close(self) -> (calls: Vec<Call>)
        ensures
            call_views(calls@) == destroy_calls(self.cfs()).push(
                CallView::Close { db: self.raw() },
            ),
    {
        let db = self.inner;
        let ghost entries = self.cfs@;
        let mut calls = self.cfs.close();
        calls.push(Call::Close { db });
        assert(call_views(calls@) =~= destroy_calls(entries).push(CallView::Close { db }));
        calls
    }
}

impl OpenRaw for DB {
    type Descriptor = ();

    open spec fn open_call(
        options: OptionsView,
        path: Seq<u8>,
        open_descriptor: (),
        column_families: Seq<(Seq<u8>, OptionsView)>,
    ) -> Result<CallView, Seq<char>> {
        if column_families.len() == 0 {
            Ok(CallView::Open { options, path })
        } else {
            Ok(CallView::OpenColumnFamilies { options, path, families: column_families })
        }
    }

    closed spec fn path_text(&self) -> Seq<char> {
        self.path@
    }

    fn open_ffi(input: OpenRawFFI<'_, ()>) -> (r: Result<Call, Error>) {
        let call = if input.column_families.len() == 0 {
            Call::Open { options: input.options.clone(), path: input.path }
        } else {
            Call::OpenColumnFamilies {
                options: input.options.clone(),
                path: input.path,
                families: input.column_families,
            }
        };
        Ok(call)
    }

    fn build(
        path: String,
        _open_descriptor: (),
        pointer: DbPtr,
        column_families: Vec<(String, CfPtr)>,
    ) -> (r: Result<Self, Error>) {
        proof {
            lemma_registering(Seq::empty(), handle_views(column_families@));
        }
        match ColumnFamilies::from_handles(column_families) {
            Err(e) => Err(e),
            Ok(cfs) => Ok(DB { inner: pointer, cfs, path }),
        }
    }
}

impl Handle<DbPtr> for DB {
    closed spec fn raw(&self) -> DbPtr {
        self.inner
    }

    fn handle(&self) -> (p: DbPtr) {
        self.inner
    }
}

impl Iterate for DB {
    open spec fn raw_iter_call(&self, readopts: ReadOptions) -> CallView {
        CallView::CreateIterator { db: self.raw(), readopts }
    }

    fn get_raw_iter<'a: 'b, 'b>(&'a self, readopts: &ReadOptions) -> (p: PendingRawIterator<'b>) {
        PendingRawIterator::new(Call::CreateIterator { db: self.inner, readopts: *readopts })
    }
}

impl IterateCF for DB {
    open spec fn raw_iter_cf_call(&self, cf: CfPtr, readopts: ReadOptions) -> CallView {
        CallView::CreateIteratorCf { db: self.raw(), readopts, cf }
    }

    fn get_raw_iter_cf<'a: 'b, 'b>(
        &'a self,
        cf_handle: &ColumnFamily,
        readopts: &ReadOptions,
    ) -> (r: Result<PendingRawIterator<'b>, Error>) {
        Ok(
            PendingRawIterator::new(
                Call::CreateIteratorCf {
                    db: self.inner,
                    readopts: *readopts,
                    cf: cf_handle.handle(),
                },
            ),
        )
    }
}

impl GetColumnFamilys for DB {
    closed spec fn cfs(&self) -> Seq<(Seq<char>, CfPtr)> {
        self.cfs@
    }

    fn get_cfs(&self) -> (r: &ColumnFamilies) {
        &self.cfs
    }

    fn get_mut_cfs(&mut self) -> (r: &mut ColumnFamilies)
        ensures
            final(self).raw() == old(self).raw(),
            final(self).path_text() == old(self).path_text(),
    {
        &mut self.cfs
    }
}

impl Read for DB {

}

impl Write for DB {

}

/// A snapshot that has been asked for and not yet received. It borrows the
/// database, and so does the snapshot it becomes.
#[derive(Debug)]
pub struct PendingSnapshot<'a> {
    db: &'a DB,
}

impl<'a> PendingSnapshot<'a> {
    fn new(db: &'a DB) -> (p: PendingSnapshot<'a>)
        ensures
            p.db() == db.raw(),
    {
        PendingSnapshot { db }
    }

    /// The address of the database the snapshot is taken of.
    pub closed spec fn db(&self) -> DbPtr {
        self.db.raw()
    }

    /// The call that creates the snapshot.
    pub fn call(&self) -> (c: Call)
        ensures
            c@ == (CallView::CreateSnapshot { db: self.db() }),
    {
        Call::CreateSnapshot { db: self.db.handle() }
    }

    /// Takes the address the engine returned.
    pub fn open(self, inner: SnapshotPtr) -> (s: Snapshot<'a>)
        ensures
            s.const_raw() == inner,
            s.db() == self.db(),
    {
        Snapshot::new(self.db, inner)
    }
}

} // verus!
