//! Snapshots of the primary database.

use vstd::prelude::*;

use crate::column_family::ColumnFamily;
use crate::db::DB;
use crate::db_iterator::PendingRawIterator;
use crate::db_options::ReadOptions;
use crate::engine::{Call, CallView};
use crate::error::Error;
use crate::handle::{CfPtr, ConstHandle, DbPtr, Handle, SnapshotPtr};
use crate::ops::get::{GetCF, Read};
use crate::ops::iter::{Iterate, IterateCF};

verus! {

/// A consistent view of the database at the point of creation.
///
/// A snapshot borrows the database it was taken of, so it ends before the
/// database does. Every read made through it goes to the database with the
/// snapshot written into the read options, which is what pins the read.
#[derive(Debug)]
pub struct Snapshot<'a> {
    db: &'a DB,
    inner: SnapshotPtr,
}

impl<'a> Snapshot<'a> {
    pub(crate) fn new(db: &'a DB, inner: SnapshotPtr) -> (s: Snapshot<'a>)
        ensures
            s.const_raw() == inner,
            s.db() == db.raw(),
    {
        Snapshot { db, inner }
    }

    /// The address of the database the snapshot was taken of.
    pub closed spec fn db(&self) -> DbPtr {
        self.db.raw()
    }

    /// Gives the snapshot up: the call that tells the engine that the view
    /// is no longer needed.
    pub fn release(self) -> (c: Call)
        ensures
            c@ == (CallView::ReleaseSnapshot { db: self.db(), snapshot: self.const_raw() }),
    {
        Call::ReleaseSnapshot { db: self.db.handle(), snapshot: self.inner }
    }
}

impl<'a> ConstHandle<SnapshotPtr> for Snapshot<'a> {
    closed spec fn const_raw(&self) -> SnapshotPtr {
        self.inner
    }

    fn const_handle(&self) -> (p: SnapshotPtr) {
        self.inner
    }
}

impl<'a> Read for Snapshot<'a> {

}

impl<'a> GetCF<ReadOptions> for Snapshot<'a> {
    open spec fn get_cf_call(
        &self,
        cf: Option<CfPtr>,
        key: Seq<u8>,
        readopts: Option<&ReadOptions>,
    ) -> CallView {
        crate::ops::get::get_call(
            self.db(),
            cf,
            key,
            ReadOptions::spec_input_or_default(readopts).with_snapshot(self.const_raw()),
        )
    }

    fn get_cf_full(
        &self,
        cf: Option<&ColumnFamily>,
        key: &[u8],
        readopts: Option<&ReadOptions>,
    ) -> (c: Call) {
        let mut ro = ReadOptions::input_or_default(readopts);
        ro.set_snapshot(self);
        self.db.get_cf_full(cf, key, Some(&ro))
    }
}

impl Iterate for Snapshot<'_> {
    open spec fn raw_iter_call(&self, readopts: ReadOptions) -> CallView {
        CallView::CreateIterator {
            db: self.db(),
            readopts: readopts.with_snapshot(self.const_raw()),
        }
    }

    fn get_raw_iter<'a: 'b, 'b>(&'a self, readopts: &ReadOptions) -> (p: PendingRawIterator<'b>) {
        let mut ro = *readopts;
        ro.set_snapshot(self);
        self.db.get_raw_iter(&ro)
    }
}

impl IterateCF for Snapshot<'_> {
    open spec fn raw_iter_cf_call(&self, cf: CfPtr, readopts: ReadOptions) -> CallView {
        CallView::CreateIteratorCf {
            db: self.db(),
            readopts: readopts.with_snapshot(self.const_raw()),
            cf,
        }
    }

    fn get_raw_iter_cf<'a: 'b, 'b>(
        &'a self,
        cf_handle: &ColumnFamily,
        readopts: &ReadOptions,
    ) -> (r: Result<PendingRawIterator<'b>, Error>) {
        let mut ro = *readopts;
        ro.set_snapshot(self);
        self.db.get_raw_iter_cf(cf_handle, &ro)
    }
}

} // verus!
