//! Flushing memtables to files on disk.

use vstd::prelude::*;

use crate::column_family::ColumnFamily;
use crate::db_options::FlushOptions;
use crate::engine::{Call, CallView};
use crate::handle::{CfPtr, DbPtr, Handle};
use crate::ops::put::Write;

verus! {

pub trait Flush {
    /// The call that flushes this object's memtables.
    spec fn flush_call(&self, flushopts: FlushOptions) -> CallView;

    /// Flushes database memtables to SST files on the disk.
    fn flush_opt(&self, flushopts: &FlushOptions) -> (c: Call)
        ensures
            c@ == self.flush_call(*flushopts),
    ;

    /// Flushes database memtables to SST files on the disk using default options.
    fn flush(&self) -> (c: Call)
        ensures
            c@ == self.flush_call(FlushOptions::spec_default()),
    {
        self.flush_opt(&FlushOptions::default())
    }
}

pub trait FlushCF {
    /// The call that flushes the memtables of one column family.
    spec fn flush_cf_call(&self, cf: CfPtr, flushopts: FlushOptions) -> CallView;

    /// Flushes database memtables to SST files on the disk for a given column family.
    fn flush_cf_opt(&self, cf: &ColumnFamily, flushopts: &FlushOptions) -> (c: Call)
        ensures
            c@ == self.flush_cf_call(cf.raw(), *flushopts),
    ;

    /// Flushes database memtables to SST files on the disk for a given column family using default
    /// options.
    fn flush_cf(&self, cf: &ColumnFamily) -> (c: Call)
        ensures
            c@ == self.flush_cf_call(cf.raw(), FlushOptions::spec_default()),
    {
        self.flush_cf_opt(cf, &FlushOptions::default())
    }
}

impl<T> Flush for T where T: Handle<DbPtr> + Write {
    open spec fn flush_call(&self, flushopts: FlushOptions) -> CallView {
        CallView::Flush { db: self.raw(), flushopts }
    }

    fn flush_opt(&self, flushopts: &FlushOptions) -> (c: Call) {
        Call::Flush { db: self.handle(), flushopts: *flushopts }
    }
}

impl<T> FlushCF for T where T: Handle<DbPtr> + Write {
    open spec fn flush_cf_call(&self, cf: CfPtr, flushopts: FlushOptions) -> CallView {
        CallView::FlushCf { db: self.raw(), flushopts, cf }
    }

    fn flush_cf_opt(&self, cf: &ColumnFamily, flushopts: &FlushOptions) -> (c: Call) {
        Call::FlushCf { db: self.handle(), flushopts: *flushopts, cf: cf.handle() }
    }
}

} // verus!
