//! Opening cursors on a source, for each kind of iteration.

use vstd::prelude::*;

use crate::column_family::ColumnFamily;
use crate::db_iterator::{
    Direction, IteratorMode, PendingCursor, PendingIterator, PendingRawIterator,
    SeekView,
};
use crate::db_options::ReadOptions;
use crate::engine::CallView;
use crate::error::Error;
use crate::handle::{CfPtr, Handle};

verus! {

/// The defaults with total-order seek switched on.
pub open spec fn total_order_options() -> ReadOptions {
    ReadOptions { total_order_seek: true, ..ReadOptions::spec_default() }
}

/// The defaults with the cursor bound to the prefix it starts in.
pub open spec fn prefix_options() -> ReadOptions {
    ReadOptions { prefix_same_as_start: true, ..ReadOptions::spec_default() }
}

pub trait Iterate {
    /// The call that opens a cursor on this source.
    spec fn raw_iter_call(&self, readopts: ReadOptions) -> CallView;

    fn get_raw_iter<'a: 'b, 'b>(&'a self, readopts: &ReadOptions) -> (p: PendingRawIterator<'b>)
        ensures
            p@ == self.raw_iter_call(*readopts),
    ;

    fn get_iter<'a: 'b, 'b>(&'a self, readopts: &ReadOptions, mode: IteratorMode<'_>) -> (p:
        PendingIterator<'b>)
        ensures
            p@ == (PendingCursor { create: self.raw_iter_call(*readopts), seek: mode@.seek() }),
    {
        PendingIterator::new(self.get_raw_iter(readopts), mode)
    }

    fn iterator_opt<'a: 'b, 'b>(&'a self, mode: IteratorMode<'_>, readopts: &ReadOptions) -> (p:
        PendingIterator<'b>)
        ensures
            p@ == (PendingCursor { create: self.raw_iter_call(*readopts), seek: mode@.seek() }),
    {
        self.get_iter(readopts, mode)
    }

    fn iterator<'a: 'b, 'b>(&'a self, mode: IteratorMode<'_>) -> (p: PendingIterator<'b>)
        ensures
            p@ == (PendingCursor {
                create: self.raw_iter_call(ReadOptions::spec_default()),
                seek: mode@.seek(),
            }),
    {
        let readopts = ReadOptions::default();
        self.iterator_opt(mode, &readopts)
    }

    /// Opens an interator with `set_total_order_seek` enabled.
    /// This must be used to iterate across prefixes when `set_memtable_factory` has been called
    /// with a Hash-based implementation.
    fn full_iterator<'a: 'b, 'b>(&'a self, mode: IteratorMode<'_>) -> (p: PendingIterator<'b>)
        ensures
            p@ == (PendingCursor {
                create: self.raw_iter_call(total_order_options()),
                seek: mode@.seek(),
            }),
    {
        let mut opts = ReadOptions::default();
        opts.set_total_order_seek(true);
        self.get_iter(&opts, mode)
    }

    fn prefix_iterator<'a: 'b, 'b>(&'a self, prefix: &[u8]) -> (p: PendingIterator<'b>)
        ensures
            p@ == (PendingCursor {
                create: self.raw_iter_call(prefix_options()),
                seek: SeekView::To(prefix@),
            }),
    {
        let mut opts = ReadOptions::default();
        opts.set_prefix_same_as_start(true);
        self.get_iter(&opts, IteratorMode::From(prefix, Direction::Forward))
    }

    fn raw_iterator<'a: 'b, 'b>(&'a self) -> (p: PendingRawIterator<'b>)
        ensures
            p@ == self.raw_iter_call(ReadOptions::spec_default()),
    {
        let opts = ReadOptions::default();
        self.get_raw_iter(&opts)
    }
}

pub trait IterateCF: Iterate {
    /// The call that opens a cursor on one column family of this source.
    spec fn raw_iter_cf_call(&self, cf: CfPtr, readopts: ReadOptions) -> CallView;

    fn get_raw_iter_cf<'a: 'b, 'b>(
        &'a self,
        cf_handle: &ColumnFamily,
        readopts: &ReadOptions,
    ) -> (r: Result<PendingRawIterator<'b>, Error>)
        ensures
            r is Ok,
            r->Ok_0@ == self.raw_iter_cf_call(cf_handle.raw(), *readopts),
    ;

    fn get_iter_cf<'a: 'b, 'b>(
        &'a self,
        cf_handle: &ColumnFamily,
        readopts: &ReadOptions,
        mode: IteratorMode<'_>,
    ) -> (r: Result<PendingIterator<'b>, Error>)
        ensures
            r is Ok,
            r->Ok_0@ == (PendingCursor {
                create: self.raw_iter_cf_call(cf_handle.raw(), *readopts),
                seek: mode@.seek(),
            }),
    {
        match self.get_raw_iter_cf(cf_handle, readopts) {
            Ok(raw) => Ok(PendingIterator::new(raw, mode)),
            Err(e) => Err(e),
        }
    }

    /// Opens an interator using the provided ReadOptions.
    /// This is used when you want to iterate over a specific ColumnFamily with a modified ReadOptions
    fn iterator_cf_opt<'a: 'b, 'b>(
        &'a self,
        cf_handle: &ColumnFamily,
        mode: IteratorMode<'_>,
        readopts: &ReadOptions,
    ) -> (r: Result<PendingIterator<'b>, Error>)
        ensures
            r is Ok,
            r->Ok_0@ == (PendingCursor {
                create: self.raw_iter_cf_call(cf_handle.raw(), *readopts),
                seek: mode@.seek(),
            }),
    {
        self.get_iter_cf(cf_handle, readopts, mode)
    }

    fn iterator_cf<'a: 'b, 'b>(&'a self, cf_handle: &ColumnFamily, mode: IteratorMode<'_>) -> (r:
        Result<PendingIterator<'b>, Error>)
        ensures
            r is Ok,
            r->Ok_0@ == (PendingCursor {
                create: self.raw_iter_cf_call(cf_handle.raw(), ReadOptions::spec_default()),
                seek: mode@.seek(),
            }),
    {
        let opts = ReadOptions::default();
        self.get_iter_cf(cf_handle, &opts, mode)
    }

    fn full_iterator_cf<'a: 'b, 'b>(
        &'a self,
        cf_handle: &ColumnFamily,
        mode: IteratorMode<'_>,
    ) -> (r: Result<PendingIterator<'b>, Error>)
        ensures
            r is Ok,
            r->Ok_0@ == (PendingCursor {
                create: self.raw_iter_cf_call(cf_handle.raw(), total_order_options()),
                seek: mode@.seek(),
            }),
    {
        let mut opts = ReadOptions::default();
        opts.set_total_order_seek(true);
        self.get_iter_cf(cf_handle, &opts, mode)
    }

    fn prefix_iterator_cf<'a: 'b, 'b>(&'a self, cf_handle: &ColumnFamily, prefix: &[u8]) -> (r:
        Result<PendingIterator<'b>, Error>)
        ensures
            r is Ok,
            r->Ok_0@ == (PendingCursor {
                create: self.raw_iter_cf_call(cf_handle.raw(), prefix_options()),
                seek: SeekView::To(prefix@),
            }),
    {
        let mut opts = ReadOptions::default();
        opts.set_prefix_same_as_start(true);
        self.get_iter_cf(cf_handle, &opts, IteratorMode::From(prefix, Direction::Forward))
    }

    fn raw_iterator_cf<'a: 'b, 'b>(&'a self, cf_handle: &ColumnFamily) -> (r: Result<
        PendingRawIterator<'b>,
        Error,
    >)
        ensures
            r is Ok,
            r->Ok_0@ == self.raw_iter_cf_call(cf_handle.raw(), ReadOptions::spec_default()),
    {
        let opts = ReadOptions::default();
        self.get_raw_iter_cf(cf_handle, &opts)
    }
}

} // verus!
