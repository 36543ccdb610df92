//! A database opened for reading only.

use vstd::prelude::*;
use vstd::string::*;

use crate::column_family::{
    destroy_calls, handle_views, lemma_registering, ColumnFamilies,
    ColumnFamily,
};
use crate::db_iterator::PendingRawIterator;
use crate::db_options::{OptionsView, ReadOptions};
use crate::engine::{call_views, Call, CallView};
use crate::error::Error;
use crate::handle::{CfPtr, DbPtr, Handle};
use crate::open_raw::{OpenRaw, OpenRawFFI};
use crate::ops::column_family::GetColumnFamilys;
use crate::ops::get::Read;
use crate::ops::iter::{Iterate, IterateCF};

verus! {

#[derive(Debug)]
pub struct ReadOnlyDB {
    inner: DbPtr,
    cfs: ColumnFamilies,
    path: String,
}

impl ReadOnlyDB {
    pub fn path(&self) -> (p: &str)
        ensures
            p@ == self.path_text(),
    {
        self.path.as_str()
    }

    /// Tears the database down: the calls that destroy the handle of every
    /// open column family, and after them the call that closes the
    /// database.
    pub fn close(self) -> (calls: Vec<Call>)
        ensures
            call_views(calls@) == destroy_calls(self.cfs()).push(
                CallView::Close { db: self.raw() },
            ),
    {
        let db = self.inner;
        let ghost entries = self.cfs@;
        let mut calls = self.cfs.close();
        calls.push(Call::Close { db });
        assert(call_views(calls@) =~= destroy_calls(entries).push(CallView::Close { db }));
        calls
    }
}

#[derive(Debug)]
pub struct ReadOnlyOpenDescriptor {
    error_if_log_file_exists: bool,
}

impl View for ReadOnlyOpenDescriptor {
    type V = bool;

    /// Whether opening fails when a log file exists.
    closed spec fn view(&self) -> bool {
        self.error_if_log_file_exists
    }
}

impl Default for ReadOnlyOpenDescriptor {
    fn default() -> (d: ReadOnlyOpenDescriptor)
        ensures
            !d@,
    {
        ReadOnlyOpenDescriptor { error_if_log_file_exists: false }
    }
}

impl ReadOnlyOpenDescriptor {
    /// A descriptor that says whether opening fails when a log file exists.
    pub fn new(error_if_log_file_exists: bool) -> (d: ReadOnlyOpenDescriptor)
        ensures
            d@ == error_if_log_file_exists,
    {
        ReadOnlyOpenDescriptor { error_if_log_file_exists }
    }
}

impl OpenRaw for ReadOnlyDB {
    type Descriptor = ReadOnlyOpenDescriptor;

    open spec fn open_call(
        options: OptionsView,
        path: Seq<u8>,
        open_descriptor: ReadOnlyOpenDescriptor,
        column_families: Seq<(Seq<u8>, OptionsView)>,
    ) -> Result<CallView, Seq<char>> {
        if column_families.len() == 0 {
            Ok(
                CallView::OpenForReadOnly {
                    options,
                    path,
                    error_if_log_file_exists: open_descriptor@,
                },
            )
        } else {
            Ok(
                CallView::OpenForReadOnlyColumnFamilies {
                    options,
                    path,
                    families: column_families,
                    error_if_log_file_exists: open_descriptor@,
                },
            )
        }
    }

    closed spec fn path_text(&self) -> Seq<char> {
        self.path@
    }

    fn open_ffi(input: OpenRawFFI<'_, ReadOnlyOpenDescriptor>) -> (r: Result<Call, Error>) {
        let error_if_log_file_exists = input.open_descriptor.error_if_log_file_exists;
        let call = if input.column_families.len() == 0 {
            Call::OpenForReadOnly {
                options: input.options.clone(),
                path: input.path,
                error_if_log_file_exists,
            }
        } else {
            Call::OpenForReadOnlyColumnFamilies {
                options: input.options.clone(),
                path: input.path,
                families: input.column_families,
                error_if_log_file_exists,
            }
        };
        Ok(call)
    }

    fn build(
        path: String,
        _open_descriptor: ReadOnlyOpenDescriptor,
        pointer: DbPtr,
        column_families: Vec<(String, CfPtr)>,
    ) -> (r: Result<Self, Error>) {
        proof {
            lemma_registering(Seq::empty(), handle_views(column_families@));
        }
        match ColumnFamilies::from_handles(column_families) {
            Err(e) => Err(e),
            Ok(cfs) => Ok(ReadOnlyDB { inner: pointer, cfs, path }),
        }
    }
}

impl Handle<DbPtr> for ReadOnlyDB {
    closed spec fn raw(&self) -> DbPtr {
        self.inner
    }

    fn handle(&self) -> (p: DbPtr) {
        self.inner
    }
}

impl Iterate for ReadOnlyDB {
    open spec fn raw_iter_call(&self, readopts: ReadOptions) -> CallView {
        CallView::CreateIterator { db: self.raw(), readopts }
    }

    fn get_raw_iter<'a: 'b, 'b>(&'a self, readopts: &ReadOptions) -> (p: PendingRawIterator<'b>) {
        PendingRawIterator::new(Call::CreateIterator { db: self.inner, readopts: *readopts })
    }
}

impl IterateCF for ReadOnlyDB {
    open spec fn raw_iter_cf_call(&self, cf: CfPtr, readopts: ReadOptions) -> CallView {
        CallView::CreateIteratorCf { db: self.raw(), readopts, cf }
    }

    fn get_raw_iter_cf<'a: 'b, 'b>(
        &'a self,
        cf_handle: &ColumnFamily,
        readopts: &ReadOptions,
    ) -> (r: Result<PendingRawIterator<'b>, Error>) {
        Ok(
            PendingRawIterator::new(
                Call::CreateIteratorCf {
                    db: self.inner,
                    readopts: *readopts,
                    cf: cf_handle.handle(),
                },
            ),
        )
    }
}

impl GetColumnFamilys for ReadOnlyDB {
    closed spec fn cfs(&self) -> Seq<(Seq<char>, CfPtr)> {
        self.cfs@
    }

    fn get_cfs(&self) -> (r: &ColumnFamilies) {
        &self.cfs
    }

    fn get_mut_cfs(&mut self) -> (r: &mut ColumnFamilies)
        ensures
            final(self).raw() == old(self).raw(),
            final(self).path_text() == old(self).path_text(),
    {
        &mut self.cfs
    }
}

impl Read for ReadOnlyDB {

}

} // verus!
