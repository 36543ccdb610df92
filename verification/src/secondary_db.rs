//! A database opened as a follower of a primary: it reads what the primary
//! had written when the follower last caught up.

use vstd::prelude::*;
use vstd::string::*;
use vstd::utf8::encode_utf8;

use crate::column_family::{
    destroy_calls, handle_views, lemma_registering, ColumnFamilies,
    ColumnFamily,
};
use crate::db_iterator::PendingRawIterator;
use crate::db_options::{OptionsView, ReadOptions};
use crate::engine::{call_views, Call, CallView};
use crate::error::Error;
use crate::ffi_util::{has_nul, to_cpath};
use crate::handle::{CfPtr, DbPtr, Handle};
use crate::open_raw::{bad_path_message, OpenRaw, OpenRawFFI};
use crate::ops::column_family::GetColumnFamilys;
use crate::ops::get::Read;
use crate::ops::iter::{Iterate, IterateCF};

verus! {

#[derive(Debug)]
pub struct SecondaryDB {
    inner: DbPtr,
    cfs: ColumnFamilies,
    path: String,
}

impl SecondaryDB {
    pub fn path(&self) -> (p: &str)
        ensures
            p@ == self.path_text(),
    {
        self.path.as_str()
    }

    /// The call that brings the follower up to what the primary has
    /// written by now. Until it is made, the follower reads what it read
    /// before.
    pub fn try_catch_up_with_primary(&self) -> (c: Call)
        ensures
            c@ == (CallView::TryCatchUpWithPrimary { db: self.raw() }),
    {
        Call::TryCatchUpWithPrimary { db: self.inner }
    }

    /// Tears the database down: the calls that destroy the handle of every
    /// open column family, and after them the call that closes the
    /// database.
    pub fn close(self) -> (calls: Vec<Call>)
        ensures
            call_views(calls@) == destroy_calls(self.cfs()).push(
                CallView::Close { db: self.raw() },
            ),
    {
        let db = self.inner;
        let ghost entries = self.cfs@;
        let mut calls = self.cfs.close();
        calls.push(Call::Close { db });
        assert(call_views(calls@) =~= destroy_calls(entries).push(CallView::Close { db }));
        calls
    }
}

#[derive(Debug)]
pub struct SecondaryOpenDescriptor {
    secondary_path: String,
}

impl View for SecondaryOpenDescriptor {
    type V = Seq<char>;

    /// The path of the directory the follower keeps its own files in.
    closed spec fn view(&self) -> Seq<char> {
        self.secondary_path@
    }
}

impl Default for SecondaryOpenDescriptor {
    fn default() -> (d: SecondaryOpenDescriptor)
        ensures
            d@ == Seq::<char>::empty(),
    {
        SecondaryOpenDescriptor { secondary_path: String::new() }
    }
}

impl SecondaryOpenDescriptor {
    pub fn new(secondary_path: String) -> (d: SecondaryOpenDescriptor)
        ensures
            d@ == secondary_path@,
    {
        Self { secondary_path }
    }
}

/// What the error says when a follower is opened without a path of its
/// own.
pub open spec fn missing_secondary_path_message() -> Seq<char> {
    "Secondary DB must have secondary path provided!"@
}

impl OpenRaw for SecondaryDB {
    type Descriptor = SecondaryOpenDescriptor;

    open spec fn open_call(
        options: OptionsView,
        path: Seq<u8>,
        open_descriptor: SecondaryOpenDescriptor,
        column_families: Seq<(Seq<u8>, OptionsView)>,
    ) -> Result<CallView, Seq<char>> {
        let secondary_path = encode_utf8(open_descriptor@);
        if open_descriptor@.len() == 0 {
            Err(missing_secondary_path_message())
        } else if has_nul(secondary_path) {
            Err(bad_path_message())
        } else if column_families.len() == 0 {
            Ok(CallView::OpenAsSecondary { options, path, secondary_path })
        } else {
            Ok(
                CallView::OpenAsSecondaryColumnFamilies {
                    options,
                    path,
                    secondary_path,
                    families: column_families,
                },
            )
        }
    }

    closed spec fn path_text(&self) -> Seq<char> {
        self.path@
    }

    fn open_ffi(input: OpenRawFFI<'_, SecondaryOpenDescriptor>) -> (r: Result<Call, Error>) {
        if input.open_descriptor.secondary_path.as_str().is_empty() {
            return Err(
                Error::new(String::from_str("Secondary DB must have secondary path provided!")),
            );
        }
        let secondary_path = match to_cpath(
            input.open_descriptor.secondary_path.as_str(),
            "Failed to convert path to CString when opening database.",
        ) {
            Ok(p) => p,
            Err(e) => {
                return Err(e);
            },
        };
        let call = if input.column_families.len() == 0 {
            Call::OpenAsSecondary {
                options: input.options.clone(),
                path: input.path,
                secondary_path,
            }
        } else {
            Call::OpenAsSecondaryColumnFamilies {
                options: input.options.clone(),
                path: input.path,
                secondary_path,
                families: input.column_families,
            }
        };
        Ok(call)
    }

    fn build(
        path: String,
        _open_descriptor: SecondaryOpenDescriptor,
        pointer: DbPtr,
        column_families: Vec<(String, CfPtr)>,
    ) -> (r: Result<Self, Error>) {
        proof {
            lemma_registering(Seq::empty(), handle_views(column_families@));
        }
        match ColumnFamilies::from_handles(column_families) {
            Err(e) => Err(e),
            Ok(cfs) => Ok(SecondaryDB { inner: pointer, cfs, path }),
        }
    }
}

impl Handle<DbPtr> for SecondaryDB {
    closed spec fn raw(&self) -> DbPtr {
        self.inner
    }

    fn handle(&self) -> (p: DbPtr) {
        self.inner
    }
}

impl Iterate for SecondaryDB {
    open spec fn raw_iter_call(&self, readopts: ReadOptions) -> CallView {
        CallView::CreateIterator { db: self.raw(), readopts }
    }

    fn get_raw_iter<'a: 'b, 'b>(&'a self, readopts: &ReadOptions) -> (p: PendingRawIterator<'b>) {
        PendingRawIterator::new(Call::CreateIterator { db: self.inner, readopts: *readopts })
    }
}

impl IterateCF for SecondaryDB {
    open spec fn raw_iter_cf_call(&self, cf: CfPtr, readopts: ReadOptions) -> CallView {
        CallView::CreateIteratorCf { db: self.raw(), readopts, cf }
    }

    fn get_raw_iter_cf<'a: 'b, 'b>(
        &'a self,
        cf_handle: &ColumnFamily,
        readopts: &ReadOptions,
    ) -> (r: Result<PendingRawIterator<'b>, Error>) {
        Ok(
            PendingRawIterator::new(
                Call::CreateIteratorCf {
                    db: self.inner,
                    readopts: *readopts,
                    cf: cf_handle.handle(),
                },
            ),
        )
    }
}

impl GetColumnFamilys for SecondaryDB {
    closed spec fn cfs(&self) -> Seq<(Seq<char>, CfPtr)> {
        self.cfs@
    }

    fn get_cfs(&self) -> (r: &ColumnFamilies) {
        &self.cfs
    }

    fn get_mut_cfs(&mut self) -> (r: &mut ColumnFamilies)
        ensures
            final(self).raw() == old(self).raw(),
            final(self).path_text() == old(self).path_text(),
    {
        &mut self.cfs
    }
}

impl Read for SecondaryDB {

}

} // verus!
