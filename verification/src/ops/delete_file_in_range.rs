//! Dropping the files that lie wholly inside a key range.
//!
//! This can be used before a deleted range is compacted, as long as
//! snapshot readers do not need the files: it saves the rewriting that the
//! data would go through on its way to the bottom of the tree, where
//! tombstones can finally be dropped.

use vstd::prelude::*;
use vstd::slice::slice_to_vec;

use crate::column_family::{cf_ptr, ColumnFamily};
use crate::engine::{Call, CallView};
use crate::handle::{CfPtr, DbPtr, Handle};
use crate::ops::put::Write;

verus! {

pub trait DeleteFileInRange {
    /// The call that drops the files between the two keys in the default
    /// column family.
    spec fn delete_file_in_range_default_call(
        &self,
        start_key: Seq<u8>,
        limit_key: Seq<u8>,
    ) -> CallView;

    fn delete_file_in_range(&self, start_key: &[u8], limit_key: &[u8]) -> (c: Call)
        ensures
            c@ == self.delete_file_in_range_default_call(start_key@, limit_key@),
    ;
}

impl<T> DeleteFileInRange for T where T: DeleteFileInRangeCF {
    open spec fn delete_file_in_range_default_call(
        &self,
        start_key: Seq<u8>,
        limit_key: Seq<u8>,
    ) -> CallView {
        self.delete_file_in_range_call(None, start_key, limit_key)
    }

    fn delete_file_in_range(&self, start_key: &[u8], limit_key: &[u8]) -> (c: Call) {
        self.delete_file_in_range_cf_full(None, start_key, limit_key)
    }
}

pub trait DeleteFileInRangeCF {
    /// The call that drops the files between the two keys: in the column
    /// family `cf`, or in the default one when none is named.
    spec fn delete_file_in_range_call(
        &self,
        cf: Option<CfPtr>,
        start_key: Seq<u8>,
        limit_key: Seq<u8>,
    ) -> CallView;

    fn delete_file_in_range_cf(&self, cf: &ColumnFamily, start_key: &[u8], limit_key: &[u8]) -> (c:
        Call)
        ensures
            c@ == self.delete_file_in_range_call(Some(cf.raw()), start_key@, limit_key@),
    {
        self.delete_file_in_range_cf_full(Some(cf), start_key, limit_key)
    }

    fn delete_file_in_range_cf_full(
        &self,
        cf: Option<&ColumnFamily>,
        start_key: &[u8],
        limit_key: &[u8],
    ) -> (c: Call)
        ensures
            c@ == self.delete_file_in_range_call(cf_ptr(cf), start_key@, limit_key@),
    ;
}

impl<T> DeleteFileInRangeCF for T where T: Handle<DbPtr> + Write {
    open spec fn delete_file_in_range_call(
        &self,
        cf: Option<CfPtr>,
        start_key: Seq<u8>,
        limit_key: Seq<u8>,
    ) -> CallView {
        match cf {
            Some(cf) => CallView::DeleteFileInRangeCf { db: self.raw(), cf, start_key, limit_key },
            None => CallView::DeleteFileInRange { db: self.raw(), start_key, limit_key },
        }
    }

    fn delete_file_in_range_cf_full(
        &self,
        cf: Option<&ColumnFamily>,
        start_key: &[u8],
        limit_key: &[u8],
    ) -> (c: Call) {
        let start_key = slice_to_vec(start_key);
        let limit_key = slice_to_vec(limit_key);
        match cf {
            Some(cf) => Call::DeleteFileInRangeCf {
                db: self.handle(),
                cf: cf.handle(),
                start_key,
                limit_key,
            },
            None => Call::DeleteFileInRange { db: self.handle(), start_key, limit_key },
        }
    }
}

} // verus!
