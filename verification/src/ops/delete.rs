//! Removing a key.

use vstd::prelude::*;
use vstd::slice::slice_to_vec;

use crate::column_family::{cf_ptr, ColumnFamily};
use crate::db_options::WriteOptions;
use crate::engine::{Call, CallView};
use crate::handle::{CfPtr, DbPtr, Handle};
use crate::ops::put::Write;

verus! {

/// The call that removes `key` from the database at `db`: from the column
/// family `cf`, or from the default one when none is named.
pub open spec fn delete_call(
    db: DbPtr,
    cf: Option<CfPtr>,
    key: Seq<u8>,
    writeopts: WriteOptions,
) -> CallView {
    match cf {
        Some(cf) => CallView::DeleteCf { db, writeopts, cf, key },
        None => CallView::Delete { db, writeopts, key },
    }
}

pub trait DeleteCF<W> {
    /// The call that removes `key` through this object.
    spec fn delete_cf_call(&self, cf: Option<CfPtr>, key: Seq<u8>, writeopts: Option<&W>) -> CallView;

    /// Removes `key` from the column family `cf`, or from the default one
    /// when none is named.
    fn delete_cf_full(&self, cf: Option<&ColumnFamily>, key: &[u8], writeopts: Option<&W>) -> (c:
        Call)
        ensures
            c@ == self.delete_cf_call(cf_ptr(cf), key@, writeopts),
    ;
}

impl<T> DeleteCF<WriteOptions> for T where T: Handle<DbPtr> + Write {
    open spec fn delete_cf_call(
        &self,
        cf: Option<CfPtr>,
        key: Seq<u8>,
        writeopts: Option<&WriteOptions>,
    ) -> CallView {
        delete_call(self.raw(), cf, key, WriteOptions::spec_input_or_default(writeopts))
    }

    fn delete_cf_full(
        &self,
        cf: Option<&ColumnFamily>,
        key: &[u8],
        writeopts: Option<&WriteOptions>,
    ) -> (c: Call) {
        let writeopts = WriteOptions::input_or_default(writeopts);
        let key = slice_to_vec(key);
        match cf {
            Some(cf) => Call::DeleteCf { db: self.handle(), writeopts, cf: cf.handle(), key },
            None => Call::Delete { db: self.handle(), writeopts, key },
        }
    }
}

} // verus!
