//! Writing the value of a key.

use vstd::prelude::*;
use vstd::slice::slice_to_vec;

use crate::column_family::{cf_ptr, ColumnFamily};
use crate::db_options::WriteOptions;
use crate::engine::{Call, CallView};
use crate::handle::{CfPtr, DbPtr, Handle};

verus! {

/// Marks what can be written to.
pub trait Write {

}

/// The call that writes `value` under `key` in the database at `db`: in the
/// column family `cf`, or in the default one when none is named.
pub open spec fn put_call(
    db: DbPtr,
    cf: Option<CfPtr>,
    key: Seq<u8>,
    value: Seq<u8>,
    writeopts: WriteOptions,
) -> CallView {
    match cf {
        Some(cf) => CallView::PutCf { db, writeopts, cf, key, value },
        None => CallView::Put { db, writeopts, key, value },
    }
}

pub trait PutCF<W> {
    /// The call that writes `value` under `key` through this object.
    spec fn put_cf_call(
        &self,
        cf: Option<CfPtr>,
        key: Seq<u8>,
        value: Seq<u8>,
        writeopts: Option<&W>,
    ) -> CallView;

    /// Writes `value` under `key` in the column family `cf`, or in the
    /// default one when none is named.
    fn put_cf_full(
        &self,
        cf: Option<&ColumnFamily>,
        key: &[u8],
        value: &[u8],
        writeopts: Option<&W>,
    ) -> (c: Call)
        ensures
            c@ == self.put_cf_call(cf_ptr(cf), key@, value@, writeopts),
    ;
}

impl<T> PutCF<WriteOptions> for T where T: Handle<DbPtr> + Write {
    open spec fn put_cf_call(
        &self,
        cf: Option<CfPtr>,
        key: Seq<u8>,
        value: Seq<u8>,
        writeopts: Option<&WriteOptions>,
    ) -> CallView {
        put_call(self.raw(), cf, key, value, WriteOptions::spec_input_or_default(writeopts))
    }

    fn put_cf_full(
        &self,
        cf: Option<&ColumnFamily>,
        key: &[u8],
        value: &[u8],
        writeopts: Option<&WriteOptions>,
    ) -> (c: Call) {
        let writeopts = WriteOptions::input_or_default(writeopts);
        let key = slice_to_vec(key);
        let value = slice_to_vec(value);
        match cf {
            Some(cf) => Call::PutCf { db: self.handle(), writeopts, cf: cf.handle(), key, value },
            None => Call::Put { db: self.handle(), writeopts, key, value },
        }
    }
}

} // verus!
