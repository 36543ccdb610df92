//! Reading the value of a key.

use vstd::prelude::*;
use vstd::slice::slice_to_vec;

use crate::column_family::{cf_ptr, ColumnFamily};
use crate::db_options::ReadOptions;
use crate::db_vector::DBVector;
use crate::engine::{ffi_try, Call, CallView, Reply};
use crate::error::Error;
use crate::ffi_util::utf8_lossy;
use crate::handle::{CfPtr, DbPtr, Handle};

verus! {

/// Marks what can be read from.
pub trait Read {

}

/// The call that reads `key` from the database at `db`: from the column
/// family `cf`, or from the default one when none is named.
pub open spec fn get_call(
    db: DbPtr,
    cf: Option<CfPtr>,
    key: Seq<u8>,
    readopts: ReadOptions,
) -> CallView {
    match cf {
        Some(cf) => CallView::GetCf { db, readopts, cf, key },
        None => CallView::Get { db, readopts, key },
    }
}

pub trait GetCF<R> {
    /// The call that reads `key` through this object.
    spec fn get_cf_call(&self, cf: Option<CfPtr>, key: Seq<u8>, readopts: Option<&R>) -> CallView;

    /// Reads `key` from the column family `cf`, or from the default one
    /// when none is named, with `readopts` or else the default options.
    fn get_cf_full(&self, cf: Option<&ColumnFamily>, key: &[u8], readopts: Option<&R>) -> (c: Call)
        ensures
            c@ == self.get_cf_call(cf_ptr(cf), key@, readopts),
    ;
}

impl<T> GetCF<ReadOptions> for T where T: Handle<DbPtr> + Read {
    open spec fn get_cf_call(
        &self,
        cf: Option<CfPtr>,
        key: Seq<u8>,
        readopts: Option<&ReadOptions>,
    ) -> CallView {
        get_call(self.raw(), cf, key, ReadOptions::spec_input_or_default(readopts))
    }

    fn get_cf_full(
        &self,
        cf: Option<&ColumnFamily>,
        key: &[u8],
        readopts: Option<&ReadOptions>,
    ) -> (c: Call) {
        let readopts = ReadOptions::input_or_default(readopts);
        let key = slice_to_vec(key);
        match cf {
            Some(cf) => Call::GetCf { db: self.handle(), readopts, cf: cf.handle(), key },
            None => Call::Get { db: self.handle(), readopts, key },
        }
    }
}

/// What a read returns for a reply: the error if the engine reported one;
/// no value if the engine returned none, which is how a missing key shows;
/// the value otherwise.
pub open spec fn value_read(
    value: Option<Vec<u8>>,
    error: Option<Vec<u8>>,
    r: Result<Option<DBVector>, Error>,
) -> bool {
    match error {
        Some(message) => r is Err && r->Err_0@ == utf8_lossy(message@),
        None => match value {
            None => r == Ok::<Option<DBVector>, Error>(None),
            Some(bytes) => r is Ok && r->Ok_0 is Some && r->Ok_0->0@ == bytes@,
        },
    }
}

/// Completes a read with the engine's reply.
pub fn read_value(reply: Reply<Option<Vec<u8>>>) -> (r: Result<Option<DBVector>, Error>)
    ensures
        value_read(reply.value, reply.error, r),
{
    match ffi_try(reply) {
        Err(e) => Err(e),
        Ok(None) => Ok(None),
        Ok(Some(bytes)) => Ok(Some(DBVector::from_c(bytes))),
    }
}

} // verus!
