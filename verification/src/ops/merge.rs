//! Merging an operand into the value of a key.

use vstd::prelude::*;

use crate::column_family::{cf_ptr, ColumnFamily};
use crate::engine::{Call, CallView};
use crate::handle::{CfPtr, Handle};

verus! {

pub trait MergeCF<W> {
    /// The call that merges `value` into `key` through this object.
    spec fn merge_cf_call(
        &self,
        cf: Option<CfPtr>,
        key: Seq<u8>,
        value: Seq<u8>,
        writeopts: Option<&W>,
    ) -> CallView;

    /// Merges `value` into what `key` holds in the column family `cf`, or
    /// in the default one when none is named.
    fn merge_cf_full(
        &self,
        cf: Option<&ColumnFamily>,
        key: &[u8],
        value: &[u8],
        writeopts: Option<&W>,
    ) -> (c: Call)
        ensures
            c@ == self.merge_cf_call(cf_ptr(cf), key@, value@, writeopts),
    ;
}

} // verus!
