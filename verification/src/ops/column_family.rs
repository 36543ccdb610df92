//! The registry of open column families that every database carries.

use vstd::prelude::*;

use crate::column_family::{cf_ptr, lookup, ColumnFamilies, ColumnFamily};
use crate::handle::CfPtr;

verus! {

pub trait GetColumnFamilys {
    /// Name and address of each open column family.
    spec fn cfs(&self) -> Seq<(Seq<char>, CfPtr)>;

    fn get_cfs(&self) -> (r: &ColumnFamilies)
        ensures
            r@ == self.cfs(),
    ;

    /// The registry, to register or remove a family. What the registry
    /// holds in the end is what is open in the end.
    fn get_mut_cfs(&mut self) -> (r: &mut ColumnFamilies)
        ensures
            r@ == old(self).cfs(),
            final(self).cfs() == final(r)@,
    ;
}

pub trait GetColumnFamily {
    /// The address of the column family open under `name`.
    spec fn cf_lookup(&self, name: Seq<char>) -> Option<CfPtr>;

    /// The column family open under `name`; none for an unknown name.
    fn cf_handle(&self, name: &str) -> (r: Option<&ColumnFamily>)
        ensures
            cf_ptr(r) == self.cf_lookup(name@),
    ;
}

impl<T> GetColumnFamily for T where T: GetColumnFamilys {
    open spec fn cf_lookup(&self, name: Seq<char>) -> Option<CfPtr> {
        lookup(self.cfs(), name)
    }

    fn cf_handle(&self, name: &str) -> (r: Option<&ColumnFamily>) {
        self.get_cfs().get(name)
    }
}

} // verus!
