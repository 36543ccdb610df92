//! Native resource addresses and the capabilities that hand them out.

use vstd::prelude::*;

verus! {

/// Address of an open database instance.
#[derive(Clone, Copy, PartialEq, Eq, Structural, Debug, Hash)]
pub struct DbPtr(pub usize);

/// Address of a column-family handle.
#[derive(Clone, Copy, PartialEq, Eq, Structural, Debug, Hash)]
pub struct CfPtr(pub usize);

/// Address of a snapshot.
#[derive(Clone, Copy, PartialEq, Eq, Structural, Debug, Hash)]
pub struct SnapshotPtr(pub usize);

/// Address of a cursor.
#[derive(Clone, Copy, PartialEq, Eq, Structural, Debug, Hash)]
pub struct IterPtr(pub usize);

/// Address of a transaction.
#[derive(Clone, Copy, PartialEq, Eq, Structural, Debug, Hash)]
pub struct TxnPtr(pub usize);

/// Address of an engine-side options object.
#[derive(Clone, Copy, PartialEq, Eq, Structural, Debug, Hash)]
pub struct OptionsPtr(pub usize);

/// An object that owns a native resource through which the engine may be
/// changed.
pub trait Handle<P> {
    /// The address this object stands for.
    spec fn raw(&self) -> P;

    fn handle(&self) -> (p: P)
        ensures
            p == self.raw(),
    ;
}

/// An object that owns a native resource that can only be read through.
pub trait ConstHandle<P> {
    /// The address this object stands for.
    spec fn const_raw(&self) -> P;

    fn const_handle(&self) -> (p: P)
        ensures
            p == self.const_raw(),
    ;
}

} // verus!
