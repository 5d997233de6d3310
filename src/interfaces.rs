use vstd::prelude::*;

verus! {

/// How a record on one side of the ERP interface differs from the other.
#[derive(Debug)]
pub enum Status<T> {
    Same,
    Add(T),
    Delete,
    Change(T),
}

/// Records that can be compared across the ERP interface.
pub trait SapSigmanestDiff {
    type Change;

    fn diff(&self, other: &Self) -> Status<Self::Change>;
}

/// A demand event sent by the ERP system. It carries no fields yet.
#[derive(Debug)]
pub struct Demand {}

/// An execution report for one archive packet.
#[derive(Debug)]
pub struct Execution {
    pub id: u32,
}

} // verus!
