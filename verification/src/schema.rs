use vstd::prelude::*;

verus! {

/// The SQL type of the label paths that identify permissions.
#[derive(Debug, Clone, Copy)]
pub struct Ltree;

} // verus!
