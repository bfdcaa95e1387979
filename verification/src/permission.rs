//! Users' access to the entities of the OLAP model.
use vstd::prelude::*;

pub mod permis_obj;

verus! {

/// The accesses of one user to the entities of the OLAP model.
#[derive(Debug, Clone, Copy)]
pub struct UserAccessesCollection {}

} // verus!
