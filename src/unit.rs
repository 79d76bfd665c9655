use vstd::prelude::*;

verus! {

/// A unit of measure; `unit_id` is set once the unit is persisted.
#[derive(Debug)]
pub struct Unit {
    pub unit_id: Option<i32>,
    pub singular_name: String,
    pub plural_name: String,
}

} // verus!
