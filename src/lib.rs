use vstd::prelude::*;

pub mod delete;
pub mod history;
pub mod order;
pub mod paste;
pub mod path;
pub mod progress;
pub mod rename;
pub mod selection;
pub mod snapshot;
pub mod tab;

verus! {

} // verus!
