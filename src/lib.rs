use vstd::prelude::*;

pub mod concurrent;
pub mod effect;
pub mod error;
pub mod fallible;
pub mod pipeline;
pub mod router;

verus! {

} // verus!
