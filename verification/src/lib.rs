//! Compiles declarative object schemas into the source text of reflective
//! accessor wrappers.
use vstd::prelude::*;

pub mod compiler;
pub mod java;
pub mod schema;
pub mod text;

verus! {

} // verus!
