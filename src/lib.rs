//! A minimal compilation driver: it checks a source text against the accepted
//! grammar, lowers an accepted program to an assembly listing, and decides the
//! steps of the assembler / linker run together with how failures propagate.
use vstd::prelude::*;

pub mod codegen;
pub mod driver;
pub mod source;
pub mod toolchain;

verus! {

} // verus!
