//! Compiled shader programs as the pipeline receives them.
use vstd::prelude::*;

verus! {

/// A shader compiled to SPIR-V: the program's bytes, unchanged.
#[derive(Debug)]
pub struct SlangShader(pub Vec<u8>);

} // verus!
