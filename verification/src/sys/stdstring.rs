//! Vocabulary of the engine's string library.
use vstd::prelude::*;

verus! {

pub type SQRexBool = u32;

/// A compiled regular expression, owned by the engine.
pub struct SQRex;

} // verus!
