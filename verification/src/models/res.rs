use vstd::prelude::*;

verus! {

/// The body of an answer that only reports what was done.
#[derive(Debug, Clone)]
pub struct MessageResponse {
    pub message: String,
}

} // verus!
