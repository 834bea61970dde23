//! The external prompt executor, seen only through this trait: an opaque,
//! possibly failing call that turns an input text and named parameters into
//! an output text.

use vstd::prelude::*;

use crate::errors::ExecutorError;

verus! {

/// One prompt-execution collaborator. The map and reduce phases each hold
/// their own implementor; the stages promise nothing about what it returns.
pub trait PromptExecutor {
    fn invoke(&mut self, input: &str, params: &Vec<(String, String)>) -> Result<
        String,
        ExecutorError,
    >;
}

} // verus!
