//! The error taxonomy of the chain: every failure names the phase and the
//! item that caused it, and no partial output is ever returned beside one.

use vstd::prelude::*;

verus! {

/// Why the token-counting backend could not serve a model identifier.
#[derive(Debug)]
pub enum TokenizationError {
    /// The encoder library cannot produce an encoder for the resolved
    /// identifier.
    UnknownModel,
    /// The encoder gave up on the text at run time instead of returning a
    /// token sequence.
    EncodingFailed,
}

/// A failure reported by the external prompt executor; carried through the
/// stages unchanged.
#[derive(Debug)]
pub struct ExecutorError {
    pub message: String,
}

/// The terminal error of a chain run.
#[derive(Debug)]
pub enum ChainError {
    /// Token counting was attempted for a model the encoder library does not
    /// know.
    Tokenization(TokenizationError),
    /// A single candidate text cannot fit in any batch even alone.
    OversizedItem { index: usize, tokens: usize },
    /// One map invocation failed; the whole map phase is abandoned.
    MapStage { index: usize, cause: ExecutorError },
    /// No two neighbouring partial results fit one batch together, so a
    /// further generation could not shrink the result count.
    ReduceStalled { budget: usize, largest_index: usize, largest_tokens: usize },
    /// A merge invocation failed during the reduce phase.
    Executor(ExecutorError),
}

} // verus!
