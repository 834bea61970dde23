//! Documents and partial results: the values the stages pass along.

use vstd::prelude::*;

use crate::errors::TokenizationError;
use crate::tokens::TokenCount;

verus! {

/// A source document: raw text plus named parameters that are handed through
/// to the map transformation untouched.
pub struct Document {
    pub text: String,
    pub params: Vec<(String, String)>,
}

/// A partial result: a text together with its token count, cached when the
/// value is made and never recomputed.
#[derive(Debug)]
pub struct PartialResult {
    pub text: String,
    pub tokens: usize,
}

impl Clone for PartialResult {
    fn clone(&self) -> (r: Self)
        ensures
            r == *self,
    {
        PartialResult { text: self.text.clone(), tokens: self.tokens }
    }
}

impl PartialResult {
    /// Makes a partial result whose cached count is the counter's count of
    /// `text`; it fails exactly when the counter does.
    pub fn of_text<C: TokenCount>(text: String, counter: &C) -> (r: Result<
        PartialResult,
        TokenizationError,
    >)
        ensures
            r is Ok <==> counter.spec_ok(text@),
            r matches Ok(p) ==> p.text == text && p.tokens == counter.spec_count(text@),
    {
        match counter.count(text.as_str()) {
            Ok(n) => Ok(PartialResult { text, tokens: n }),
            Err(e) => Err(e),
        }
    }
}

} // verus!
