//! The map stage: one independent transform invocation per document, each
//! output counted and cached as a partial result. Any single failure aborts
//! the whole phase.

use vstd::prelude::*;

use crate::errors::ChainError;
use crate::partial::{Document, PartialResult};
use crate::tokens::TokenCount;
use crate::transform::PromptExecutor;

verus! {

/// Transforms every document, in order, into a partial result whose token
/// count is the counter's count of the transform output. The first failing
/// invocation aborts the phase and is reported with its document's index;
/// a counting failure is reported as a tokenization error.
pub fn run<E: PromptExecutor, C: TokenCount>(
    docs: &Vec<Document>,
    tx: &mut E,
    counter: &C,
) -> (r: Result<Vec<PartialResult>, ChainError>)
    ensures
        r matches Ok(out) ==> out@.len() == docs@.len() && (forall|k: int|
            0 <= k < out@.len() ==> (#[trigger] out@[k]).tokens == counter.spec_count(
                out@[k].text@,
            )),
        docs@.len() == 0 ==> r is Ok,
        r matches Err(e) ==> (e is MapStage || e is Tokenization),
        r matches Err(e) ==> (e matches ChainError::MapStage { index, cause } ==> index
            < docs@.len()),
{
    let mut out: Vec<PartialResult> = Vec::new();
    let mut i: usize = 0;
    while i < docs.len()
        invariant
            i <= docs@.len(),
            out@.len() == i,
            forall|k: int|
                0 <= k < out@.len() ==> (#[trigger] out@[k]).tokens == counter.spec_count(
                    out@[k].text@,
                ),
        decreases docs@.len() - i,
    {
        let summary = match tx.invoke(docs[i].text.as_str(), &docs[i].params) {
            Ok(s) => s,
            Err(e) => {
                return Err(ChainError::MapStage { index: i, cause: e });
            },
        };
        match PartialResult::of_text(summary, counter) {
            Ok(p) => out.push(p),
            Err(e) => {
                return Err(ChainError::Tokenization(e));
            },
        }
        i = i + 1;
    }
    Ok(out)
}

} // verus!
