//! The chain orchestrator: resolve the model profile once, run the map
//! stage, then the reduce stage, and surface the final text or the first
//! stage error unchanged.

use vstd::prelude::*;

use crate::errors::ChainError;
use crate::map_stage;
use crate::model::ModelOpt;
use crate::partial::Document;
use crate::reduce;
use crate::tokens::{token_count, ProfileCounter};
use crate::transform::PromptExecutor;

verus! {

/// The token budget left for content once the overhead margin is reserved
/// out of the profile's context window.
pub open spec fn spec_budget(window: int, overhead_margin: int) -> int {
    if overhead_margin >= window {
        0
    } else {
        window - overhead_margin
    }
}

/// The content budget of a profile: its context window minus the overhead
/// margin, and never below zero.
pub fn budget_for(profile: &ModelOpt, overhead_margin: usize) -> (r: usize)
    ensures
        r == spec_budget(
            ModelOpt::spec_max_tokens(profile.spec_id()),
            overhead_margin as int,
        ),
{
    let window = profile.max_tokens_allowed();
    if overhead_margin >= window {
        0
    } else {
        window - overhead_margin
    }
}

/// Runs the whole chain: resolves the profile from `model_name`, maps every
/// document through `map_tx`, then reduces the partial results under the
/// profile's budget through `reduce_tx`, counting tokens with the profile's
/// encoder throughout. The first stage error is returned unchanged.
pub fn run<M: PromptExecutor, R: PromptExecutor>(
    docs: &Vec<Document>,
    model_name: String,
    overhead_margin: usize,
    map_tx: &mut M,
    reduce_tx: &mut R,
) -> (r: Result<String, ChainError>)
    requires
        docs@.len() >= 1,
        model_name@.len() > 0,
    ensures
        r matches Ok(text) ==> token_count(model_name@, text@) <= spec_budget(
            ModelOpt::spec_max_tokens(model_name@),
            overhead_margin as int,
        ),
        r matches Err(e) ==> (e matches ChainError::MapStage { index, cause } ==> index
            < docs@.len()),
{
    let profile = ModelOpt::new(model_name);
    let budget = budget_for(&profile, overhead_margin);
    let counter = ProfileCounter::new(profile);
    let mapped = match map_stage::run(docs, map_tx, &counter) {
        Ok(mapped) => mapped,
        Err(e) => {
            return Err(e);
        },
    };
    let outcome = match reduce::run(mapped, budget, 0, reduce_tx, &counter) {
        Ok(outcome) => outcome,
        Err(e) => {
            return Err(e);
        },
    };
    Ok(outcome.result.text)
}

} // verus!
