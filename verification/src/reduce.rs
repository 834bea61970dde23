//! The reduce stage: repeatedly plan batches over the current generation of
//! partial results and merge each batch through the external transform,
//! until exactly one result remains.

use vstd::prelude::*;
use vstd::string::*;

use crate::batch;
use crate::errors::ChainError;
use crate::partial::PartialResult;
use crate::tokens::TokenCount;
use crate::transform::PromptExecutor;

verus! {

/// What a finished reduce run reports: the one remaining result and how many
/// generations it took.
#[derive(Debug)]
pub struct ReduceOutcome {
    pub result: PartialResult,
    pub generations: usize,
}

/// The texts of `s`, concatenated in order.
pub open spec fn concat_text_spec(s: Seq<PartialResult>) -> Seq<char>
    decreases s.len(),
{
    if s.len() == 0 {
        Seq::empty()
    } else {
        concat_text_spec(s.drop_last()) + s.last().text@
    }
}

/// Concatenates the texts of the members of a batch, in order.
pub fn concat_texts(items: &Vec<PartialResult>) -> (r: String)
    ensures
        r@ == concat_text_spec(items@),
{
    let mut r = String::new();
    let mut k: usize = 0;
    while k < items.len()
        invariant
            k <= items@.len(),
            r@ == concat_text_spec(items@.subrange(0, k as int)),
        decreases items@.len() - k,
    {
        let ghost prefix = items@.subrange(0, k as int);
        r.append(items[k].text.as_str());
        k = k + 1;
        proof {
            let here = items@.subrange(0, k as int);
            assert(here.drop_last() =~= prefix);
            assert(here.last() == items@[k - 1]);
        }
    }
    proof {
        assert(items@.subrange(0, items@.len() as int) =~= items@);
    }
    r
}

/// The index of an item with the largest token count.
fn largest_index(items: &Vec<PartialResult>) -> (j: usize)
    requires
        items@.len() >= 1,
    ensures
        j < items@.len(),
        forall|k: int|
            0 <= k < items@.len() ==> (#[trigger] items@[k]).tokens <= items@[j as int].tokens,
{
    let mut j: usize = 0;
    let mut k: usize = 1;
    while k < items.len()
        invariant
            j < k <= items@.len(),
            items@.len() >= 1,
            forall|m: int| 0 <= m < k ==> (#[trigger] items@[m]).tokens <= items@[j as int].tokens,
        decreases items@.len() - k,
    {
        if items[k].tokens > items[j].tokens {
            j = k;
        }
        k = k + 1;
    }
    j
}

/// Collapses `results` to a single partial result. Each generation plans
/// batches under `budget` and `overhead`, merges every batch's concatenated
/// text through one `tx` invocation, and counts each merged text with
/// `counter`; the generation count strictly falls each round. A single
/// fitting result is returned as it is, with no transform invocation; an item
/// that cannot fit even alone is reported as oversized; a generation that
/// cannot shrink the result count is reported as stalled.
pub fn run<E: PromptExecutor, C: TokenCount>(
    results: Vec<PartialResult>,
    budget: usize,
    overhead: usize,
    tx: &mut E,
    counter: &C,
) -> (r: Result<ReduceOutcome, ChainError>)
    requires
        results@.len() >= 1,
    ensures
        results@.len() == 1 && results@[0].tokens + overhead <= budget ==> (r matches Ok(out)
            && out.result == results@[0] && out.generations == 0 && *final(tx) == *old(tx)),
        !batch::all_fit(results@, budget as int, overhead as int) ==> (r matches Err(e)
            && e matches ChainError::OversizedItem { index, tokens } && batch::first_oversized(
            results@,
            budget as int,
            overhead as int,
            index as int,
            tokens as int,
        )),
        results@.len() > 1 && batch::all_fit(results@, budget as int, overhead as int)
            && batch::singleton_plan(results@, budget as int, overhead as int) ==> (r matches Err(
            e,
        ) && e matches ChainError::ReduceStalled { budget: b, largest_index, largest_tokens }
            && b == budget && largest_index < results@.len() && largest_tokens
            == results@[largest_index as int].tokens && (forall|k: int|
            0 <= k < results@.len() ==> (#[trigger] results@[k]).tokens <= largest_tokens)),
        r matches Ok(out) ==> out.generations < results@.len() && out.result.tokens + overhead
            <= budget,
        r matches Ok(out) ==> out.result == results@[0] || out.result.tokens
            == counter.spec_count(out.result.text@),
        r matches Err(e) ==> !(e is MapStage),
{
    let n0: usize = results.len();
    let mut current = results;
    let mut generations: usize = 0;
    let empty_params: Vec<(String, String)> = Vec::new();
    loop
        invariant
            current@.len() >= 1,
            n0 == results@.len(),
            generations + current@.len() <= n0,
            generations == 0 ==> current@ == results@ && *tx == *old(tx),
            generations >= 1 ==> results@.len() > 1 && batch::all_fit(
                results@,
                budget as int,
                overhead as int,
            ) && !batch::singleton_plan(results@, budget as int, overhead as int),
            generations >= 1 ==> (forall|m: int|
                0 <= m < current@.len() ==> (#[trigger] current@[m]).tokens == counter.spec_count(
                    current@[m].text@,
                )),
        decreases current@.len(),
    {
        let bs = match batch::plan(&current, budget, overhead) {
            Ok(bs) => bs,
            Err(e) => {
                return Err(e);
            },
        };
        if current.len() == 1 {
            let first = current[0].clone();
            return Ok(ReduceOutcome { result: first, generations });
        }
        if bs.len() == current.len() {
            let j = largest_index(&current);
            let lt = current[j].tokens;
            return Err(
                ChainError::ReduceStalled { budget, largest_index: j, largest_tokens: lt },
            );
        }
        let mut next: Vec<PartialResult> = Vec::new();
        let mut k: usize = 0;
        while k < bs.len()
            invariant
                k <= bs@.len(),
                next@.len() == k,
                current@.len() > 1,
                bs@.len() >= 1,
                bs@.len() < current@.len(),
                n0 == results@.len(),
                generations + current@.len() <= n0,
                generations == 0 ==> current@ == results@,
                batch::all_fit(results@, budget as int, overhead as int),
                !batch::singleton_plan(results@, budget as int, overhead as int) || results@.len() <= 1,
                generations >= 1 ==> results@.len() > 1,
                forall|m: int|
                    0 <= m < next@.len() ==> (#[trigger] next@[m]).tokens == counter.spec_count(
                        next@[m].text@,
                    ),
            decreases bs@.len() - k,
        {
            let merged = concat_texts(&bs[k].items);
            let out = match tx.invoke(merged.as_str(), &empty_params) {
                Ok(out) => out,
                Err(e) => {
                    return Err(ChainError::Executor(e));
                },
            };
            match PartialResult::of_text(out, counter) {
                Ok(p) => next.push(p),
                Err(e) => {
                    return Err(ChainError::Tokenization(e));
                },
            }
            k = k + 1;
        }
        generations = generations + 1;
        current = next;
    }
}

} // verus!
