//! The batch planner: greedy left-to-right partition of an ordered sequence
//! of partial results into the fewest ordered batches that respect a token
//! budget with a fixed per-item overhead.

use vstd::prelude::*;
use vstd::seq_lib::*;

use crate::errors::ChainError;
use crate::partial::PartialResult;

verus! {

/// One planned batch: its members in input order and the running total,
/// which counts each member's tokens plus one overhead share.
#[derive(Debug)]
pub struct Batch {
    pub items: Vec<PartialResult>,
    pub total: usize,
}

/// The tokens of `s` without any overhead.
pub open spec fn sum_tokens(s: Seq<PartialResult>) -> int
    decreases s.len(),
{
    if s.len() == 0 {
        0
    } else {
        sum_tokens(s.drop_last()) + s.last().tokens
    }
}

/// The tokens of `s` with one `overhead` share counted per item.
pub open spec fn padded_total(s: Seq<PartialResult>, overhead: int) -> int
    decreases s.len(),
{
    if s.len() == 0 {
        0
    } else {
        padded_total(s.drop_last(), overhead) + s.last().tokens + overhead
    }
}

/// The padded total is the plain total plus one overhead share per item.
pub proof fn lemma_padded_total(s: Seq<PartialResult>, overhead: int)
    ensures
        padded_total(s, overhead) == sum_tokens(s) + s.len() * overhead,
    decreases s.len(),
{
    if s.len() > 0 {
        lemma_padded_total(s.drop_last(), overhead);
        assert((s.len() - 1) * overhead + overhead == s.len() * overhead) by (nonlinear_arith);
    }
}

/// The members of the batches of `bs`, in order.
pub open spec fn planned_items(bs: Seq<Batch>) -> Seq<PartialResult> {
    bs.map(|i: int, b: Batch| b.items@).flatten()
}

/// Every item fits in a batch of its own under the budget.
pub open spec fn all_fit(items: Seq<PartialResult>, budget: int, overhead: int) -> bool {
    forall|i: int| 0 <= i < items.len() ==> items[i].tokens + overhead <= budget
}

/// No two neighbouring items of the first `n` fit one batch together.
pub open spec fn singleton_prefix(
    items: Seq<PartialResult>,
    n: int,
    budget: int,
    overhead: int,
) -> bool {
    forall|k: int|
        0 <= k < n - 1 ==> (#[trigger] items[k]).tokens + items[k + 1].tokens + 2 * overhead
            > budget
}

/// No two neighbouring items fit one batch together, so the plan is one
/// singleton batch per item.
pub open spec fn singleton_plan(items: Seq<PartialResult>, budget: int, overhead: int) -> bool {
    singleton_prefix(items, items.len() as int, budget, overhead)
}

/// The report of the first item that cannot fit in any batch even alone.
pub open spec fn first_oversized(
    items: Seq<PartialResult>,
    budget: int,
    overhead: int,
    index: int,
    tokens: int,
) -> bool {
    &&& 0 <= index < items.len()
    &&& items[index].tokens + overhead > budget
    &&& tokens == items[index].tokens
    &&& forall|j: int| 0 <= j < index ==> items[j].tokens + overhead <= budget
}

proof fn lemma_planned_empty()
    ensures
        planned_items(Seq::<Batch>::empty()) =~= Seq::<PartialResult>::empty(),
{
    let f = |i: int, x: Batch| x.items@;
    assert(Seq::<Batch>::empty().map(f) =~= Seq::<Seq<PartialResult>>::empty());
}

proof fn lemma_planned_push(bs: Seq<Batch>, b: Batch)
    ensures
        planned_items(bs.push(b)) =~= planned_items(bs) + b.items@,
{
    let f = |i: int, x: Batch| x.items@;
    assert(bs.push(b).map(f) =~= bs.map(f).push(b.items@));
    bs.map(f).lemma_flatten_push(b.items@);
}

impl Batch {
    /// The running total is the padded total of the members, the batch is
    /// never empty, and it respects the budget.
    pub open spec fn wf(&self, budget: int, overhead: int) -> bool {
        &&& self.items@.len() >= 1
        &&& self.total == padded_total(self.items@, overhead)
        &&& self.total <= budget
    }
}

/// Law: a well-formed batch's token total plus one overhead share stays
/// within the budget.
pub proof fn lemma_batch_within_budget(b: Batch, budget: int, overhead: int)
    requires
        b.wf(budget, overhead),
        overhead >= 0,
    ensures
        sum_tokens(b.items@) + overhead <= budget,
{
    lemma_padded_total(b.items@, overhead);
    assert(b.items@.len() * overhead >= overhead) by (nonlinear_arith)
        requires
            b.items@.len() >= 1,
            overhead >= 0,
    ;
}

/// Partitions `items`, kept in order, into batches: each next item joins the
/// current batch when its tokens and one overhead share still fit under the
/// budget, and opens a new batch otherwise. An item that cannot fit even
/// alone is reported instead, with its index.
#[verifier::rlimit(80)]
pub fn plan(items: &Vec<PartialResult>, budget: usize, overhead: usize) -> (r: Result<
    Vec<Batch>,
    ChainError,
>)
    ensures
        r is Ok <==> all_fit(items@, budget as int, overhead as int),
        r matches Err(e) ==> e matches ChainError::OversizedItem { index, tokens }
            && first_oversized(items@, budget as int, overhead as int, index as int, tokens as int),
        r matches Ok(bs) ==> {
            &&& planned_items(bs@) =~= items@
            &&& forall|k: int| 0 <= k < bs@.len() ==> (#[trigger] bs@[k]).wf(
                budget as int,
                overhead as int,
            )
            &&& forall|k: int|
                0 <= k < bs@.len() - 1 ==> (#[trigger] bs@[k]).total + bs@[k + 1].items@[0].tokens
                    + overhead > budget
            &&& bs@.len() <= items@.len()
            &&& (items@.len() >= 1 ==> bs@.len() >= 1)
            &&& (bs@.len() == items@.len() <==> singleton_plan(
                items@,
                budget as int,
                overhead as int,
            ))
        },
{
    let mut bs: Vec<Batch> = Vec::new();
    let mut cur: Vec<PartialResult> = Vec::new();
    let mut cur_total: usize = 0;
    let ghost mut start: int = 0int;
    let mut i: usize = 0;
    while i < items.len()
        invariant
            i <= items@.len(),
            i == 0 ==> bs@.len() == 0 && cur@.len() == 0 && cur_total == 0 && start == 0,
            i > 0 ==> 0 <= start < i && cur@ =~= items@.subrange(start, i as int) && cur@.len()
                >= 1,
            i > 0 ==> planned_items(bs@) =~= items@.subrange(0, start),
            cur_total == padded_total(cur@, overhead as int),
            cur_total <= budget,
            forall|k: int| 0 <= k < bs@.len() ==> (#[trigger] bs@[k]).wf(
                budget as int,
                overhead as int,
            ),
            forall|k: int|
                0 <= k < bs@.len() - 1 ==> (#[trigger] bs@[k]).total + bs@[k + 1].items@[0].tokens
                    + overhead > budget,
            bs@.len() > 0 && i > 0 ==> bs@.last().total + cur@[0].tokens + overhead > budget,
            forall|k: int| 0 <= k < i ==> items@[k].tokens + overhead <= budget,
            bs@.len() <= start,
            i > 0 ==> ((bs@.len() == start && start == i - 1) <==> singleton_prefix(
                items@,
                i as int,
                budget as int,
                overhead as int,
            )),
        decreases items@.len() - i,
    {
        let t = items[i].tokens;
        if overhead > budget || t > budget - overhead {
            return Err(ChainError::OversizedItem { index: i, tokens: t });
        }
        proof {
            if i > 0 && bs@.len() == start && start == i - 1 {
                assert(cur@.len() == 1);
                assert(cur@[0] == items@[i - 1]);
                assert(cur@.drop_last() =~= Seq::<PartialResult>::empty());
                assert(padded_total(Seq::<PartialResult>::empty(), overhead as int) == 0);
                assert(padded_total(cur@, overhead as int) == items@[i - 1].tokens + overhead);
            }
        }
        if t + overhead <= budget - cur_total {
            let ghost prev = cur@;
            cur.push(items[i].clone());
            cur_total = cur_total + t + overhead;
            proof {
                assert(cur@.drop_last() =~= prev);
                assert(cur@.last() == items@[i as int]);
                assert(padded_total(cur@, overhead as int) == padded_total(prev, overhead as int)
                    + t + overhead);
                assert(cur@ =~= items@.subrange(if i == 0 { 0int } else { start }, i + 1));
                if i == 0 {
                    lemma_planned_empty();
                    assert(planned_items(bs@) =~= items@.subrange(0, 0));
                }
                if i > 0 && bs@.len() == start && start == i - 1 {
                    // the two neighbours fit together, so the plan is not all
                    // singletons any more
                    assert(items@[i - 1].tokens + items@[i as int].tokens + 2 * (overhead as int)
                        <= budget);
                    assert(!singleton_prefix(items@, i + 1, budget as int, overhead as int));
                }
                if i > 0 && !(bs@.len() == start && start == i - 1) {
                    assert(!singleton_prefix(items@, i as int, budget as int, overhead as int));
                    assert(!singleton_prefix(items@, i + 1, budget as int, overhead as int));
                }
            }
        } else {
            let closed = Batch { items: cur, total: cur_total };
            proof {
                lemma_planned_push(bs@, closed);
            }
            let ghost old_bs_len = bs@.len();
            let ghost old_start = start;
            bs.push(closed);
            cur = Vec::new();
            cur.push(items[i].clone());
            cur_total = t + overhead;
            proof {
                start = i as int;
                assert(cur@.drop_last() =~= Seq::<PartialResult>::empty());
                assert(cur@.last() == items@[i as int]);
                assert(padded_total(Seq::<PartialResult>::empty(), overhead as int) == 0);
                assert(padded_total(cur@, overhead as int) == t + overhead);
                assert(cur@ =~= items@.subrange(start, i + 1));
                assert(items@.subrange(0, old_start) + items@.subrange(old_start, i as int)
                    =~= items@.subrange(0, i as int));
                if old_bs_len == old_start && old_start == i - 1 {
                    assert(singleton_prefix(items@, i as int, budget as int, overhead as int));
                    assert(items@[i - 1].tokens + items@[i as int].tokens + 2 * (overhead as int)
                        > budget);
                    assert(singleton_prefix(items@, i + 1, budget as int, overhead as int));
                } else {
                    assert(!singleton_prefix(items@, i as int, budget as int, overhead as int));
                    assert(!singleton_prefix(items@, i + 1, budget as int, overhead as int));
                    assert(bs@.len() < i);
                }
            }
        }
        i = i + 1;
    }
    if cur.len() > 0 {
        let closed = Batch { items: cur, total: cur_total };
        let ghost old_bs_len = bs@.len();
        proof {
            lemma_planned_push(bs@, closed);
            assert(items@.subrange(0, start) + items@.subrange(start, items@.len() as int)
                =~= items@);
        }
        bs.push(closed);
        proof {
            let n = items@.len() as int;
            assert(planned_items(bs@) =~= items@);
            if old_bs_len == start && start == n - 1 {
                assert(bs@.len() == n);
            } else {
                assert(old_bs_len < n - 1);
                assert(bs@.len() < n);
            }
        }
    } else {
        proof {
            lemma_planned_empty();
            assert(items@.len() == 0);
            assert(planned_items(bs@) =~= items@);
        }
    }
    Ok(bs)
}

} // verus!
