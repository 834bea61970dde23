use llm_chain::chain;
use llm_chain::errors::{ChainError, ExecutorError, TokenizationError};
use llm_chain::map_stage;
use llm_chain::partial::{Document, PartialResult};
use llm_chain::reduce;
use llm_chain::tokens::CharCounter;
use llm_chain::transform::PromptExecutor;

/// Always returns a text of a fixed character length.
struct FixedSizeExecutor {
    out_len: usize,
    calls: usize,
}

impl PromptExecutor for FixedSizeExecutor {
    fn invoke(
        &mut self,
        _input: &str,
        _params: &Vec<(String, String)>,
    ) -> Result<String, ExecutorError> {
        self.calls += 1;
        Ok("x".repeat(self.out_len))
    }
}

/// Echoes its input with a marker, so order is observable.
struct EchoExecutor;

impl PromptExecutor for EchoExecutor {
    fn invoke(
        &mut self,
        input: &str,
        _params: &Vec<(String, String)>,
    ) -> Result<String, ExecutorError> {
        Ok(format!("S:{}", input))
    }
}

/// Fails on one chosen invocation, counted from zero.
struct FailingExecutor {
    fail_on: usize,
    calls: usize,
}

impl PromptExecutor for FailingExecutor {
    fn invoke(
        &mut self,
        _input: &str,
        _params: &Vec<(String, String)>,
    ) -> Result<String, ExecutorError> {
        let n = self.calls;
        self.calls += 1;
        if n == self.fail_on {
            Err(ExecutorError { message: String::from("provider down") })
        } else {
            Ok(String::from("fine"))
        }
    }
}

fn doc(text: &str) -> Document {
    Document { text: String::from(text), params: Vec::new() }
}

fn item(text: &str, tokens: usize) -> PartialResult {
    PartialResult { text: String::from(text), tokens }
}

#[test]
fn map_preserves_document_order() {
    let docs = vec![doc("a"), doc("b"), doc("c")];
    let mut tx = EchoExecutor;
    let out = map_stage::run(&docs, &mut tx, &CharCounter).unwrap();
    assert_eq!(out.len(), 3);
    assert_eq!(out[0].text, "S:a");
    assert_eq!(out[1].text, "S:b");
    assert_eq!(out[2].text, "S:c");
    assert_eq!(out[0].tokens, 3);
}

#[test]
fn map_failure_names_the_document_and_aborts() {
    let docs = vec![doc("a"), doc("b"), doc("c"), doc("d"), doc("e")];
    let mut tx = FailingExecutor { fail_on: 2, calls: 0 };
    match map_stage::run(&docs, &mut tx, &CharCounter) {
        Err(ChainError::MapStage { index, cause }) => {
            assert_eq!(index, 2);
            assert_eq!(cause.message, "provider down");
        }
        other => panic!("expected a map-stage error, got {:?}", other),
    }
    assert_eq!(tx.calls, 3);
}

#[test]
fn single_fitting_result_is_returned_unchanged() {
    let results = vec![item("already reduced", 100)];
    let mut tx = FixedSizeExecutor { out_len: 70, calls: 0 };
    let outcome = reduce::run(results, 250, 10, &mut tx, &CharCounter).unwrap();
    assert_eq!(outcome.result.text, "already reduced");
    assert_eq!(outcome.result.tokens, 100);
    assert_eq!(outcome.generations, 0);
    assert_eq!(tx.calls, 0);
}

#[test]
fn five_summaries_collapse_in_two_generations() {
    let docs = vec![doc("1"), doc("2"), doc("3"), doc("4"), doc("5")];
    let mut map_tx = FixedSizeExecutor { out_len: 100, calls: 0 };
    let mapped = map_stage::run(&docs, &mut map_tx, &CharCounter).unwrap();
    assert_eq!(mapped.len(), 5);
    assert!(mapped.iter().all(|p| p.tokens == 100));

    let mut reduce_tx = FixedSizeExecutor { out_len: 70, calls: 0 };
    let outcome = reduce::run(mapped, 250, 10, &mut reduce_tx, &CharCounter).unwrap();
    // generation one merges batches of [2, 2, 1] items; generation two merges
    // the three 70-token summaries in one batch
    assert_eq!(outcome.generations, 2);
    assert_eq!(reduce_tx.calls, 4);
    assert_eq!(outcome.result.tokens, 70);
}

#[test]
fn oversized_single_result_fails_instead_of_looping() {
    let results = vec![item("way too long", 5000)];
    let mut tx = FixedSizeExecutor { out_len: 10, calls: 0 };
    match reduce::run(results, 4096, 10, &mut tx, &CharCounter) {
        Err(ChainError::OversizedItem { index, tokens }) => {
            assert_eq!(index, 0);
            assert_eq!(tokens, 5000);
        }
        other => panic!("expected an oversized-item error, got {:?}", other),
    }
    assert_eq!(tx.calls, 0);
}

#[test]
fn no_shrinking_generation_reports_a_stall() {
    let results = vec![item("left", 150), item("right", 150)];
    let mut tx = FixedSizeExecutor { out_len: 10, calls: 0 };
    match reduce::run(results, 250, 10, &mut tx, &CharCounter) {
        Err(ChainError::ReduceStalled { budget, largest_index: _, largest_tokens }) => {
            assert_eq!(budget, 250);
            assert_eq!(largest_tokens, 150);
        }
        other => panic!("expected a stall error, got {:?}", other),
    }
    assert_eq!(tx.calls, 0);
}

#[test]
fn merge_failure_surfaces_the_executor_error() {
    let results = vec![item("a", 100), item("b", 100)];
    let mut tx = FailingExecutor { fail_on: 0, calls: 0 };
    match reduce::run(results, 250, 10, &mut tx, &CharCounter) {
        Err(ChainError::Executor(cause)) => assert_eq!(cause.message, "provider down"),
        other => panic!("expected an executor error, got {:?}", other),
    }
}

#[test]
fn chain_map_failure_skips_the_reduce_phase() {
    let docs = vec![doc("1"), doc("2"), doc("3"), doc("4"), doc("5")];
    let mut map_tx = FailingExecutor { fail_on: 2, calls: 0 };
    let mut reduce_tx = FixedSizeExecutor { out_len: 10, calls: 0 };
    match chain::run(&docs, String::from("gpt-4"), 100, &mut map_tx, &mut reduce_tx) {
        Err(ChainError::MapStage { index, cause }) => {
            assert_eq!(index, 2);
            assert_eq!(cause.message, "provider down");
        }
        other => panic!("expected a map-stage error, got {:?}", other),
    }
    assert_eq!(reduce_tx.calls, 0);
}

#[test]
fn chain_runs_end_to_end_with_real_counting() {
    let docs = vec![doc("first article"), doc("second article")];
    let mut map_tx = FixedSizeExecutor { out_len: 40, calls: 0 };
    let mut reduce_tx = EchoExecutor;
    let out = chain::run(&docs, String::from("gpt-4"), 0, &mut map_tx, &mut reduce_tx).unwrap();
    assert_eq!(map_tx.calls, 2);
    assert!(out.starts_with("S:"));
}

#[test]
fn chain_reports_an_unknown_encoder() {
    let docs = vec![doc("text")];
    let mut map_tx = FixedSizeExecutor { out_len: 10, calls: 0 };
    let mut reduce_tx = FixedSizeExecutor { out_len: 10, calls: 0 };
    match chain::run(
        &docs,
        String::from("surely-not-a-model"),
        0,
        &mut map_tx,
        &mut reduce_tx,
    ) {
        Err(ChainError::Tokenization(TokenizationError::UnknownModel)) => {}
        other => panic!("expected a tokenization error, got {:?}", other),
    }
    assert_eq!(reduce_tx.calls, 0);
}
