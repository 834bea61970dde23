use llm_chain::model::{ModelOpt, TokenizerFamily};
use llm_chain::partial::PartialResult;
use llm_chain::tokens::{ProfileCounter, TokenCount};

#[test]
fn counting_is_deterministic_and_exact() {
    let counter = ProfileCounter::new(ModelOpt::new(String::from("gpt-4")));
    let a = counter.count_text("hello world").unwrap();
    let b = counter.count_text("hello world").unwrap();
    assert_eq!(a, b);
    assert_eq!(a, 2);
}

#[test]
fn empty_text_counts_zero() {
    let counter = ProfileCounter::new(ModelOpt::new(String::from("gpt-4")));
    assert_eq!(counter.count_text("").unwrap(), 0);
}

#[test]
fn longer_text_counts_more() {
    let counter = ProfileCounter::new(ModelOpt::new(String::from("gpt-4")));
    let short = counter.count_text("hello world").unwrap();
    let long = counter.count_text("hello world hello world hello world").unwrap();
    assert!(long > short);
}

#[test]
fn counting_fails_for_unknown_model() {
    let counter = ProfileCounter::new(ModelOpt::new(String::from("surely-not-a-model")));
    assert!(counter.count_text("hello").is_err());
}

#[test]
fn family_override_counts_like_the_representative() {
    let custom =
        ProfileCounter::new(ModelOpt::new_with_bpe(String::from("mine"), TokenizerFamily::Cl100kBase));
    let known = ProfileCounter::new(ModelOpt::new(String::from("gpt-4-1106-preview")));
    assert_eq!(
        custom.count_text("The quick brown fox").unwrap(),
        known.count_text("The quick brown fox").unwrap()
    );
}

#[test]
fn of_text_caches_the_counter_result() {
    let counter = ProfileCounter::new(ModelOpt::new(String::from("gpt-4")));
    let p = PartialResult::of_text(String::from("hello world"), &counter).unwrap();
    assert_eq!(p.text, "hello world");
    assert_eq!(p.tokens, counter.count("hello world").unwrap());
}
