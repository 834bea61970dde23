//! Token counting: the trusted boundary to the tiktoken encoder library, and
//! the counting trait the stages are generic over.

use vstd::prelude::*;
use vstd::string::*;

use crate::errors::TokenizationError;
use crate::model::{ModelOpt, TokenizerFamily};

verus! {

/// The token count that the tiktoken encoder resolved for `id` assigns to
/// `text`; the encoding depends on the identifier and the text alone.
pub uninterp spec fn token_count(id: Seq<char>, text: Seq<char>) -> nat;

/// Whether tiktoken's catalog resolves an encoder for the identifier `id`.
pub uninterp spec fn encoder_known(id: Seq<char>) -> bool;

/// Whether the encoder for `id` returns a token sequence for `text` rather
/// than giving up at run time; like the sequence itself, a function of the
/// identifier and the text alone.
pub uninterp spec fn encoding_ok(id: Seq<char>, text: Seq<char>) -> bool;

/// The context window tiktoken's model table lists for `id`, if it lists
/// one; a function of the identifier alone.
pub uninterp spec fn catalog_window(id: Seq<char>) -> Option<usize>;

/// The tokenizer family tiktoken's catalog resolves for `id`, if any; a
/// function of the identifier alone.
pub uninterp spec fn catalog_family(id: Seq<char>) -> Option<TokenizerFamily>;

#[verifier::external_type_specification]
#[verifier::external_body]
pub struct ExCoreBPE(tiktoken_rs::CoreBPE);

/// Relies on tiktoken_rs::bpe_for_model: it returns an encoder exactly when
/// tiktoken's model catalog resolves a tokenizer for the identifier.
#[verifier::external_body]
pub(crate) fn bpe_for_id(id: &str) -> (r: Result<
    &'static tiktoken_rs::CoreBPE,
    TokenizationError,
>)
    ensures
        r is Ok <==> encoder_known(id@),
{
    match tiktoken_rs::bpe_for_model(id) {
        Ok(b) => Ok(b),
        Err(_) => Err(TokenizationError::UnknownModel),
    }
}

/// Relies on tiktoken_rs::bpe_for_model, CoreBPE::special_tokens and
/// CoreBPE::encode: the encoder exists exactly when the catalog resolves the
/// identifier; encoding may give up at run time (the encoder's regex engine
/// stops on pathological inputs), deterministically in the identifier and
/// the text; and a returned token sequence is a function of the two alone.
#[verifier::external_body]
pub(crate) fn count_tokens_raw(id: &str, text: &str) -> (r: Result<usize, TokenizationError>)
    ensures
        r is Ok <==> (encoder_known(id@) && encoding_ok(id@, text@)),
        r matches Ok(n) ==> n == token_count(id@, text@),
{
    match tiktoken_rs::bpe_for_model(id) {
        Ok(b) => match b.encode(text, &b.special_tokens()) {
            Ok((ranks, _)) => Ok(ranks.len()),
            Err(_) => Err(TokenizationError::EncodingFailed),
        },
        Err(_) => Err(TokenizationError::UnknownModel),
    }
}

/// Relies on tiktoken_rs::model::get_context_size: the context window its
/// model table lists, a function of the identifier alone; every listed
/// window is positive.
#[verifier::external_body]
pub(crate) fn context_size_raw(id: &str) -> (r: Option<usize>)
    ensures
        r == catalog_window(id@),
        r matches Some(w) ==> w >= 1,
{
    tiktoken_rs::model::get_context_size(id)
}

/// Relies on tiktoken_rs::tokenizer::get_tokenizer: the tokenizer family its
/// catalog resolves, a function of the identifier alone; it resolves one
/// exactly when an encoder can be built for the identifier.
#[verifier::external_body]
pub(crate) fn tokenizer_family_raw(id: &str) -> (r: Option<TokenizerFamily>)
    ensures
        r == catalog_family(id@),
        r is Some <==> encoder_known(id@),
{
    match tiktoken_rs::tokenizer::get_tokenizer(id) {
        Some(tiktoken_rs::tokenizer::Tokenizer::O200kHarmony) => Some(
            TokenizerFamily::O200kHarmony,
        ),
        Some(tiktoken_rs::tokenizer::Tokenizer::O200kBase) => Some(TokenizerFamily::O200kBase),
        Some(tiktoken_rs::tokenizer::Tokenizer::Cl100kBase) => Some(TokenizerFamily::Cl100kBase),
        Some(tiktoken_rs::tokenizer::Tokenizer::P50kBase) => Some(TokenizerFamily::P50kBase),
        Some(tiktoken_rs::tokenizer::Tokenizer::R50kBase) => Some(TokenizerFamily::R50kBase),
        Some(tiktoken_rs::tokenizer::Tokenizer::P50kEdit) => Some(TokenizerFamily::P50kEdit),
        Some(tiktoken_rs::tokenizer::Tokenizer::Gpt2) => Some(TokenizerFamily::Gpt2),
        None => None,
    }
}

/// A token-counting backend: assigns a count to a text. `spec_count` says
/// what the count of a text is, `spec_ok` on which texts counting succeeds;
/// `count` returns exactly that, or fails exactly there.
pub trait TokenCount {
    /// The count this backend assigns to a text.
    spec fn spec_count(&self, text: Seq<char>) -> int;

    /// Whether this backend can count the text.
    spec fn spec_ok(&self, text: Seq<char>) -> bool;

    fn count(&self, text: &str) -> (r: Result<usize, TokenizationError>)
        ensures
            r is Ok <==> self.spec_ok(text@),
            r matches Ok(n) ==> n == self.spec_count(text@),
    ;
}

/// A fixed-rate backend: one token per character. It needs no encoder and
/// never fails, which makes budgets exact and predictable; the scenario
/// tests run the stages over it.
pub struct CharCounter;

impl TokenCount for CharCounter {
    /// The character count of the text.
    open spec fn spec_count(&self, text: Seq<char>) -> int {
        text.len() as int
    }

    /// Counting by characters never fails.
    open spec fn spec_ok(&self, text: Seq<char>) -> bool {
        true
    }

    fn count(&self, text: &str) -> (r: Result<usize, TokenizationError>) {
        Ok(text.unicode_len())
    }
}

/// Counts tokens with the tiktoken encoder of a profile's resolved
/// identifier.
pub struct ProfileCounter {
    pub profile: ModelOpt,
}

impl ProfileCounter {
    pub fn new(profile: ModelOpt) -> (r: Self)
        ensures
            r.profile == profile,
    {
        ProfileCounter { profile }
    }

    /// The count of `text` under the profile's resolved identifier.
    pub fn count_text(&self, text: &str) -> (r: Result<usize, TokenizationError>)
        ensures
            r is Ok <==> encoder_known(self.profile.spec_id()) && encoding_ok(
                self.profile.spec_id(),
                text@,
            ),
            r matches Ok(n) ==> n == token_count(self.profile.spec_id(), text@),
    {
        count_tokens_raw(self.profile.id().as_str(), text)
    }
}

impl TokenCount for ProfileCounter {
    /// The tiktoken count under the profile's resolved identifier.
    open spec fn spec_count(&self, text: Seq<char>) -> int {
        token_count(self.profile.spec_id(), text) as int
    }

    /// Counting succeeds when the encoder exists and does not give up on the
    /// text.
    open spec fn spec_ok(&self, text: Seq<char>) -> bool {
        encoder_known(self.profile.spec_id()) && encoding_ok(self.profile.spec_id(), text)
    }

    fn count(&self, text: &str) -> (r: Result<usize, TokenizationError>) {
        self.count_text(text)
    }
}

} // verus!
