//! Model identity: resolving a model name to a token-counting backend and a
//! context-window size.

use vstd::prelude::*;
use vstd::string::*;

use crate::errors::TokenizationError;
use crate::tokens::{
    bpe_for_id, catalog_family, catalog_window, context_size_raw, encoder_known,
    tokenizer_family_raw,
};

verus! {

/// The context window used when an identifier is not listed in the catalog.
pub const DEFAULT_CONTEXT_WINDOW: usize = 4096;

/// The tokenizer families of the encoder library, mirrored as plain values.
#[derive(Debug, Clone, Copy, PartialEq, Eq, Structural)]
pub enum TokenizerFamily {
    O200kHarmony,
    O200kBase,
    Cl100kBase,
    P50kBase,
    R50kBase,
    P50kEdit,
    Gpt2,
}

impl TokenizerFamily {
    /// The catalog model identifier whose encoder and window data this family
    /// borrows.
    pub open spec fn spec_representative_id(&self) -> Seq<char> {
        match self {
            TokenizerFamily::O200kHarmony => "gpt-oss-20b"@,
            TokenizerFamily::O200kBase => "gpt-4o"@,
            TokenizerFamily::Cl100kBase => "gpt-4-1106-preview"@,
            TokenizerFamily::P50kBase => "text-davinci-003"@,
            TokenizerFamily::R50kBase => "text-davinci-001"@,
            TokenizerFamily::P50kEdit => "text-davinci-edit-001"@,
            TokenizerFamily::Gpt2 => "gpt2"@,
        }
    }

    /// The representative catalog identifier of this family.
    pub fn representative_id(&self) -> (r: String)
        ensures
            r@ == self.spec_representative_id(),
    {
        match self {
            TokenizerFamily::O200kHarmony => String::from_str("gpt-oss-20b"),
            TokenizerFamily::O200kBase => String::from_str("gpt-4o"),
            TokenizerFamily::Cl100kBase => String::from_str("gpt-4-1106-preview"),
            TokenizerFamily::P50kBase => String::from_str("text-davinci-003"),
            TokenizerFamily::R50kBase => String::from_str("text-davinci-001"),
            TokenizerFamily::P50kEdit => String::from_str("text-davinci-edit-001"),
            TokenizerFamily::Gpt2 => String::from_str("gpt2"),
        }
    }
}

/// A model identity: either a name listed in the catalog, or an unlisted
/// display name that borrows a catalog entry's encoder and window data
/// through a tokenizer family.
pub enum ModelOpt {
    Known(String),
    Unknown(String, String),
}

impl Clone for ModelOpt {
    fn clone(&self) -> (r: Self)
        ensures
            r == *self,
    {
        match self {
            ModelOpt::Known(name) => ModelOpt::Known(name.clone()),
            ModelOpt::Unknown(name, id) => ModelOpt::Unknown(name.clone(), id.clone()),
        }
    }
}

impl ModelOpt {
    /// The identifier used for encoder and context-window lookups.
    pub open spec fn spec_id(&self) -> Seq<char> {
        match self {
            ModelOpt::Known(name) => name@,
            ModelOpt::Unknown(_, id) => id@,
        }
    }

    /// The display identifier: always the caller-supplied name.
    pub open spec fn spec_name(&self) -> Seq<char> {
        match self {
            ModelOpt::Known(name) => name@,
            ModelOpt::Unknown(name, _) => name@,
        }
    }

    /// The display identifier is never empty.
    pub open spec fn wf(&self) -> bool {
        self.spec_name().len() > 0
    }

    /// Resolves a catalog-listed name.
    pub fn new(name: String) -> (r: Self)
        requires
            name@.len() > 0,
        ensures
            r == ModelOpt::Known(name),
            r.wf(),
    {
        ModelOpt::Known(name)
    }

    /// Resolves an unlisted name through a tokenizer family: counting and
    /// window sizing borrow the family's representative identifier, while the
    /// display name stays the caller's.
    pub fn new_with_bpe(name: String, tkn: TokenizerFamily) -> (r: Self)
        requires
            name@.len() > 0,
        ensures
            r is Unknown,
            r.spec_name() == name@,
            r.spec_id() == tkn.spec_representative_id(),
            r.wf(),
    {
        ModelOpt::Unknown(name, tkn.representative_id())
    }

    /// The tiktoken encoder of the resolved identifier.
    pub fn bpe(&self) -> (r: Result<&'static tiktoken_rs::CoreBPE, TokenizationError>)
        ensures
            r is Ok <==> encoder_known(self.spec_id()),
    {
        let id = self.id();
        bpe_for_id(id.as_str())
    }

    /// The identifier used for lookups, as a value.
    pub fn id(&self) -> (r: String)
        ensures
            r@ == self.spec_id(),
    {
        match self {
            ModelOpt::Known(name) => name.clone(),
            ModelOpt::Unknown(_, id) => id.clone(),
        }
    }

    /// The display name, as a value.
    pub fn name(&self) -> (r: String)
        ensures
            r@ == self.spec_name(),
    {
        match self {
            ModelOpt::Known(name) => name.clone(),
            ModelOpt::Unknown(name, _) => name.clone(),
        }
    }

    /// The context window of `id`: the encoder library's catalog value where
    /// `id` is listed, and the fixed default otherwise.
    pub open spec fn spec_max_tokens(id: Seq<char>) -> int {
        match catalog_window(id) {
            Some(w) => w as int,
            None => DEFAULT_CONTEXT_WINDOW as int,
        }
    }

    /// The context window of the resolved identifier; an identifier the
    /// catalog does not list falls back to the fixed default rather than
    /// failing.
    pub fn max_tokens_allowed(&self) -> (r: usize)
        ensures
            r == Self::spec_max_tokens(self.spec_id()),
            r >= 1,
    {
        let id = self.id();
        match context_size_raw(id.as_str()) {
            Some(w) => w,
            None => DEFAULT_CONTEXT_WINDOW,
        }
    }

    /// The tokenizer family the catalog resolves for this profile's lookup
    /// identifier: the value behind `bpe`, as a plain library value.
    pub fn tokenizer_family(&self) -> (r: Option<TokenizerFamily>)
        ensures
            r == catalog_family(self.spec_id()),
            r is Some <==> encoder_known(self.spec_id()),
    {
        let id = self.id();
        tokenizer_family_raw(id.as_str())
    }
}

/// Law: resolution is deterministic — two catalog-resolved profiles with the
/// same name agree on lookup identifier and context window.
pub proof fn lemma_resolve_deterministic(a: ModelOpt, b: ModelOpt)
    requires
        a is Known,
        b is Known,
        a.spec_name() == b.spec_name(),
    ensures
        a.spec_id() == b.spec_id(),
        ModelOpt::spec_max_tokens(a.spec_id()) == ModelOpt::spec_max_tokens(b.spec_id()),
{
}

/// Law: a listed identifier's window is exactly its catalog value; together
/// with the exact postconditions of `ModelOpt::new` and
/// `ModelOpt::max_tokens_allowed` this pins resolution down to a
/// deterministic function of the name.
pub proof fn lemma_catalog_window_exact(id: Seq<char>)
    requires
        catalog_window(id) is Some,
    ensures
        ModelOpt::spec_max_tokens(id) == catalog_window(id)->Some_0 as int,
{
}

/// Law: an identifier the catalog does not list resolves to exactly the
/// default window.
pub proof fn lemma_unlisted_window_default(id: Seq<char>)
    requires
        catalog_window(id) is None,
    ensures
        ModelOpt::spec_max_tokens(id) == DEFAULT_CONTEXT_WINDOW as int,
{
}

} // verus!
