//! Token sequences, and the adapter that asks the tokenizer for them.
//!
//! The adapter does not call the tokenizer itself. On some tokenizers the
//! call stops the process instead of failing: a template that names a token
//! it does not hold, a stride as long as the truncation, a processor behind
//! one that split the text. Which tokenizers those are cannot be told from
//! outside the tokenizer, so the call is handed in as a function, and the
//! adapter decides what it is asked and what its answer means.
use vstd::prelude::*;
use crate::error::{EngineError, ErrorView};

verus! {

/// `tokenizers::Tokenizer`. The proofs see nothing inside it.
#[verifier::external_type_specification]
#[verifier::external_body]
pub struct ExTokenizer(tokenizers::Tokenizer);

/// The segment marks of a single-segment input of `len` tokens: all zero.
pub open spec fn single_segment(len: nat) -> Seq<u32> {
    Seq::new(len, |i: int| 0u32)
}

/// The token ids of one text, in order. All tokens belong to segment zero.
#[derive(Debug)]
pub struct TokenSequence {
    ids: Vec<u32>,
}

impl View for TokenSequence {
    type V = Seq<u32>;

    closed spec fn view(&self) -> Seq<u32> {
        self.ids@
    }
}

impl TokenSequence {
    /// The sequence of these ids.
    pub fn new(ids: Vec<u32>) -> (r: TokenSequence)
        ensures
            r@ == ids@,
    {
        TokenSequence { ids }
    }

    /// The number of tokens.
    pub fn len(&self) -> (r: usize)
        ensures
            r == self@.len(),
    {
        self.ids.len()
    }

    /// Whether the text gave no token at all.
    pub fn is_empty(&self) -> (r: bool)
        ensures
            r == (self@.len() == 0),
    {
        self.ids.len() == 0
    }

    /// The token ids, in order.
    pub fn ids(&self) -> (r: &Vec<u32>)
        ensures
            r@ == self@,
    {
        &self.ids
    }

    /// The segment mark of each token, in order: as many zeros as there are
    /// tokens.
    pub fn segment_ids(&self) -> (r: Vec<u32>)
        ensures
            r@ == single_segment(self@.len()),
    {
        let len = self.ids.len();
        let mut marks: Vec<u32> = Vec::new();
        let mut filled: usize = 0;
        while filled < len
            invariant
                filled <= len,
                marks@ == single_segment(filled as nat),
            decreases len - filled,
        {
            marks.push(0u32);
            filled = filled + 1;
            assert(marks@ =~= single_segment(filled as nat));
        }
        marks
    }
}

/// Turns the tokenizer's answer into a token sequence, or into a
/// tokenization failure that carries the tokenizer's own words.
pub fn token_sequence(answer: Result<Vec<u32>, String>) -> (r: Result<TokenSequence, EngineError>)
    ensures
        match answer {
            Ok(ids) => r is Ok && r->Ok_0@ == ids@,
            Err(detail) => r is Err && r->Err_0@ == ErrorView::Tokenization(detail@),
        },
{
    match answer {
        Ok(ids) => Ok(TokenSequence::new(ids)),
        Err(detail) => Err(EngineError::Tokenization(detail)),
    }
}

/// `encode_text` can give `answer` when it is asked for the ids of `text`,
/// special tokens included, by `tokenizer`.
pub open spec fn ids_gave<
    E: Fn(&tokenizers::Tokenizer, &str, bool) -> Result<Vec<u32>, String>,
>(
    encode_text: &E,
    tokenizer: tokenizers::Tokenizer,
    text: Seq<char>,
    answer: Result<Vec<u32>, String>,
) -> bool {
    exists|k: &tokenizers::Tokenizer, t: &str|
        *k == tokenizer && t@ == text && #[trigger] encode_text.ensures((k, t, true), answer)
}

/// `r` is what tokenizing `text` with `tokenizer` gives: the ids that
/// `encode_text` gave, special tokens included, as a token sequence, or a
/// tokenization failure with the words that `encode_text` gave.
pub open spec fn tokenized<
    E: Fn(&tokenizers::Tokenizer, &str, bool) -> Result<Vec<u32>, String>,
>(
    encode_text: &E,
    tokenizer: tokenizers::Tokenizer,
    text: Seq<char>,
    r: Result<TokenSequence, EngineError>,
) -> bool {
    exists|answer: Result<Vec<u32>, String>| #[trigger]
        ids_gave(encode_text, tokenizer, text, answer) && match answer {
            Ok(ids) => r is Ok && r->Ok_0@ == ids@,
            Err(detail) => r is Err && r->Err_0@ == ErrorView::Tokenization(detail@),
        }
}

/// Tokenizes one text, special tokens included.
///
/// `encode_text` asks a tokenizer for the ids of a text, with or without
/// special tokens, and gives its failure in words. It is asked once, for this
/// text and this tokenizer, with special tokens. Its ids come back as the
/// token sequence, and its failure as a tokenization failure.
pub fn tokenize<E>(tokenizer: &tokenizers::Tokenizer, text: &str, encode_text: &E) -> (r: Result<
    TokenSequence,
    EngineError,
>) where E: Fn(&tokenizers::Tokenizer, &str, bool) -> Result<Vec<u32>, String>
    requires
        forall|k: &tokenizers::Tokenizer, t: &str| encode_text.requires((k, t, true)),
    ensures
        tokenized(encode_text, *tokenizer, text@, r),
        r is Err ==> r->Err_0@ is Tokenization,
{
    let answer = encode_text(tokenizer, text, true);
    proof {
        assert(ids_gave(encode_text, *tokenizer, text@, answer));
    }
    token_sequence(answer)
}

} // verus!
