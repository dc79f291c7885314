//! The pipeline from a request to its response.
//!
//! A request is answered in full or not at all: the first failure, at any
//! stage and for any text, ends the work, and the vectors made so far are
//! dropped.
use vstd::prelude::*;
use crate::error::{EngineError, ErrorKind, ErrorView};
use crate::inference::{embed_tokens, embeds};
use crate::loader::{
    callable_on,
    load_failed_with,
    load_model,
    loaded_from,
    unavailable,
    ModelHandle,
    ModelPaths,
};
use crate::protocol::{
    coordinates,
    response_for,
    uniform_width,
    zeros,
    EmbeddingRequest,
    EmbeddingResponse,
    EmbeddingVector,
    ResponseView,
};
use crate::tokens::{ids_gave, tokenize, TokenSequence};

verus! {

/// `embed` can give `outcome` for the text `text`.
pub open spec fn gave<F: Fn(&str) -> Result<EmbeddingVector, EngineError>>(
    embed: &F,
    text: Seq<char>,
    outcome: Result<EmbeddingVector, EngineError>,
) -> bool {
    exists|t: &str| t@ == text && #[trigger] embed.ensures((t,), outcome)
}

/// `embed` can give a vector for the text `text`.
pub open spec fn gave_vector<F: Fn(&str) -> Result<EmbeddingVector, EngineError>>(
    embed: &F,
    text: Seq<char>,
) -> bool {
    exists|v: EmbeddingVector| #[trigger] gave(embed, text, Ok::<EmbeddingVector, EngineError>(v))
}

/// `embed` gave a vector for each of the first `count` texts.
pub open spec fn embedded_before<F: Fn(&str) -> Result<EmbeddingVector, EngineError>>(
    embed: &F,
    texts: Seq<String>,
    count: int,
) -> bool {
    forall|j: int| 0 <= j < count ==> gave_vector(embed, #[trigger] texts[j]@)
}

/// `r` is what embedding `text` with the model of `handle` gives: what
/// `embed_tokens` can give for a token sequence that `tokenize` can give for
/// the text and the handle's tokenizer, or the failure that `tokenize` gave.
pub open spec fn text_outcome<
    E: Fn(&tokenizers::Tokenizer, &str, bool) -> Result<Vec<u32>, String>,
    O: Fn(&candle_core::Tensor) -> Result<Vec<u32>, String>,
>(
    handle: &ModelHandle,
    encode_text: &E,
    read_out: &O,
    text: Seq<char>,
    r: Result<EmbeddingVector, EngineError>,
) -> bool {
    exists|t: &str, tokens: Result<TokenSequence, EngineError>|
        t@ == text && #[trigger] call_ensures(
            tokenize::<E>,
            (&handle.spec_tokenizer(), t, encode_text),
            tokens,
        ) && match tokens {
            Ok(sequence) => call_ensures(embed_tokens::<O>, (handle, &sequence, read_out), r),
            Err(e) => r is Err && r->Err_0@ == e@,
        }
}

/// `embed_text` can give `outcome` for the text `text`, with the model of
/// `handle`.
pub open spec fn embedding_gave<
    E: Fn(&tokenizers::Tokenizer, &str, bool) -> Result<Vec<u32>, String>,
    O: Fn(&candle_core::Tensor) -> Result<Vec<u32>, String>,
>(
    handle: &ModelHandle,
    encode_text: &E,
    read_out: &O,
    text: Seq<char>,
    outcome: Result<EmbeddingVector, EngineError>,
) -> bool {
    exists|t: &str| t@ == text && #[trigger] call_ensures(
        embed_text::<E, O>,
        (handle, t, encode_text, read_out),
        outcome,
    )
}

/// `embed_text` can give a vector for the text `text`, with the model of
/// `handle`.
pub open spec fn embedding_gave_vector<
    E: Fn(&tokenizers::Tokenizer, &str, bool) -> Result<Vec<u32>, String>,
    O: Fn(&candle_core::Tensor) -> Result<Vec<u32>, String>,
>(handle: &ModelHandle, encode_text: &E, read_out: &O, text: Seq<char>) -> bool {
    exists|v: EmbeddingVector| #[trigger]
        embedding_gave(handle, encode_text, read_out, text, Ok::<EmbeddingVector, EngineError>(v))
}

/// `r` is what embedding the texts one after the other gives: on success the
/// vector at each position is one that `embed_text` can give for the text at
/// that position; a failure is one that `embed_text` can give for some text,
/// after it gave a vector for each text before that one.
pub open spec fn batch_outcome<
    E: Fn(&tokenizers::Tokenizer, &str, bool) -> Result<Vec<u32>, String>,
    O: Fn(&candle_core::Tensor) -> Result<Vec<u32>, String>,
>(
    handle: &ModelHandle,
    encode_text: &E,
    read_out: &O,
    texts: Seq<String>,
    r: Result<Vec<EmbeddingVector>, EngineError>,
) -> bool {
    match r {
        Ok(vectors) => vectors@.len() == texts.len() && forall|i: int|
            0 <= i < vectors@.len() ==> embedding_gave(
                handle,
                encode_text,
                read_out,
                texts[i]@,
                Ok::<EmbeddingVector, EngineError>(#[trigger] vectors@[i]),
            ),
        Err(e) => exists|i: int|
            0 <= i < texts.len() && #[trigger] embedding_gave(
                handle,
                encode_text,
                read_out,
                texts[i]@,
                Err::<EmbeddingVector, EngineError>(e),
            ) && forall|j: int|
                0 <= j < i ==> embedding_gave_vector(
                    handle,
                    encode_text,
                    read_out,
                    #[trigger] texts[j]@,
                ),
    }
}

/// Every vector of the sequence is one that a text can get from a model of
/// hidden size `width`.
pub open spec fn all_embed<O: Fn(&candle_core::Tensor) -> Result<Vec<u32>, String>>(
    read_out: &O,
    width: usize,
    vectors: Seq<Seq<u32>>,
) -> bool {
    forall|i: int| 0 <= i < vectors.len() ==> embeds(read_out, width, #[trigger] vectors[i])
}

/// `r` is what embedding the texts one after the other gives with a model
/// that can have been loaded from `paths`.
pub open spec fn embedded_with_model_at<
    T: Fn(&str) -> Result<tokenizers::Tokenizer, String>,
    R: Fn(&str) -> Result<String, String>,
    B: Fn(&str, &candle_transformers::models::bert::Config) -> Result<
        candle_transformers::models::bert::BertModel,
        String,
    >,
    E: Fn(&tokenizers::Tokenizer, &str, bool) -> Result<Vec<u32>, String>,
    O: Fn(&candle_core::Tensor) -> Result<Vec<u32>, String>,
>(
    paths: &ModelPaths,
    load_tokenizer: &T,
    read_text: &R,
    bind_weights: &B,
    encode_text: &E,
    read_out: &O,
    texts: Seq<String>,
    r: Result<Vec<EmbeddingVector>, EngineError>,
) -> bool {
    exists|handle: ModelHandle| #[trigger]
        batch_outcome(&handle, encode_text, read_out, texts, r) && loaded_from(
            paths,
            load_tokenizer,
            read_text,
            bind_weights,
            handle,
        )
}

/// The vectors can be what a batch of `count` texts gets from the model at
/// `paths`: there are `count` of them, and all are vectors that texts can get
/// from a model that can have been loaded from `paths`, of its width.
pub open spec fn batch_vectors<
    T: Fn(&str) -> Result<tokenizers::Tokenizer, String>,
    R: Fn(&str) -> Result<String, String>,
    B: Fn(&str, &candle_transformers::models::bert::Config) -> Result<
        candle_transformers::models::bert::BertModel,
        String,
    >,
    O: Fn(&candle_core::Tensor) -> Result<Vec<u32>, String>,
>(
    paths: &ModelPaths,
    load_tokenizer: &T,
    read_text: &R,
    bind_weights: &B,
    read_out: &O,
    vectors: Seq<Seq<u32>>,
    count: nat,
) -> bool {
    &&& vectors.len() == count
    &&& exists|handle: ModelHandle| #[trigger]
        loaded_from(paths, load_tokenizer, read_text, bind_weights, handle) && all_embed(
            read_out,
            handle.width(),
            vectors,
        )
}

/// The failure `e` can be what a batch of `count` texts ends in with the
/// model at `paths`: the failure of a step of the load, with that step's
/// words, or, for a batch that is not empty, a failure to tokenize or to
/// infer.
pub open spec fn batch_failure<
    T: Fn(&str) -> Result<tokenizers::Tokenizer, String>,
    R: Fn(&str) -> Result<String, String>,
    B: Fn(&str, &candle_transformers::models::bert::Config) -> Result<
        candle_transformers::models::bert::BertModel,
        String,
    >,
>(
    paths: &ModelPaths,
    load_tokenizer: &T,
    read_text: &R,
    bind_weights: &B,
    e: ErrorView,
    count: nat,
) -> bool {
    ||| load_failed_with(paths, load_tokenizer, read_text, bind_weights, e)
    ||| count > 0 && (e is Tokenization || e is Inference)
}

/// The response can be what a well-formed request of `count` texts gets:
/// the vectors of the batch and no failure text, or no vector and the report
/// of the failure that the batch ended in.
pub open spec fn request_response<
    T: Fn(&str) -> Result<tokenizers::Tokenizer, String>,
    R: Fn(&str) -> Result<String, String>,
    B: Fn(&str, &candle_transformers::models::bert::Config) -> Result<
        candle_transformers::models::bert::BertModel,
        String,
    >,
    O: Fn(&candle_core::Tensor) -> Result<Vec<u32>, String>,
>(
    paths: &ModelPaths,
    load_tokenizer: &T,
    read_text: &R,
    bind_weights: &B,
    read_out: &O,
    response: ResponseView,
    count: nat,
) -> bool {
    ||| response.error is None && batch_vectors(
        paths,
        load_tokenizer,
        read_text,
        bind_weights,
        read_out,
        response.embeddings,
        count,
    )
    ||| exists|e: ErrorView| #[trigger]
        batch_failure(paths, load_tokenizer, read_text, bind_weights, e, count) && response
            == response_for(Err(e))
}

/// The response is the report of a failure of a step of the load at `paths`,
/// with that step's words, and holds no vector.
pub open spec fn reports_load_failure<
    T: Fn(&str) -> Result<tokenizers::Tokenizer, String>,
    R: Fn(&str) -> Result<String, String>,
    B: Fn(&str, &candle_transformers::models::bert::Config) -> Result<
        candle_transformers::models::bert::BertModel,
        String,
    >,
>(
    paths: &ModelPaths,
    load_tokenizer: &T,
    read_text: &R,
    bind_weights: &B,
    response: ResponseView,
) -> bool {
    exists|e: ErrorView| #[trigger]
        load_failed_with(paths, load_tokenizer, read_text, bind_weights, e) && response
            == response_for(Err(e))
}

/// Vectors that texts get from one model all have the model's width.
pub proof fn lemma_all_embed_uniform<O: Fn(&candle_core::Tensor) -> Result<Vec<u32>, String>>(
    read_out: &O,
    width: usize,
    vectors: Seq<Seq<u32>>,
)
    requires
        all_embed(read_out, width, vectors),
    ensures
        uniform_width(vectors, width as nat),
{
    assert forall|i: int| 0 <= i < vectors.len() implies (#[trigger] vectors[i]).len()
        == width by {
        assert(embeds(read_out, width, vectors[i]));
    }
}

/// A response to a well-formed request of `count` texts that reports no
/// failure holds exactly one vector for each text, and all its vectors have
/// one width: that of a model that can have been loaded from `paths`, the
/// hidden size that its configuration declares.
pub proof fn lemma_response_without_failure<
    T: Fn(&str) -> Result<tokenizers::Tokenizer, String>,
    R: Fn(&str) -> Result<String, String>,
    B: Fn(&str, &candle_transformers::models::bert::Config) -> Result<
        candle_transformers::models::bert::BertModel,
        String,
    >,
    O: Fn(&candle_core::Tensor) -> Result<Vec<u32>, String>,
>(
    paths: &ModelPaths,
    load_tokenizer: &T,
    read_text: &R,
    bind_weights: &B,
    read_out: &O,
    response: ResponseView,
    count: nat,
)
    requires
        request_response(
            paths,
            load_tokenizer,
            read_text,
            bind_weights,
            read_out,
            response,
            count,
        ),
        response.error is None,
    ensures
        response.embeddings.len() == count,
        exists|handle: ModelHandle| #[trigger]
            loaded_from(paths, load_tokenizer, read_text, bind_weights, handle) && uniform_width(
                response.embeddings,
                handle.width() as nat,
            ),
{
    let handle = choose|handle: ModelHandle| #[trigger]
        loaded_from(paths, load_tokenizer, read_text, bind_weights, handle) && all_embed(
            read_out,
            handle.width(),
            response.embeddings,
        );
    lemma_all_embed_uniform(read_out, handle.width(), response.embeddings);
}

/// A response to a well-formed request never mixes vectors with a failure:
/// one that reports a failure holds no vector, and one that reports none
/// holds a vector for each text.
pub proof fn lemma_response_all_or_nothing<
    T: Fn(&str) -> Result<tokenizers::Tokenizer, String>,
    R: Fn(&str) -> Result<String, String>,
    B: Fn(&str, &candle_transformers::models::bert::Config) -> Result<
        candle_transformers::models::bert::BertModel,
        String,
    >,
    O: Fn(&candle_core::Tensor) -> Result<Vec<u32>, String>,
>(
    paths: &ModelPaths,
    load_tokenizer: &T,
    read_text: &R,
    bind_weights: &B,
    read_out: &O,
    response: ResponseView,
    count: nat,
)
    requires
        request_response(
            paths,
            load_tokenizer,
            read_text,
            bind_weights,
            read_out,
            response,
            count,
        ),
    ensures
        response.all_or_nothing(),
        response.error is Some ==> response.embeddings.len() == 0,
        response.error is None ==> response.embeddings.len() == count,
{
}

/// The response to an empty batch that succeeded holds no vector and no
/// failure text.
pub proof fn lemma_empty_batch_response()
    ensures
        response_for(Ok(Seq::<Seq<u32>>::empty())) == (ResponseView {
            embeddings: Seq::empty(),
            error: None,
        }),
{
}

/// A text for which the tokenizer can only give no token at all gets the
/// zero vector of the model's width, and no failure.
pub proof fn lemma_text_without_tokens<
    E: Fn(&tokenizers::Tokenizer, &str, bool) -> Result<Vec<u32>, String>,
    O: Fn(&candle_core::Tensor) -> Result<Vec<u32>, String>,
>(
    handle: &ModelHandle,
    encode_text: &E,
    read_out: &O,
    text: Seq<char>,
    r: Result<EmbeddingVector, EngineError>,
)
    requires
        text_outcome(handle, encode_text, read_out, text, r),
        forall|answer: Result<Vec<u32>, String>| #[trigger]
            ids_gave(encode_text, handle.spec_tokenizer(), text, answer) ==> answer is Ok
                && answer->Ok_0@.len() == 0,
    ensures
        r is Ok,
        r->Ok_0@ == zeros(handle.width() as nat),
{
}

/// In a batch that was embedded, a text for which the tokenizer can only give
/// no token at all has the zero vector of the model's width at its position.
pub proof fn lemma_batch_text_without_tokens<
    E: Fn(&tokenizers::Tokenizer, &str, bool) -> Result<Vec<u32>, String>,
    O: Fn(&candle_core::Tensor) -> Result<Vec<u32>, String>,
>(
    handle: &ModelHandle,
    encode_text: &E,
    read_out: &O,
    texts: Seq<String>,
    vectors: Vec<EmbeddingVector>,
    i: int,
)
    requires
        batch_outcome(
            handle,
            encode_text,
            read_out,
            texts,
            Ok::<Vec<EmbeddingVector>, EngineError>(vectors),
        ),
        0 <= i < texts.len(),
        forall|answer: Result<Vec<u32>, String>| #[trigger]
            ids_gave(encode_text, handle.spec_tokenizer(), texts[i]@, answer) ==> answer is Ok
                && answer->Ok_0@.len() == 0,
    ensures
        vectors@[i]@ == zeros(handle.width() as nat),
{
    let outcome = Ok::<EmbeddingVector, EngineError>(vectors@[i]);
    assert(embedding_gave(handle, encode_text, read_out, texts[i]@, outcome));
    lemma_text_without_tokens(handle, encode_text, read_out, texts[i]@, outcome);
}

/// Embeds one text: tokenizes it, and embeds its tokens.
///
/// The outcome is what `embed_tokens` gives for the token sequence that
/// `tokenize` gave for the text, or the failure that `tokenize` gave. So a
/// vector that comes back is the zero vector of the model's width, or what
/// `read_out` gave, of the model's width and unaltered, and a failure is a
/// tokenization failure or an inference failure.
pub fn embed_text<E, O>(handle: &ModelHandle, text: &str, encode_text: &E, read_out: &O) -> (r:
    Result<EmbeddingVector, EngineError>) where
    E: Fn(&tokenizers::Tokenizer, &str, bool) -> Result<Vec<u32>, String>,
    O: Fn(&candle_core::Tensor) -> Result<Vec<u32>, String>,

    requires
        forall|k: &tokenizers::Tokenizer, t: &str| encode_text.requires((k, t, true)),
        forall|pooled: &candle_core::Tensor| read_out.requires((pooled,)),
    ensures
        text_outcome(handle, encode_text, read_out, text@, r),
        r is Ok ==> embeds(read_out, handle.width(), r->Ok_0@),
        r is Err ==> r->Err_0@ is Tokenization || r->Err_0@ is Inference,
{
    let tokens = tokenize(handle.tokenizer(), text, encode_text);
    proof {
        assert(call_ensures(tokenize::<E>, (&handle.spec_tokenizer(), text, encode_text), tokens));
    }
    match tokens {
        Ok(sequence) => {
            let r = embed_tokens(handle, &sequence, read_out);
            proof {
                assert(call_ensures(embed_tokens::<O>, (handle, &sequence, read_out), r));
            }
            r
        },
        Err(e) => Err(e),
    }
}

/// Takes the outcome of one text into the batch: a vector is put behind the
/// vectors of the texts before it, and a failure stops the batch and leaves
/// the vectors as they are.
pub fn keep_or_stop(
    vectors: &mut Vec<EmbeddingVector>,
    outcome: Result<EmbeddingVector, EngineError>,
) -> (stop: Option<EngineError>)
    ensures
        match outcome {
            Ok(vector) => stop is None && final(vectors)@ == old(vectors)@.push(vector),
            Err(e) => stop == Some(e) && final(vectors)@ == old(vectors)@,
        },
{
    match outcome {
        Ok(vector) => {
            vectors.push(vector);
            None
        },
        Err(e) => Some(e),
    }
}

/// Embeds each text of a batch with `embed`, in the order of the texts, and
/// stops at the first text that fails.
///
/// On success the vector at each position is the one that `embed` gave for
/// the text at that position. A failure is the one that `embed` gave for some
/// text, after it gave a vector for each text before that one; no vector
/// comes back with it.
pub fn embed_each<F>(texts: &Vec<String>, embed: &F) -> (r: Result<
    Vec<EmbeddingVector>,
    EngineError,
>) where F: Fn(&str) -> Result<EmbeddingVector, EngineError>
    requires
        forall|t: &str| embed.requires((t,)),
    ensures
        match r {
            Ok(vectors) => vectors@.len() == texts@.len() && forall|i: int|
                0 <= i < vectors@.len() ==> gave(
                    embed,
                    texts@[i]@,
                    Ok::<EmbeddingVector, EngineError>(#[trigger] vectors@[i]),
                ),
            Err(e) => exists|i: int|
                0 <= i < texts@.len() && #[trigger] gave(
                    embed,
                    texts@[i]@,
                    Err::<EmbeddingVector, EngineError>(e),
                ) && embedded_before(embed, texts@, i),
        },
{
    let mut vectors: Vec<EmbeddingVector> = Vec::new();
    let mut next: usize = 0;
    while next < texts.len()
        invariant
            next <= texts@.len(),
            vectors@.len() == next,
            forall|i: int|
                0 <= i < next ==> gave(
                    embed,
                    texts@[i]@,
                    Ok::<EmbeddingVector, EngineError>(#[trigger] vectors@[i]),
                ),
            forall|t: &str| embed.requires((t,)),
        decreases texts@.len() - next,
    {
        let outcome = embed(texts[next].as_str());
        proof {
            assert(gave(embed, texts@[next as int]@, outcome));
        }
        match keep_or_stop(&mut vectors, outcome) {
            Some(e) => {
                proof {
                    assert forall|j: int| 0 <= j < next implies gave_vector(
                        embed,
                        #[trigger] texts@[j]@,
                    ) by {
                        assert(gave(
                            embed,
                            texts@[j]@,
                            Ok::<EmbeddingVector, EngineError>(vectors@[j]),
                        ));
                    }
                    assert(gave(
                        embed,
                        texts@[next as int]@,
                        Err::<EmbeddingVector, EngineError>(e),
                    ));
                }
                return Err(e);
            },
            None => {},
        }
        next = next + 1;
    }
    Ok(vectors)
}

/// Embeds a batch of texts with a loaded model, one text after the other.
///
/// On success there is one vector for each text, and the vector at each
/// position is one that `embed_text` can give for the text at that position.
/// Every vector has the model's width: it is the zero vector, or what
/// `read_out` gave, unaltered. The first text that fails ends the batch with
/// its failure, which is a tokenization failure or an inference failure, and
/// no vector comes back. An empty batch succeeds with no vector.
pub fn embed_batch<E, O>(
    handle: &ModelHandle,
    texts: &Vec<String>,
    encode_text: &E,
    read_out: &O,
) -> (r: Result<Vec<EmbeddingVector>, EngineError>) where
    E: Fn(&tokenizers::Tokenizer, &str, bool) -> Result<Vec<u32>, String>,
    O: Fn(&candle_core::Tensor) -> Result<Vec<u32>, String>,

    requires
        forall|k: &tokenizers::Tokenizer, t: &str| encode_text.requires((k, t, true)),
        forall|pooled: &candle_core::Tensor| read_out.requires((pooled,)),
    ensures
        batch_outcome(handle, encode_text, read_out, texts@, r),
        texts@.len() == 0 ==> r is Ok,
        r is Ok ==> r->Ok_0@.len() == texts@.len(),
        r is Ok ==> all_embed(read_out, handle.width(), coordinates(r->Ok_0@)),
        r is Err ==> r->Err_0@ is Tokenization || r->Err_0@ is Inference,
{
    let embed = |text: &str| -> (outcome: Result<EmbeddingVector, EngineError>)
        ensures
            call_ensures(embed_text::<E, O>, (handle, text, encode_text, read_out), outcome),
        { embed_text(handle, text, encode_text, read_out) };
    let r = embed_each(texts, &embed);
    proof {
        if r is Ok {
            let vectors = r->Ok_0;
            assert forall|i: int| 0 <= i < vectors@.len() implies embedding_gave(
                handle,
                encode_text,
                read_out,
                texts@[i]@,
                Ok::<EmbeddingVector, EngineError>(#[trigger] vectors@[i]),
            ) by {
                assert(gave(&embed, texts@[i]@, Ok::<EmbeddingVector, EngineError>(vectors@[i])));
            }
            assert forall|i: int| 0 <= i < coordinates(vectors@).len() implies embeds(
                read_out,
                handle.width(),
                #[trigger] coordinates(vectors@)[i],
            ) by {
                assert(gave(&embed, texts@[i]@, Ok::<EmbeddingVector, EngineError>(vectors@[i])));
            }
        } else {
            let e = r->Err_0;
            let i = choose|i: int|
                0 <= i < texts@.len() && #[trigger] gave(
                    &embed,
                    texts@[i]@,
                    Err::<EmbeddingVector, EngineError>(e),
                ) && embedded_before(&embed, texts@, i);
            assert(embedding_gave(
                handle,
                encode_text,
                read_out,
                texts@[i]@,
                Err::<EmbeddingVector, EngineError>(e),
            ));
            assert forall|j: int| 0 <= j < i implies embedding_gave_vector(
                handle,
                encode_text,
                read_out,
                #[trigger] texts@[j]@,
            ) by {
                assert(gave_vector(&embed, texts@[j]@));
                let v = choose|v: EmbeddingVector| #[trigger]
                    gave(&embed, texts@[j]@, Ok::<EmbeddingVector, EngineError>(v));
                assert(embedding_gave(
                    handle,
                    encode_text,
                    read_out,
                    texts@[j]@,
                    Ok::<EmbeddingVector, EngineError>(v),
                ));
            }
        }
    }
    r
}

/// Loads the model at `paths` and embeds a batch of texts with it.
///
/// The model is loaded once, before the first text is looked at, and also
/// for an empty batch. On success the vector at each position is one that
/// `embed_text` can give, with the loaded model, for the text at that
/// position. A failure is the failure of a step of the load, with that step's
/// words, or the failure of the first text that fails; an empty batch fails
/// only with the load, and where an artifact of the model cannot be had, the
/// batch fails with the load.
pub fn generate_embeddings<T, R, B, E, O>(
    texts: &Vec<String>,
    paths: &ModelPaths,
    load_tokenizer: T,
    read_text: R,
    bind_weights: B,
    encode_text: E,
    read_out: O,
) -> (r: Result<Vec<EmbeddingVector>, EngineError>) where
    T: Fn(&str) -> Result<tokenizers::Tokenizer, String>,
    R: Fn(&str) -> Result<String, String>,
    B: Fn(&str, &candle_transformers::models::bert::Config) -> Result<
        candle_transformers::models::bert::BertModel,
        String,
    >,
    E: Fn(&tokenizers::Tokenizer, &str, bool) -> Result<Vec<u32>, String>,
    O: Fn(&candle_core::Tensor) -> Result<Vec<u32>, String>,

    requires
        callable_on(paths, &load_tokenizer, &read_text, &bind_weights),
        forall|k: &tokenizers::Tokenizer, t: &str| encode_text.requires((k, t, true)),
        forall|pooled: &candle_core::Tensor| read_out.requires((pooled,)),
    ensures
        match r {
            Ok(_) => embedded_with_model_at(
                paths,
                &load_tokenizer,
                &read_text,
                &bind_weights,
                &encode_text,
                &read_out,
                texts@,
                r,
            ),
            Err(e) => load_failed_with(paths, &load_tokenizer, &read_text, &bind_weights, e@)
                || embedded_with_model_at(
                paths,
                &load_tokenizer,
                &read_text,
                &bind_weights,
                &encode_text,
                &read_out,
                texts@,
                r,
            ),
        },
        r is Ok ==> batch_vectors(
            paths,
            &load_tokenizer,
            &read_text,
            &bind_weights,
            &read_out,
            coordinates(r->Ok_0@),
            texts@.len(),
        ),
        r is Err ==> batch_failure(
            paths,
            &load_tokenizer,
            &read_text,
            &bind_weights,
            r->Err_0@,
            texts@.len(),
        ),
        unavailable(paths, &load_tokenizer, &read_text, &bind_weights) ==> r is Err
            && load_failed_with(paths, &load_tokenizer, &read_text, &bind_weights, r->Err_0@),
{
    let handle = match load_model(paths, load_tokenizer, read_text, bind_weights) {
        Ok(handle) => handle,
        Err(e) => {
            return Err(e);
        },
    };
    let r = embed_batch(&handle, texts, &encode_text, &read_out);
    proof {
        assert(batch_outcome(&handle, &encode_text, &read_out, texts@, r));
    }
    r
}

/// Answers one request, given what parsing the request line gave.
///
/// A line that did not parse is answered with the parse failure, and the
/// model is not loaded. A request that parsed is answered with a vector for
/// each of its texts, or with the report of the first failure; where an
/// artifact of the model cannot be had, that is the report of the load's
/// failure.
pub fn respond<T, R, B, E, O>(
    parsed: Result<EmbeddingRequest, String>,
    paths: &ModelPaths,
    load_tokenizer: T,
    read_text: R,
    bind_weights: B,
    encode_text: E,
    read_out: O,
) -> (r: EmbeddingResponse) where
    T: Fn(&str) -> Result<tokenizers::Tokenizer, String>,
    R: Fn(&str) -> Result<String, String>,
    B: Fn(&str, &candle_transformers::models::bert::Config) -> Result<
        candle_transformers::models::bert::BertModel,
        String,
    >,
    E: Fn(&tokenizers::Tokenizer, &str, bool) -> Result<Vec<u32>, String>,
    O: Fn(&candle_core::Tensor) -> Result<Vec<u32>, String>,

    requires
        callable_on(paths, &load_tokenizer, &read_text, &bind_weights),
        forall|k: &tokenizers::Tokenizer, t: &str| encode_text.requires((k, t, true)),
        forall|pooled: &candle_core::Tensor| read_out.requires((pooled,)),
    ensures
        r@.all_or_nothing(),
        match parsed {
            Ok(request) => request_response(
                paths,
                &load_tokenizer,
                &read_text,
                &bind_weights,
                &read_out,
                r@,
                request@.len(),
            ),
            Err(detail) => r@ == response_for(Err(ErrorView::RequestParse(detail@))),
        },
        parsed is Ok && unavailable(paths, &load_tokenizer, &read_text, &bind_weights)
            ==> reports_load_failure(paths, &load_tokenizer, &read_text, &bind_weights, r@),
{
    match parsed {
        Ok(request) => {
            let outcome = generate_embeddings(
                &request.texts,
                paths,
                load_tokenizer,
                read_text,
                bind_weights,
                encode_text,
                read_out,
            );
            EmbeddingResponse::from_outcome(outcome)
        },
        Err(detail) => EmbeddingResponse::failure(&EngineError::RequestParse(detail)),
    }
}

} // verus!
