//! The request, the response and the vectors that a response carries.
use vstd::prelude::*;
use crate::error::{EngineError, ErrorView};

verus! {

/// A batch of texts to embed, in the order in which the vectors are wanted.
#[derive(Debug)]
pub struct EmbeddingRequest {
    pub texts: Vec<String>,
}

impl View for EmbeddingRequest {
    type V = Seq<Seq<char>>;

    open spec fn view(&self) -> Seq<Seq<char>> {
        self.texts@.map_values(|t: String| t@)
    }
}

/// The vector of `width` coordinates that are all `+0.0`.
pub open spec fn zeros(width: nat) -> Seq<u32> {
    Seq::new(width, |i: int| 0u32)
}

/// The zero vector of a width has that many coordinates, and every one of
/// them is `+0.0`.
pub proof fn lemma_zeros(width: nat)
    ensures
        zeros(width).len() == width,
        forall|i: int| 0 <= i < width ==> zeros(width)[i] == 0u32,
{
}

/// One embedding: its coordinates in order, each as the bit pattern of an
/// IEEE-754 single-precision number. The pattern `0` is `+0.0`.
#[derive(Debug)]
pub struct EmbeddingVector {
    bits: Vec<u32>,
}

impl View for EmbeddingVector {
    type V = Seq<u32>;

    closed spec fn view(&self) -> Seq<u32> {
        self.bits@
    }
}

impl EmbeddingVector {
    /// The vector with these coordinates.
    pub fn from_bits(bits: Vec<u32>) -> (r: EmbeddingVector)
        ensures
            r@ == bits@,
    {
        EmbeddingVector { bits }
    }

    /// The vector of `width` coordinates that are all `+0.0`.
    pub fn zero(width: usize) -> (r: EmbeddingVector)
        ensures
            r@ == zeros(width as nat),
    {
        let mut bits: Vec<u32> = Vec::new();
        let mut filled: usize = 0;
        while filled < width
            invariant
                filled <= width,
                bits@ == zeros(filled as nat),
            decreases width - filled,
        {
            bits.push(0u32);
            filled = filled + 1;
            assert(bits@ =~= zeros(filled as nat));
        }
        EmbeddingVector { bits }
    }

    /// The number of coordinates.
    pub fn width(&self) -> (r: usize)
        ensures
            r == self@.len(),
    {
        self.bits.len()
    }

    /// The coordinates, in order.
    pub fn bits(&self) -> (r: &Vec<u32>)
        ensures
            r@ == self@,
    {
        &self.bits
    }

    /// The coordinates, in order, by value.
    pub fn into_bits(self) -> (r: Vec<u32>)
        ensures
            r@ == self@,
    {
        self.bits
    }
}

/// The coordinates of each vector of a sequence, in the same order.
pub open spec fn coordinates(vectors: Seq<EmbeddingVector>) -> Seq<Seq<u32>> {
    vectors.map_values(|v: EmbeddingVector| v@)
}

/// Every vector of the sequence has `width` coordinates.
pub open spec fn uniform_width(vectors: Seq<Seq<u32>>, width: nat) -> bool {
    forall|i: int| 0 <= i < vectors.len() ==> (#[trigger] vectors[i]).len() == width
}

/// An optional text as an optional sequence of characters.
pub open spec fn text_of(text: Option<String>) -> Option<Seq<char>> {
    match text {
        Some(t) => Some(t@),
        None => None,
    }
}

/// What a response says: the vectors in request order, and the failure text
/// if there is one.
pub struct ResponseView {
    pub embeddings: Seq<Seq<u32>>,
    pub error: Option<Seq<char>>,
}

impl ResponseView {
    /// A response never mixes vectors with a failure.
    pub open spec fn all_or_nothing(self) -> bool {
        self.error is Some ==> self.embeddings.len() == 0
    }
}

/// The response that a batch outcome is answered with: every vector and no
/// failure text, or no vector and the failure's report.
pub open spec fn response_for(outcome: Result<Seq<Seq<u32>>, ErrorView>) -> ResponseView {
    match outcome {
        Ok(vectors) => ResponseView { embeddings: vectors, error: None },
        Err(e) => ResponseView { embeddings: Seq::empty(), error: Some(e.report()) },
    }
}

/// The response to a batch outcome is all or nothing: it holds every vector
/// of a batch that succeeded, in order and with no failure text, and no
/// vector but the failure's report for a batch that failed.
pub proof fn lemma_response_all_or_nothing(outcome: Result<Seq<Seq<u32>>, ErrorView>)
    ensures
        response_for(outcome).all_or_nothing(),
        response_for(outcome).error is None <==> outcome is Ok,
        outcome is Ok ==> response_for(outcome).embeddings == outcome->Ok_0,
        outcome is Err ==> response_for(outcome).embeddings.len() == 0 && response_for(
            outcome,
        ).error == Some(outcome->Err_0.report()),
{
}

/// The answer to one request.
#[derive(Debug)]
pub struct EmbeddingResponse {
    embeddings: Vec<EmbeddingVector>,
    error: Option<String>,
}

impl View for EmbeddingResponse {
    type V = ResponseView;

    closed spec fn view(&self) -> ResponseView {
        ResponseView {
            embeddings: coordinates(self.embeddings@),
            error: text_of(self.error),
        }
    }
}

impl EmbeddingResponse {
    #[verifier::type_invariant]
    spec fn inv(self) -> bool {
        self@.all_or_nothing()
    }

    /// The response to a batch that was embedded in full.
    pub fn success(embeddings: Vec<EmbeddingVector>) -> (r: EmbeddingResponse)
        ensures
            r@ == response_for(Ok(coordinates(embeddings@))),
    {
        EmbeddingResponse { embeddings, error: None }
    }

    /// The response to a request that failed.
    pub fn failure(error: &EngineError) -> (r: EmbeddingResponse)
        ensures
            r@ == response_for(Err(error@)),
    {
        let r = EmbeddingResponse { embeddings: Vec::new(), error: Some(error.report()) };
        assert(r@.embeddings =~= Seq::empty());
        r
    }

    /// The response to a batch outcome.
    pub fn from_outcome(outcome: Result<Vec<EmbeddingVector>, EngineError>) -> (r:
        EmbeddingResponse)
        ensures
            r@ == response_for(
                match outcome {
                    Ok(vectors) => Ok(coordinates(vectors@)),
                    Err(e) => Err(e@),
                },
            ),
    {
        match outcome {
            Ok(vectors) => EmbeddingResponse::success(vectors),
            Err(e) => EmbeddingResponse::failure(&e),
        }
    }

    /// The vectors, in request order; none if the request failed.
    pub fn embeddings(&self) -> (r: &Vec<EmbeddingVector>)
        ensures
            coordinates(r@) == self@.embeddings,
            self@.all_or_nothing(),
    {
        proof {
            use_type_invariant(self);
        }
        &self.embeddings
    }

    /// The failure text, if the request failed.
    pub fn error(&self) -> (r: &Option<String>)
        ensures
            text_of(*r) == self@.error,
            self@.all_or_nothing(),
    {
        proof {
            use_type_invariant(self);
        }
        &self.error
    }

    /// The vectors and the failure text, by value.
    pub fn into_parts(self) -> (r: (Vec<EmbeddingVector>, Option<String>))
        ensures
            coordinates(r.0@) == self@.embeddings,
            text_of(r.1) == self@.error,
            self@.all_or_nothing(),
    {
        proof {
            use_type_invariant(&self);
        }
        (self.embeddings, self.error)
    }
}

} // verus!
