//! One text's way from its tokens to its vector: the encoder's forward pass,
//! mean pooling over the tokens, and the read-out of the coordinates.
//!
//! The coordinates are floating-point numbers inside a tensor. The engine
//! never handles one: a function that the caller hands in reads them out of
//! the pooled tensor as bit patterns.
use vstd::prelude::*;
use vstd::string::StringExecFns;
use crate::error::{EngineError, ErrorView};
use crate::loader::ModelHandle;
use crate::protocol::{zeros, EmbeddingVector};
use crate::tokens::{single_segment, TokenSequence};

verus! {

/// `candle_core::Tensor`. The proofs see nothing inside it.
#[verifier::external_type_specification]
#[verifier::external_body]
pub struct ExTensor(candle_core::Tensor);

/// `candle_core::Error`. The proofs see nothing inside it.
#[verifier::external_type_specification]
#[verifier::external_body]
pub struct ExCandleError(candle_core::Error);

/// The axis of the encoder's output that runs over the texts of a batch.
pub const BATCH_AXIS: usize = 0;

/// The axis of the encoder's output that runs over the tokens of a text.
pub const TOKEN_AXIS: usize = 1;

/// The detail of the failure that a read-out of the wrong width ends in.
pub const WIDTH_MISMATCH: &'static str = "pooled vector does not have the model's hidden size";

/// The shape of a tensor: the size of each of its axes, outermost first, as
/// `Tensor::dims` gives it.
pub uninterp spec fn tensor_shape(tensor: candle_core::Tensor) -> Seq<usize>;

/// A shape without the axis `axis`, if the size of that axis is one; the
/// shape as it is otherwise.
pub open spec fn squeezed(shape: Seq<usize>, axis: int) -> Seq<usize>
    recommends
        0 <= axis < shape.len(),
{
    if shape[axis] == 1 {
        shape.remove(axis)
    } else {
        shape
    }
}

/// The shape that pooling gives to an encoder output of shape `hidden`: the
/// token axis is gone, and so is the batch axis of a batch of one.
pub open spec fn pooled_shape(hidden: Seq<usize>) -> Seq<usize>
    recommends
        hidden.len() >= 2,
{
    squeezed(hidden.remove(TOKEN_AXIS as int), BATCH_AXIS as int)
}

/// Pooling the output for one text, `tokens` vectors of `width` coordinates
/// each, gives a single vector of `width` coordinates.
pub proof fn lemma_pooled_shape_of_one_text(tokens: usize, width: usize)
    ensures
        pooled_shape(hidden_shape(tokens, width)) == seq![width],
{
    let hidden = seq![1usize, tokens, width];
    assert(hidden.remove(1) =~= seq![1usize, width]);
    assert(seq![1usize, width].remove(0) =~= seq![width]);
}

/// Runs `BertModel::forward` on one text of a single segment as a batch of
/// one. Each of the two sequences is handed over as a tensor of one row, made
/// by `Tensor::new` on the encoder's device and `Tensor::unsqueeze` at axis
/// 0; no attention mask is given. Nothing is claimed of the tensor that comes
/// back.
#[verifier::external_body]
fn forward(
    encoder: &candle_transformers::models::bert::BertModel,
    input_ids: &Vec<u32>,
    token_type_ids: &Vec<u32>,
) -> (r: Result<candle_core::Tensor, candle_core::Error>)
    requires
        input_ids@.len() >= 1,
        token_type_ids@ == single_segment(input_ids@.len()),
{
    let device = &encoder.device;
    let ids = candle_core::Tensor::new(input_ids.as_slice(), device)?.unsqueeze(0)?;
    let types = candle_core::Tensor::new(token_type_ids.as_slice(), device)?.unsqueeze(0)?;
    encoder.forward(&ids, &types, None)
}

/// Calls `Tensor::mean` over one axis of a tensor whose element type the
/// mean takes. The call is kept from the other element types: on integers a
/// sum that runs over stops the process. The call succeeds exactly on an axis
/// that the tensor has; the tensor that comes back has lost that axis and
/// kept the others. Nothing is claimed of its values.
#[verifier::external_body]
fn mean_over(tensor: &candle_core::Tensor, axis: usize) -> (r: Result<
    candle_core::Tensor,
    candle_core::Error,
>)
    requires
        takes_mean(tensor_element_name(*tensor)),
    ensures
        r is Ok <==> axis < tensor_shape(*tensor).len(),
        r is Ok ==> tensor_shape(r->Ok_0) == tensor_shape(*tensor).remove(axis as int),
{
    tensor.mean(axis)
}

/// Calls `Tensor::squeeze` on one axis. The call succeeds exactly on an axis
/// that the tensor has; the tensor that comes back has lost that axis if its
/// size was one, and has the shape of the first otherwise. Nothing is claimed
/// of its values.
#[verifier::external_body]
fn squeeze(tensor: &candle_core::Tensor, axis: usize) -> (r: Result<
    candle_core::Tensor,
    candle_core::Error,
>)
    ensures
        r is Ok <==> axis < tensor_shape(*tensor).len(),
        r is Ok ==> tensor_shape(r->Ok_0) == squeezed(tensor_shape(*tensor), axis as int),
{
    tensor.squeeze(axis)
}

/// The words of a `candle_core::Error`, as its `Display` gives them.
pub uninterp spec fn error_words(e: candle_core::Error) -> Seq<char>;

/// The words of a `candle_core::Error`, as its `Display` gives them.
#[verifier::external_body]
fn failure_text(e: &candle_core::Error) -> (r: String)
    ensures
        r@ == error_words(*e),
{
    e.to_string()
}

/// Runs the encoder on the tokens of one text: it is given the token ids and,
/// of the same length, the segment marks, which are all zero. An output that
/// comes back holds, for a batch of one, one vector of the model's width for
/// each token. Which values it holds is the encoder's business; a failure is
/// always an inference failure.
pub fn encode(handle: &ModelHandle, tokens: &TokenSequence) -> (r: Result<
    candle_core::Tensor,
    EngineError,
>)
    requires
        tokens@.len() >= 1,
    ensures
        r is Ok ==> tensor_shape(r->Ok_0) == hidden_shape(tokens@.len() as usize, handle.width()),
        r is Err ==> r->Err_0@ is Inference,
{
    let segment_ids = tokens.segment_ids();
    let outcome = forward(handle.encoder(), tokens.ids(), &segment_ids);
    checked_hidden(outcome, tokens.len(), handle.width())
}

/// The detail of the failure that an encoder output of the wrong shape ends
/// in.
pub const SHAPE_MISMATCH: &'static str =
    "encoder output does not hold one vector of the model's hidden size per token";

/// The shape of the encoder's output for one text of `tokens` tokens, from a
/// model of hidden size `width`: a batch of one, with one vector of `width`
/// coordinates for each token.
pub open spec fn hidden_shape(tokens: usize, width: usize) -> Seq<usize> {
    seq![1usize, tokens, width]
}

/// The name of the element type of a tensor, as `DType::as_str` gives it for
/// `Tensor::dtype`.
pub uninterp spec fn tensor_element_name(tensor: candle_core::Tensor) -> Seq<char>;

/// The element types that the mean takes: the floating-point types that the
/// tensor library computes with.
pub open spec fn takes_mean(element_name: Seq<char>) -> bool {
    ||| element_name == "f32"@
    ||| element_name == "f16"@
    ||| element_name == "bf16"@
    ||| element_name == "f64"@
    ||| element_name == "f8e4m3"@
}

/// The detail of the failure that pooling a tensor of another element type
/// than the mean takes ends in.
pub const NOT_POOLED: &'static str = "encoder output holds numbers that cannot be averaged";

/// Calls `Tensor::dtype` and copies what `DType::as_str` gives for it.
#[verifier::external_body]
fn element_name(tensor: &candle_core::Tensor) -> (r: String)
    ensures
        r@ == tensor_element_name(*tensor),
{
    tensor.dtype().as_str().to_string()
}

/// Whether a name is that of an element type that the mean takes.
fn names_pooled_type(name: &String) -> (r: bool)
    ensures
        r == takes_mean(name@),
{
    *name == String::from_str("f32") || *name == String::from_str("f16") || *name
        == String::from_str("bf16") || *name == String::from_str("f64") || *name
        == String::from_str("f8e4m3")
}

/// Copies what `Tensor::dims` gives: the shape of the tensor.
#[verifier::external_body]
fn shape_of(tensor: &candle_core::Tensor) -> (r: Vec<usize>)
    ensures
        r@ == tensor_shape(*tensor),
{
    tensor.dims().to_vec()
}

/// Takes the encoder's output for one text from what the forward pass gave.
///
/// An output is taken as it is if it holds, for a batch of one, one vector of
/// `width` coordinates for each of the `tokens` tokens. An output of any
/// other shape is an inference failure, and so is a forward pass that failed,
/// with the encoder's words.
pub fn checked_hidden(
    outcome: Result<candle_core::Tensor, candle_core::Error>,
    tokens: usize,
    width: usize,
) -> (r: Result<candle_core::Tensor, EngineError>)
    ensures
        match outcome {
            Ok(hidden) => if tensor_shape(hidden) == hidden_shape(tokens, width) {
                r == Ok::<candle_core::Tensor, EngineError>(hidden)
            } else {
                r is Err && r->Err_0@ == ErrorView::Inference(SHAPE_MISMATCH@)
            },
            Err(e) => r is Err && r->Err_0@ == ErrorView::Inference(error_words(e)),
        },
{
    match outcome {
        Ok(hidden) => {
            let shape = shape_of(&hidden);
            if shape.len() == 3 && shape[0] == 1 && shape[1] == tokens && shape[2] == width {
                assert(shape@ =~= hidden_shape(tokens, width));
                Ok(hidden)
            } else {
                Err(EngineError::Inference(SHAPE_MISMATCH.to_string()))
            }
        },
        Err(e) => Err(EngineError::Inference(failure_text(&e))),
    }
}

/// Pools the encoder's output for one text into one tensor: the mean over the
/// token axis, every token counting alike, with the batch axis dropped.
///
/// A tensor of an element type that the mean does not take is not pooled:
/// that is an inference failure. A tensor of a type that it takes is pooled
/// exactly if it has a token axis, and the pooled tensor has the pooled
/// shape; without a token axis, pooling is an inference failure.
pub fn mean_pool(hidden: &candle_core::Tensor) -> (r: Result<candle_core::Tensor, EngineError>)
    ensures
        if !takes_mean(tensor_element_name(*hidden)) {
            r is Err && r->Err_0@ == ErrorView::Inference(NOT_POOLED@)
        } else if tensor_shape(*hidden).len() >= 2 {
            r is Ok && tensor_shape(r->Ok_0) == pooled_shape(tensor_shape(*hidden))
        } else {
            r is Err && r->Err_0@ is Inference
        },
{
    let name = element_name(hidden);
    if !names_pooled_type(&name) {
        return Err(EngineError::Inference(NOT_POOLED.to_string()));
    }
    let mean = match mean_over(hidden, TOKEN_AXIS) {
        Ok(mean) => mean,
        Err(e) => {
            return Err(EngineError::Inference(failure_text(&e)));
        },
    };
    match squeeze(&mean, BATCH_AXIS) {
        Ok(pooled) => Ok(pooled),
        Err(e) => Err(EngineError::Inference(failure_text(&e))),
    }
}

/// What a read-out means for a model of hidden size `width`: the vector if it
/// has `width` coordinates, and an inference failure otherwise.
pub open spec fn read_out_result(width: nat, read: Result<Seq<u32>, Seq<char>>) -> Result<
    Seq<u32>,
    ErrorView,
> {
    match read {
        Ok(bits) => if bits.len() == width {
            Ok(bits)
        } else {
            Err(ErrorView::Inference(WIDTH_MISMATCH@))
        },
        Err(detail) => Err(ErrorView::Inference(detail)),
    }
}

/// Turns what the read-out gave into the text's vector.
///
/// A read-out that failed is an inference failure with the reader's words. So
/// is one that gave another number of coordinates than `width`: every vector
/// of one model has the same width.
pub fn pooled_vector(width: usize, read: Result<Vec<u32>, String>) -> (r: Result<
    EmbeddingVector,
    EngineError,
>)
    ensures
        match read_out_result(
            width as nat,
            match read {
                Ok(bits) => Ok(bits@),
                Err(detail) => Err(detail@),
            },
        ) {
            Ok(bits) => r is Ok && r->Ok_0@ == bits,
            Err(e) => r is Err && r->Err_0@ == e,
        },
{
    match read {
        Ok(bits) => {
            if bits.len() == width {
                Ok(EmbeddingVector::from_bits(bits))
            } else {
                Err(EngineError::Inference(WIDTH_MISMATCH.to_string()))
            }
        },
        Err(detail) => Err(EngineError::Inference(detail)),
    }
}

/// `bits` are coordinates that `read_out` can give for some pooled tensor
/// that is a single vector of `width` coordinates.
pub open spec fn reads_out<O: Fn(&candle_core::Tensor) -> Result<Vec<u32>, String>>(
    read_out: &O,
    width: usize,
    bits: Seq<u32>,
) -> bool {
    exists|pooled: &candle_core::Tensor, read: Vec<u32>|
        #[trigger] read_out.ensures((pooled,), Ok::<Vec<u32>, String>(read)) && tensor_shape(
            *pooled,
        ) == seq![width] && read@ == bits
}

/// `bits` is a vector that a text can get from a model of hidden size
/// `width`: the zero vector, or coordinates that `read_out` gave, `width` of
/// them and unaltered.
pub open spec fn embeds<O: Fn(&candle_core::Tensor) -> Result<Vec<u32>, String>>(
    read_out: &O,
    width: usize,
    bits: Seq<u32>,
) -> bool {
    bits == zeros(width as nat) || (bits.len() == width && reads_out(read_out, width, bits))
}

/// Embeds the tokens of one text.
///
/// A text without tokens is never shown to the encoder: its vector is the
/// zero vector of the model's width. Any other text is encoded, pooled and
/// read out by `read_out`, which copies the coordinates out of the pooled
/// tensor, a single vector of the model's width, as bit patterns or gives its
/// failure in words.
///
/// The vector of a text with tokens is what `read_out` gave, unaltered, and
/// has the model's width. A failure is always an inference failure.
pub fn embed_tokens<O>(handle: &ModelHandle, tokens: &TokenSequence, read_out: &O) -> (r: Result<
    EmbeddingVector,
    EngineError,
>) where O: Fn(&candle_core::Tensor) -> Result<Vec<u32>, String>
    requires
        forall|pooled: &candle_core::Tensor| read_out.requires((pooled,)),
    ensures
        tokens@.len() == 0 ==> r is Ok && r->Ok_0@ == zeros(handle.width() as nat),
        tokens@.len() > 0 && r is Ok ==> r->Ok_0@.len() == handle.width() && reads_out(
            read_out,
            handle.width(),
            r->Ok_0@,
        ),
        r is Err ==> r->Err_0@ is Inference,
{
    if tokens.is_empty() {
        return Ok(EmbeddingVector::zero(handle.width()));
    }
    let hidden = match encode(handle, tokens) {
        Ok(hidden) => hidden,
        Err(e) => {
            return Err(e);
        },
    };
    let pooled = match mean_pool(&hidden) {
        Ok(pooled) => pooled,
        Err(e) => {
            return Err(e);
        },
    };
    let read = read_out(&pooled);
    proof {
        lemma_pooled_shape_of_one_text(tokens@.len() as usize, handle.width());
        if read is Ok {
            assert(read_out.ensures((&pooled,), Ok::<Vec<u32>, String>(read->Ok_0)));
        }
    }
    pooled_vector(handle.width(), read)
}

} // verus!
