use candle_engine::error::EngineError;
use candle_engine::protocol::{EmbeddingRequest, EmbeddingResponse, EmbeddingVector};

#[test]
fn zero_vector_has_the_width_and_only_positive_zeros() {
    let v = EmbeddingVector::zero(384);
    assert_eq!(v.width(), 384);
    assert_eq!(v.bits().len(), 384);
    assert!(v.bits().iter().all(|b| *b == 0));
    assert!(v.bits().iter().all(|b| f32::from_bits(*b) == 0.0 && f32::from_bits(*b).is_sign_positive()));
}

#[test]
fn zero_vector_of_width_zero_is_empty() {
    let v = EmbeddingVector::zero(0);
    assert_eq!(v.width(), 0);
    assert!(v.into_bits().is_empty());
}

#[test]
fn vector_keeps_its_bits_in_order() {
    let bits = vec![1.5f32.to_bits(), (-2.0f32).to_bits(), 0.25f32.to_bits()];
    let v = EmbeddingVector::from_bits(bits.clone());
    assert_eq!(v.width(), 3);
    assert_eq!(v.bits(), &bits);
    assert_eq!(v.into_bits(), bits);
}

#[test]
fn request_holds_its_texts_in_order() {
    let request = EmbeddingRequest { texts: vec!["b".to_string(), "a".to_string()] };
    assert_eq!(request.texts, vec!["b".to_string(), "a".to_string()]);
}

#[test]
fn success_carries_every_vector_in_order_and_no_error() {
    let first = vec![1.0f32.to_bits(), 2.0f32.to_bits()];
    let second = vec![3.0f32.to_bits(), 4.0f32.to_bits()];
    let r = EmbeddingResponse::success(vec![
        EmbeddingVector::from_bits(first.clone()),
        EmbeddingVector::from_bits(second.clone()),
    ]);
    assert!(r.error().is_none());
    assert_eq!(r.embeddings().len(), 2);
    assert_eq!(r.embeddings()[0].bits(), &first);
    assert_eq!(r.embeddings()[1].bits(), &second);
}

#[test]
fn success_of_an_empty_batch_is_empty_and_has_no_error() {
    let r = EmbeddingResponse::success(Vec::new());
    let (embeddings, error) = r.into_parts();
    assert!(embeddings.is_empty());
    assert_eq!(error, None);
}

#[test]
fn failure_carries_no_vector_and_the_report() {
    let r = EmbeddingResponse::failure(&EngineError::Inference("boom".to_string()));
    assert!(r.embeddings().is_empty());
    assert_eq!(r.error(), &Some("Embedding failed: boom".to_string()));
}

#[test]
fn outcome_of_a_failed_batch_drops_nothing_into_the_response() {
    let r = EmbeddingResponse::from_outcome(Err(EngineError::Tokenization("bad".to_string())));
    let (embeddings, error) = r.into_parts();
    assert!(embeddings.is_empty());
    assert_eq!(error, Some("Embedding failed: Tokenization failed: bad".to_string()));
}

#[test]
fn outcome_of_a_good_batch_is_its_vectors() {
    let bits = vec![0.5f32.to_bits()];
    let r = EmbeddingResponse::from_outcome(Ok(vec![EmbeddingVector::from_bits(bits.clone())]));
    let (embeddings, error) = r.into_parts();
    assert_eq!(error, None);
    assert_eq!(embeddings.len(), 1);
    assert_eq!(embeddings[0].bits(), &bits);
}
