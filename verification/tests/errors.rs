use candle_engine::error::{EngineError, ErrorKind};

fn detail() -> String {
    "no such file".to_string()
}

#[test]
fn request_parse_failure_has_its_own_report() {
    let e = EngineError::RequestParse(detail());
    assert_eq!(e.kind(), ErrorKind::RequestParse);
    assert_eq!(e.detail(), "no such file");
    assert_eq!(e.message(), "no such file");
    assert_eq!(e.report(), "Invalid JSON input: no such file");
}

#[test]
fn tokenizer_load_failure_is_reported_with_both_prefixes() {
    let e = EngineError::TokenizerLoad(detail());
    assert_eq!(e.kind(), ErrorKind::Load);
    assert_eq!(e.detail(), "no such file");
    assert_eq!(e.message(), "Tokenizer error: no such file");
    assert_eq!(e.report(), "Embedding failed: Tokenizer error: no such file");
}

#[test]
fn config_load_failure_is_reported_with_its_detail() {
    let e = EngineError::ConfigLoad(detail());
    assert_eq!(e.kind(), ErrorKind::Load);
    assert_eq!(e.message(), "no such file");
    assert_eq!(e.report(), "Embedding failed: no such file");
}

#[test]
fn weights_load_failure_is_reported_with_its_detail() {
    let e = EngineError::WeightsLoad(detail());
    assert_eq!(e.kind(), ErrorKind::Load);
    assert_eq!(e.message(), "no such file");
    assert_eq!(e.report(), "Embedding failed: no such file");
}

#[test]
fn tokenization_failure_is_reported_with_both_prefixes() {
    let e = EngineError::Tokenization("bad text".to_string());
    assert_eq!(e.kind(), ErrorKind::Tokenization);
    assert_eq!(e.message(), "Tokenization failed: bad text");
    assert_eq!(e.report(), "Embedding failed: Tokenization failed: bad text");
}

#[test]
fn inference_failure_is_reported_with_its_detail() {
    let e = EngineError::Inference("shape mismatch".to_string());
    assert_eq!(e.kind(), ErrorKind::Inference);
    assert_eq!(e.message(), "shape mismatch");
    assert_eq!(e.report(), "Embedding failed: shape mismatch");
}

#[test]
fn empty_detail_leaves_the_bare_prefix() {
    let e = EngineError::Tokenization(String::new());
    assert_eq!(e.message(), "Tokenization failed: ");
    assert_eq!(e.report(), "Embedding failed: Tokenization failed: ");
}
