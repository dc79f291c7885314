//! The failures the engine can report, and the text each one is reported with.
use vstd::prelude::*;
use vstd::string::StringExecFns;

verus! {

/// The four kinds of failure a request can end in.
#[derive(Clone, Copy, Debug, PartialEq, Eq, Structural)]
pub enum ErrorKind {
    /// The request line is not a well-formed request.
    RequestParse,
    /// A model artifact is missing, unreadable or inconsistent with the others.
    Load,
    /// The tokenizer rejected a text.
    Tokenization,
    /// The forward computation failed on a tokenized text.
    Inference,
}

/// A failure, with the detail that its source gave.
#[derive(Debug)]
pub enum EngineError {
    /// The request line could not be parsed.
    RequestParse(String),
    /// The tokenizer definition could not be read or parsed.
    TokenizerLoad(String),
    /// The encoder configuration could not be read or parsed.
    ConfigLoad(String),
    /// The weights could not be mapped or do not fit the configuration.
    WeightsLoad(String),
    /// The tokenizer rejected a text.
    Tokenization(String),
    /// The encoder, the pooling or the read-out failed.
    Inference(String),
}

/// What an [`EngineError`] is, with its detail as a sequence of characters.
pub enum ErrorView {
    RequestParse(Seq<char>),
    TokenizerLoad(Seq<char>),
    ConfigLoad(Seq<char>),
    WeightsLoad(Seq<char>),
    Tokenization(Seq<char>),
    Inference(Seq<char>),
}

impl ErrorView {
    /// The kind of failure.
    pub open spec fn kind(self) -> ErrorKind {
        match self {
            ErrorView::RequestParse(_) => ErrorKind::RequestParse,
            ErrorView::TokenizerLoad(_) => ErrorKind::Load,
            ErrorView::ConfigLoad(_) => ErrorKind::Load,
            ErrorView::WeightsLoad(_) => ErrorKind::Load,
            ErrorView::Tokenization(_) => ErrorKind::Tokenization,
            ErrorView::Inference(_) => ErrorKind::Inference,
        }
    }

    /// The detail that the failing step gave.
    pub open spec fn detail(self) -> Seq<char> {
        match self {
            ErrorView::RequestParse(d) => d,
            ErrorView::TokenizerLoad(d) => d,
            ErrorView::ConfigLoad(d) => d,
            ErrorView::WeightsLoad(d) => d,
            ErrorView::Tokenization(d) => d,
            ErrorView::Inference(d) => d,
        }
    }

    /// The failure in words: the detail, behind a prefix where the failing
    /// step has one.
    pub open spec fn message(self) -> Seq<char> {
        match self {
            ErrorView::TokenizerLoad(d) => "Tokenizer error: "@ + d,
            ErrorView::Tokenization(d) => "Tokenization failed: "@ + d,
            _ => self.detail(),
        }
    }

    /// The text that a response carries for this failure.
    pub open spec fn report(self) -> Seq<char> {
        match self {
            ErrorView::RequestParse(d) => "Invalid JSON input: "@ + d,
            _ => "Embedding failed: "@ + self.message(),
        }
    }
}

/// Every report is a fixed, non-empty prefix followed by the detail that the
/// failing step gave: a report is never empty, and it ends with the detail.
pub proof fn lemma_report_ends_with_detail(e: ErrorView)
    ensures
        e.report().len() > e.detail().len(),
        e.report().subrange(e.report().len() - e.detail().len(), e.report().len() as int)
            == e.detail(),
{
    reveal_strlit("Invalid JSON input: ");
    reveal_strlit("Embedding failed: ");
    reveal_strlit("Tokenizer error: ");
    reveal_strlit("Tokenization failed: ");
    let report = e.report();
    let detail = e.detail();
    assert(report.subrange(report.len() - detail.len(), report.len() as int) =~= detail);
}

/// The report of a request that did not parse is never the report of a
/// request that failed later: the two begin differently.
pub proof fn lemma_parse_failure_reads_apart(parse: ErrorView, other: ErrorView)
    requires
        parse.kind() == ErrorKind::RequestParse,
        other.kind() != ErrorKind::RequestParse,
    ensures
        parse.report() != other.report(),
        parse.report()[0] == 'I',
        other.report()[0] == 'E',
{
    reveal_strlit("Invalid JSON input: ");
    reveal_strlit("Embedding failed: ");
    assert(parse.report()[0] == 'I');
    assert(other.report()[0] == 'E');
}

impl View for EngineError {
    type V = ErrorView;

    open spec fn view(&self) -> ErrorView {
        match self {
            EngineError::RequestParse(d) => ErrorView::RequestParse(d@),
            EngineError::TokenizerLoad(d) => ErrorView::TokenizerLoad(d@),
            EngineError::ConfigLoad(d) => ErrorView::ConfigLoad(d@),
            EngineError::WeightsLoad(d) => ErrorView::WeightsLoad(d@),
            EngineError::Tokenization(d) => ErrorView::Tokenization(d@),
            EngineError::Inference(d) => ErrorView::Inference(d@),
        }
    }
}

impl EngineError {
    /// The kind of this failure.
    pub fn kind(&self) -> (r: ErrorKind)
        ensures
            r == self@.kind(),
    {
        match self {
            EngineError::RequestParse(_) => ErrorKind::RequestParse,
            EngineError::TokenizerLoad(_) => ErrorKind::Load,
            EngineError::ConfigLoad(_) => ErrorKind::Load,
            EngineError::WeightsLoad(_) => ErrorKind::Load,
            EngineError::Tokenization(_) => ErrorKind::Tokenization,
            EngineError::Inference(_) => ErrorKind::Inference,
        }
    }

    /// The detail that the failing step gave.
    pub fn detail(&self) -> (r: &String)
        ensures
            r@ == self@.detail(),
    {
        match self {
            EngineError::RequestParse(d) => d,
            EngineError::TokenizerLoad(d) => d,
            EngineError::ConfigLoad(d) => d,
            EngineError::WeightsLoad(d) => d,
            EngineError::Tokenization(d) => d,
            EngineError::Inference(d) => d,
        }
    }

    /// The failure in words.
    pub fn message(&self) -> (r: String)
        ensures
            r@ == self@.message(),
    {
        match self {
            EngineError::TokenizerLoad(d) => String::from_str("Tokenizer error: ").concat(
                d.as_str(),
            ),
            EngineError::Tokenization(d) => String::from_str("Tokenization failed: ").concat(
                d.as_str(),
            ),
            EngineError::RequestParse(d) => d.clone(),
            EngineError::ConfigLoad(d) => d.clone(),
            EngineError::WeightsLoad(d) => d.clone(),
            EngineError::Inference(d) => d.clone(),
        }
    }

    /// The text that a response carries for this failure.
    pub fn report(&self) -> (r: String)
        ensures
            r@ == self@.report(),
    {
        match self {
            EngineError::RequestParse(d) => String::from_str("Invalid JSON input: ").concat(
                d.as_str(),
            ),
            _ => {
                let message = self.message();
                String::from_str("Embedding failed: ").concat(message.as_str())
            },
        }
    }
}

} // verus!
