//! Locating the model artifacts and building the model handle from them.
//!
//! The loader reads no file itself. It is handed three functions: one that
//! loads a tokenizer from its definition file, one that reads a text file,
//! and one that maps a weights file and binds it into an encoder for a given
//! configuration. It decides in which order they are called and what each
//! failure is reported as.
use vstd::prelude::*;
use vstd::string::StringExecFns;
use crate::error::{EngineError, ErrorKind, ErrorView};

verus! {

/// `candle_transformers::models::bert::BertModel`: an encoder bound to its
/// weights. The proofs see nothing inside it.
#[verifier::external_type_specification]
#[verifier::external_body]
pub struct ExBertModel(candle_transformers::models::bert::BertModel);

/// `candle_transformers::models::bert::Config`: the hyperparameters of an
/// encoder. The proofs see nothing inside it.
#[verifier::external_type_specification]
#[verifier::external_body]
pub struct ExConfig(candle_transformers::models::bert::Config);

/// The directory of the model that ships with the engine.
pub const SHIPPED_MODEL_DIR: &'static str = "./models/shipped/all-MiniLM-L6-v2";

/// Where the three artifacts of a model are found.
#[derive(Debug)]
pub struct ModelPaths {
    /// The tokenizer definition.
    pub tokenizer: String,
    /// The encoder configuration.
    pub config: String,
    /// The weights.
    pub weights: String,
}

impl ModelPaths {
    /// The three paths are the fixed file names directly under `dir`.
    pub open spec fn located_under(&self, dir: Seq<char>) -> bool {
        &&& self.tokenizer@ == dir + "/tokenizer.json"@
        &&& self.config@ == dir + "/config.json"@
        &&& self.weights@ == dir + "/model.safetensors"@
    }

    /// The artifact paths of the model directory `dir`.
    pub fn under(dir: &str) -> (r: ModelPaths)
        ensures
            r.located_under(dir@),
    {
        ModelPaths {
            tokenizer: String::from_str(dir).concat("/tokenizer.json"),
            config: String::from_str(dir).concat("/config.json"),
            weights: String::from_str(dir).concat("/model.safetensors"),
        }
    }

    /// The artifact paths of the model that ships with the engine.
    pub fn shipped() -> (r: ModelPaths)
        ensures
            r.located_under(SHIPPED_MODEL_DIR@),
    {
        ModelPaths::under(SHIPPED_MODEL_DIR)
    }
}

/// What parsing a configuration text gives: the configuration and the hidden
/// size that it declares, or the words in which the parser rejects the text.
pub uninterp spec fn parsed_config(text: Seq<char>) -> Result<
    (candle_transformers::models::bert::Config, usize),
    Seq<char>,
>;

/// A parsed encoder configuration, with its hidden size at hand.
pub struct EncoderConfig {
    raw: candle_transformers::models::bert::Config,
    hidden_size: usize,
}

impl EncoderConfig {
    /// The hidden size: the width of each vector that the encoder gives.
    pub closed spec fn spec_hidden_size(&self) -> usize {
        self.hidden_size
    }

    /// The configuration as the encoder's own loader takes it.
    pub closed spec fn spec_raw(&self) -> candle_transformers::models::bert::Config {
        self.raw
    }

    /// The hidden size: the width of each vector that the encoder gives.
    #[verifier::when_used_as_spec(spec_hidden_size)]
    pub fn hidden_size(&self) -> (r: usize)
        ensures
            r == self.spec_hidden_size(),
    {
        self.hidden_size
    }

    /// The configuration as the encoder's own loader takes it.
    pub fn raw(&self) -> (r: &candle_transformers::models::bert::Config)
        ensures
            *r == self.spec_raw(),
    {
        &self.raw
    }
}

/// A loaded model: the tokenizer, the encoder bound to its weights, and the
/// width of the vectors the encoder gives. Built once, never changed.
pub struct ModelHandle {
    tokenizer: tokenizers::Tokenizer,
    encoder: candle_transformers::models::bert::BertModel,
    width: usize,
}

impl ModelHandle {
    /// The number of coordinates of every vector made with this handle.
    pub closed spec fn spec_width(&self) -> usize {
        self.width
    }

    /// The tokenizer that the handle holds.
    pub closed spec fn spec_tokenizer(&self) -> tokenizers::Tokenizer {
        self.tokenizer
    }

    /// The encoder that the handle holds.
    pub closed spec fn spec_encoder(&self) -> candle_transformers::models::bert::BertModel {
        self.encoder
    }

    /// A handle on a tokenizer and an encoder whose hidden size is `width`.
    pub fn new(
        tokenizer: tokenizers::Tokenizer,
        encoder: candle_transformers::models::bert::BertModel,
        width: usize,
    ) -> (r: ModelHandle)
        ensures
            r.spec_width() == width,
            r.spec_tokenizer() == tokenizer,
            r.spec_encoder() == encoder,
    {
        ModelHandle { tokenizer, encoder, width }
    }

    /// The number of coordinates of every vector made with this handle.
    #[verifier::when_used_as_spec(spec_width)]
    pub fn width(&self) -> (r: usize)
        ensures
            r == self.spec_width(),
    {
        self.width
    }

    /// The tokenizer.
    pub fn tokenizer(&self) -> (r: &tokenizers::Tokenizer)
        ensures
            *r == self.spec_tokenizer(),
    {
        &self.tokenizer
    }

    /// The encoder.
    pub fn encoder(&self) -> (r: &candle_transformers::models::bert::BertModel)
        ensures
            *r == self.spec_encoder(),
    {
        &self.encoder
    }
}

/// Parses an encoder configuration with `serde_json::from_str` and hands it
/// back together with its field `hidden_size`; a failure comes back as the
/// parser's own message. Whether the parser accepts a text, what it reads
/// and in which words it rejects depends on the text alone.
#[verifier::external_body]
fn parse_config(text: &str) -> (r: Result<
    (candle_transformers::models::bert::Config, usize),
    String,
>)
    ensures
        match r {
            Ok(parsed) => parsed_config(text@) == Ok::<
                (candle_transformers::models::bert::Config, usize),
                Seq<char>,
            >(parsed),
            Err(detail) => parsed_config(text@) == Err::<
                (candle_transformers::models::bert::Config, usize),
                Seq<char>,
            >(detail@),
        },
{
    match serde_json::from_str::<candle_transformers::models::bert::Config>(text) {
        Ok(config) => {
            let hidden_size = config.hidden_size;
            Ok((config, hidden_size))
        },
        Err(e) => Err(e.to_string()),
    }
}

/// Takes the tokenizer from what loading its definition file gave: a file
/// that could not be loaded is reported with the loader's words.
pub fn tokenizer_from(loaded: Result<tokenizers::Tokenizer, String>) -> (r: Result<
    tokenizers::Tokenizer,
    EngineError,
>)
    ensures
        match loaded {
            Ok(tokenizer) => r == Ok::<tokenizers::Tokenizer, EngineError>(tokenizer),
            Err(detail) => r is Err && r->Err_0@ == ErrorView::TokenizerLoad(detail@),
        },
{
    match loaded {
        Ok(tokenizer) => Ok(tokenizer),
        Err(detail) => Err(EngineError::TokenizerLoad(detail)),
    }
}

/// Builds the encoder configuration from what reading its file gave.
///
/// An unreadable file is reported with the reader's words. A readable one is
/// handed to the parser: a text that the parser accepts gives the
/// configuration that the parser read, with the hidden size that it
/// declares, and one that it rejects is reported with the parser's words.
pub fn config_from(file: Result<String, String>) -> (r: Result<EncoderConfig, EngineError>)
    ensures
        match file {
            Ok(text) => match parsed_config(text@) {
                Ok(parsed) => r is Ok && r->Ok_0.spec_raw() == parsed.0 && r->Ok_0.hidden_size()
                    == parsed.1,
                Err(detail) => r is Err && r->Err_0@ == ErrorView::ConfigLoad(detail),
            },
            Err(detail) => r is Err && r->Err_0@ == ErrorView::ConfigLoad(detail@),
        },
{
    match file {
        Ok(text) => match parse_config(text.as_str()) {
            Ok(parsed) => Ok(EncoderConfig { raw: parsed.0, hidden_size: parsed.1 }),
            Err(detail) => Err(EngineError::ConfigLoad(detail)),
        },
        Err(detail) => Err(EngineError::ConfigLoad(detail)),
    }
}

/// Takes the encoder from what mapping and binding the weights gave.
pub fn encoder_from(bound: Result<candle_transformers::models::bert::BertModel, String>) -> (r:
    Result<candle_transformers::models::bert::BertModel, EngineError>)
    ensures
        match bound {
            Ok(encoder) => r == Ok::<candle_transformers::models::bert::BertModel, EngineError>(
                encoder,
            ),
            Err(detail) => r is Err && r->Err_0@ == ErrorView::WeightsLoad(detail@),
        },
{
    match bound {
        Ok(encoder) => Ok(encoder),
        Err(detail) => Err(EngineError::WeightsLoad(detail)),
    }
}

/// `load_tokenizer` can give `outcome` for the definition file at `path`.
pub open spec fn tokenizer_loaded<T: Fn(&str) -> Result<tokenizers::Tokenizer, String>>(
    load_tokenizer: &T,
    path: Seq<char>,
    outcome: Result<tokenizers::Tokenizer, String>,
) -> bool {
    exists|p: &str| p@ == path && #[trigger] load_tokenizer.ensures((p,), outcome)
}

/// `load_tokenizer` can give a tokenizer for the definition file at `path`.
pub open spec fn tokenizer_taken<T: Fn(&str) -> Result<tokenizers::Tokenizer, String>>(
    load_tokenizer: &T,
    path: Seq<char>,
) -> bool {
    exists|tokenizer: tokenizers::Tokenizer| #[trigger]
        tokenizer_loaded(load_tokenizer, path, Ok::<tokenizers::Tokenizer, String>(tokenizer))
}

/// `read_text` can give `outcome` for the text file at `path`.
pub open spec fn text_gave<R: Fn(&str) -> Result<String, String>>(
    read_text: &R,
    path: Seq<char>,
    outcome: Result<String, String>,
) -> bool {
    exists|p: &str| p@ == path && #[trigger] read_text.ensures((p,), outcome)
}

/// `config` is the configuration that the parser reads from a text that
/// `read_text` can give for the file at `path`.
pub open spec fn configured<R: Fn(&str) -> Result<String, String>>(
    read_text: &R,
    path: Seq<char>,
    config: EncoderConfig,
) -> bool {
    exists|text: String| #[trigger]
        text_gave(read_text, path, Ok::<String, String>(text)) && parsed_config(text@) == Ok::<
            (candle_transformers::models::bert::Config, usize),
            Seq<char>,
        >((config.spec_raw(), config.hidden_size()))
}

/// `bind_weights` can give `outcome` for the weights file at `path` and the
/// configuration `config`.
pub open spec fn weights_gave<
    B: Fn(&str, &candle_transformers::models::bert::Config) -> Result<
        candle_transformers::models::bert::BertModel,
        String,
    >,
>(
    bind_weights: &B,
    path: Seq<char>,
    config: candle_transformers::models::bert::Config,
    outcome: Result<candle_transformers::models::bert::BertModel, String>,
) -> bool {
    exists|p: &str, c: &candle_transformers::models::bert::Config|
        p@ == path && *c == config && #[trigger] bind_weights.ensures((p, c), outcome)
}

/// The three functions may be called on the artifacts at `paths`:
/// `load_tokenizer` on the path of the tokenizer definition, `read_text` on
/// that of the configuration, and `bind_weights` on that of the weights, with
/// any configuration.
pub open spec fn callable_on<
    T: Fn(&str) -> Result<tokenizers::Tokenizer, String>,
    R: Fn(&str) -> Result<String, String>,
    B: Fn(&str, &candle_transformers::models::bert::Config) -> Result<
        candle_transformers::models::bert::BertModel,
        String,
    >,
>(paths: &ModelPaths, load_tokenizer: &T, read_text: &R, bind_weights: &B) -> bool {
    &&& forall|p: &str| p@ == paths.tokenizer@ ==> #[trigger] load_tokenizer.requires((p,))
    &&& forall|p: &str| p@ == paths.config@ ==> #[trigger] read_text.requires((p,))
    &&& forall|p: &str, config: &candle_transformers::models::bert::Config|
        p@ == paths.weights@ ==> #[trigger] bind_weights.requires((p, config))
}

/// One of the three artifacts at `paths` cannot be had: the tokenizer cannot
/// be loaded, the configuration cannot be read, or the weights cannot be
/// bound, whatever the configuration.
pub open spec fn unavailable<
    T: Fn(&str) -> Result<tokenizers::Tokenizer, String>,
    R: Fn(&str) -> Result<String, String>,
    B: Fn(&str, &candle_transformers::models::bert::Config) -> Result<
        candle_transformers::models::bert::BertModel,
        String,
    >,
>(paths: &ModelPaths, load_tokenizer: &T, read_text: &R, bind_weights: &B) -> bool {
    ||| forall|outcome: Result<tokenizers::Tokenizer, String>| #[trigger]
        tokenizer_loaded(load_tokenizer, paths.tokenizer@, outcome) ==> outcome is Err
    ||| forall|outcome: Result<String, String>| #[trigger]
        text_gave(read_text, paths.config@, outcome) ==> outcome is Err
    ||| forall|
        config: candle_transformers::models::bert::Config,
        outcome: Result<candle_transformers::models::bert::BertModel, String>,
    | #[trigger]
        weights_gave(bind_weights, paths.weights@, config, outcome) ==> outcome is Err
}

/// `handle` can have been loaded from the artifacts at `paths`: its
/// tokenizer is one that `load_tokenizer` gave, its width is the hidden size
/// of the configuration that the parser read from what `read_text` gave, and
/// its encoder is one that `bind_weights` gave for that configuration.
pub open spec fn loaded_from<
    T: Fn(&str) -> Result<tokenizers::Tokenizer, String>,
    R: Fn(&str) -> Result<String, String>,
    B: Fn(&str, &candle_transformers::models::bert::Config) -> Result<
        candle_transformers::models::bert::BertModel,
        String,
    >,
>(
    paths: &ModelPaths,
    load_tokenizer: &T,
    read_text: &R,
    bind_weights: &B,
    handle: ModelHandle,
) -> bool {
    &&& tokenizer_loaded(
        load_tokenizer,
        paths.tokenizer@,
        Ok::<tokenizers::Tokenizer, String>(handle.spec_tokenizer()),
    )
    &&& exists|config: EncoderConfig| #[trigger]
        configured(read_text, paths.config@, config) && config.hidden_size() == handle.width()
            && weights_gave(
            bind_weights,
            paths.weights@,
            config.spec_raw(),
            Ok::<candle_transformers::models::bert::BertModel, String>(handle.spec_encoder()),
        )
}

/// What reading and parsing the configuration at `path` failed with: the
/// words that `read_text` failed with, or the words in which the parser
/// rejects a text that `read_text` gave.
pub open spec fn config_failed_with<R: Fn(&str) -> Result<String, String>>(
    read_text: &R,
    path: Seq<char>,
    words: Seq<char>,
) -> bool {
    ||| exists|detail: String| #[trigger]
        text_gave(read_text, path, Err::<String, String>(detail)) && detail@ == words
    ||| exists|text: String| #[trigger]
        text_gave(read_text, path, Ok::<String, String>(text)) && parsed_config(text@) == Err::<
            (candle_transformers::models::bert::Config, usize),
            Seq<char>,
        >(words)
}

/// What binding the weights at `path` failed with: the words that
/// `bind_weights` failed with for a configuration that was parsed from what
/// `read_text` gave for the file at `config_path`.
pub open spec fn weights_failed_with<
    R: Fn(&str) -> Result<String, String>,
    B: Fn(&str, &candle_transformers::models::bert::Config) -> Result<
        candle_transformers::models::bert::BertModel,
        String,
    >,
>(read_text: &R, config_path: Seq<char>, bind_weights: &B, path: Seq<char>, words: Seq<char>) -> bool {
    exists|config: EncoderConfig, detail: String| #[trigger]
        configured(read_text, config_path, config) && #[trigger] weights_gave(
            bind_weights,
            path,
            config.spec_raw(),
            Err::<candle_transformers::models::bert::BertModel, String>(detail),
        ) && detail@ == words
}

/// The failure `e` is the failure of a step of the load at `paths`, with that
/// step's words, after every step before it went well:
/// - of the tokenizer, if `load_tokenizer` failed with these words;
/// - of the configuration, if a tokenizer was loaded, and `read_text` failed
///   with these words or gave a text that the parser rejects with them;
/// - of the weights, if a tokenizer was loaded and a configuration parsed, and
///   `bind_weights` failed with these words for that configuration.
pub open spec fn load_failed_with<
    T: Fn(&str) -> Result<tokenizers::Tokenizer, String>,
    R: Fn(&str) -> Result<String, String>,
    B: Fn(&str, &candle_transformers::models::bert::Config) -> Result<
        candle_transformers::models::bert::BertModel,
        String,
    >,
>(paths: &ModelPaths, load_tokenizer: &T, read_text: &R, bind_weights: &B, e: ErrorView) -> bool {
    match e {
        ErrorView::TokenizerLoad(words) => exists|detail: String| #[trigger]
            tokenizer_loaded(
                load_tokenizer,
                paths.tokenizer@,
                Err::<tokenizers::Tokenizer, String>(detail),
            ) && detail@ == words,
        ErrorView::ConfigLoad(words) => tokenizer_taken(load_tokenizer, paths.tokenizer@)
            && config_failed_with(read_text, paths.config@, words),
        ErrorView::WeightsLoad(words) => tokenizer_taken(load_tokenizer, paths.tokenizer@)
            && weights_failed_with(read_text, paths.config@, bind_weights, paths.weights@, words),
        _ => false,
    }
}

/// Loads the model whose artifacts are at `paths`.
///
/// The tokenizer is loaded first, then the configuration is read and parsed,
/// and the weights are bound last, for the configuration that was parsed. The
/// first step that fails ends the load, and the steps after it are not taken.
/// `load_tokenizer` loads a tokenizer from its definition file, `read_text`
/// reads a whole text file, and `bind_weights` maps the weights file at a
/// path and binds it into an encoder for a configuration. Each gives its
/// failure in words, and none is called on any other path than its own of
/// `paths`.
///
/// A handle that comes back holds the tokenizer and the encoder that the
/// functions gave, and has the hidden size that the configuration declares as
/// its width. A failure is the failure of a step, with that step's words,
/// after the steps before it went well, and the load fails if any of the
/// three artifacts cannot be had.
pub fn load_model<T, R, B>(
    paths: &ModelPaths,
    load_tokenizer: T,
    read_text: R,
    bind_weights: B,
) -> (r: Result<ModelHandle, EngineError>) where
    T: Fn(&str) -> Result<tokenizers::Tokenizer, String>,
    R: Fn(&str) -> Result<String, String>,
    B: Fn(&str, &candle_transformers::models::bert::Config) -> Result<
        candle_transformers::models::bert::BertModel,
        String,
    >,

    requires
        callable_on(paths, &load_tokenizer, &read_text, &bind_weights),
    ensures
        r is Ok ==> loaded_from(paths, &load_tokenizer, &read_text, &bind_weights, r->Ok_0),
        r is Err ==> load_failed_with(
            paths,
            &load_tokenizer,
            &read_text,
            &bind_weights,
            r->Err_0@,
        ),
        r is Err ==> r->Err_0@.kind() == ErrorKind::Load,
        unavailable(paths, &load_tokenizer, &read_text, &bind_weights) ==> r is Err,
{
    let loaded = load_tokenizer(paths.tokenizer.as_str());
    proof {
        assert(tokenizer_loaded(&load_tokenizer, paths.tokenizer@, loaded));
    }
    let tokenizer = match tokenizer_from(loaded) {
        Ok(tokenizer) => tokenizer,
        Err(e) => {
            return Err(e);
        },
    };
    let config_file = read_text(paths.config.as_str());
    proof {
        assert(text_gave(&read_text, paths.config@, config_file));
    }
    let ghost file = config_file;
    let config = match config_from(config_file) {
        Ok(config) => config,
        Err(e) => {
            return Err(e);
        },
    };
    proof {
        assert(text_gave(&read_text, paths.config@, Ok::<String, String>(file->Ok_0)));
        assert(configured(&read_text, paths.config@, config));
    }
    let bound = bind_weights(paths.weights.as_str(), config.raw());
    proof {
        assert(weights_gave(&bind_weights, paths.weights@, config.spec_raw(), bound));
    }
    let encoder = match encoder_from(bound) {
        Ok(encoder) => encoder,
        Err(e) => {
            return Err(e);
        },
    };
    Ok(ModelHandle::new(tokenizer, encoder, config.hidden_size()))
}

} // verus!
