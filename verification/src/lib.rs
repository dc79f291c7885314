//! Sentence embeddings from a pretrained transformer encoder, as a verified core.
//!
//! The crate turns a batch of texts into one fixed-width vector per text:
//! each text is tokenized, run through the encoder, and the per-token outputs
//! are mean-pooled. A batch either succeeds as a whole or fails as a whole.
//!
//! The core never reads a file, never asks the tokenizer itself and never
//! touches a floating-point value. The tokenizer is loaded and asked, files
//! are read, weights are bound and coordinates are read out of tensors by
//! functions that the caller hands in; the core decides what each is asked
//! and what its answer means. Coordinates travel through the core as IEEE-754
//! single-precision bit patterns.
pub mod error;
pub mod protocol;
pub mod tokens;
pub mod loader;
pub mod inference;
pub mod pipeline;
