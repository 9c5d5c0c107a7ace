//! Verified core of a batch PDF-translation pipeline.
//!
//! The library contains the decision logic of the pipeline: validating and
//! pairing the batch input, sequencing the three stages of one job
//! (extract, translate, render), building the translation request, reading
//! the configuration values, choosing the translated text from the endpoint's
//! response, and planning the rendered document. The surrounding I/O (reading
//! the source document, the network call, writing the output file) is left to
//! the embedding application, which feeds its outcomes back as plain values.

pub mod batch;
pub mod config;
pub mod document;
pub mod errors;
pub mod pipeline;
pub mod request;
pub mod response;
