//! Speech recognition: the model registry, model downloads, the recogniser
//! worker and the rewrite pass.
use vstd::prelude::*;

pub mod assets;
pub mod download;
pub mod engine;
pub mod fetch;
pub mod model;
pub mod rewrite;
pub mod worker;

verus! {

/// How a recording is transcribed.
#[derive(Clone, Copy, Debug, PartialEq, Eq, Structural)]
pub enum Mode {
    /// The whole recording is transcribed after it ends.
    Record,
    /// Partial transcripts follow the voice.
    Live,
}

} // verus!
