//! The speech models that setup offers and the files that make up a model.
use crate::text::same_text;
use vstd::prelude::*;

verus! {

/// The owner of the model repositories.
pub const REPO_OWNER: &'static str = "csukuangfj2";

/// What the registry knows of one model.
#[derive(Debug)]
pub struct ModelSpec {
    pub id: &'static str,
    pub display_name: &'static str,
    pub repo: &'static str,
    pub size_mb: u32,
    pub min_ram_gb: u32,
    pub chunk_ms: u32,
    pub wer_note: &'static str,
}

/// A speech engine that the worker can run.
#[derive(Clone, Copy, Debug, PartialEq, Eq, Structural)]
pub enum ModelKind {
    /// A streaming transducer. It has a registry entry.
    Nemotron,
    /// A whole-utterance model. It has no registry entry.
    Moonshine,
}

/// The entry of the registry.
pub open spec fn is_nemotron_spec(spec: ModelSpec) -> bool {
    &&& spec.id@ == "nemotron"@
    &&& spec.display_name@ == "Nemotron Streaming"@
    &&& spec.repo@ == "sherpa-onnx-nemotron-speech-streaming-en-0.6b-80ms-int8-2026-04-25"@
    &&& spec.size_mb == 632
    &&& spec.min_ram_gb == 4
    &&& spec.chunk_ms == 80
    &&& spec.wer_note@ == "~7.2\u{2013}7.8% WER, tracks voice closely"@
}

/// The models that setup offers, in the order in which it lists them.
pub fn registry() -> (specs: [&'static ModelSpec; 1])
    ensures
        is_nemotron_spec(*specs@[0]),
{
    [
        &ModelSpec {
            id: "nemotron",
            display_name: "Nemotron Streaming",
            repo: "sherpa-onnx-nemotron-speech-streaming-en-0.6b-80ms-int8-2026-04-25",
            size_mb: 632,
            min_ram_gb: 4,
            chunk_ms: 80,
            wer_note: "~7.2\u{2013}7.8% WER, tracks voice closely",
        },
    ]
}

/// The registry entry with this id.
pub fn spec_by_id(id: &str) -> (spec: Option<&'static ModelSpec>)
    ensures
        spec is Some <==> id@ == "nemotron"@,
        spec is Some ==> is_nemotron_spec(*spec->0),
{
    let specs = registry();
    if same_text(specs[0].id, id) {
        Some(specs[0])
    } else {
        None
    }
}

/// The engine that the registry lists under this id.
pub open spec fn kind_of_id(id: Seq<char>) -> Option<ModelKind> {
    if id == "nemotron"@ {
        Some(ModelKind::Nemotron)
    } else {
        None
    }
}

/// The engine that the registry lists under this id.
pub fn kind_by_id(id: &str) -> (kind: Option<ModelKind>)
    ensures
        kind == kind_of_id(id@),
{
    if same_text(id, "nemotron") {
        Some(ModelKind::Nemotron)
    } else {
        None
    }
}

impl ModelKind {
    /// The registry entry of an engine that has one.
    pub fn spec(self) -> (spec: &'static ModelSpec)
        requires
            self == ModelKind::Nemotron,
        ensures
            is_nemotron_spec(*spec),
    {
        registry()[0]
    }

    /// The id under which configuration files name the engine.
    pub open spec fn id_text(self) -> Seq<char> {
        match self {
            ModelKind::Nemotron => "nemotron"@,
            ModelKind::Moonshine => "moonshine"@,
        }
    }

    /// The id under which configuration files name the engine.
    pub fn id(self) -> (id: &'static str)
        ensures
            id@ == self.id_text(),
    {
        match self {
            ModelKind::Nemotron => "nemotron",
            ModelKind::Moonshine => "moonshine",
        }
    }

    /// The name of the engine in messages.
    pub open spec fn name_text(self) -> Seq<char> {
        match self {
            ModelKind::Nemotron => "Nemotron"@,
            ModelKind::Moonshine => "Moonshine"@,
        }
    }

    /// The name of the engine in messages.
    pub fn name(self) -> (name: &'static str)
        ensures
            name@ == self.name_text(),
    {
        match self {
            ModelKind::Nemotron => "Nemotron",
            ModelKind::Moonshine => "Moonshine",
        }
    }

    /// The name of the engine in the user interface.
    pub open spec fn display_text(self) -> Seq<char> {
        match self {
            ModelKind::Nemotron => "Nemotron Streaming"@,
            ModelKind::Moonshine => "Moonshine"@,
        }
    }

    /// The name of the engine in the user interface.
    pub fn display_name(self) -> (name: &'static str)
        ensures
            name@ == self.display_text(),
    {
        match self {
            ModelKind::Nemotron => "Nemotron Streaming",
            ModelKind::Moonshine => "Moonshine",
        }
    }
}

/// The files of a downloaded model, as paths.
#[derive(Debug)]
pub enum ModelPaths {
    Nemotron { encoder: String, decoder: String, joiner: String, tokens: String },
    Moonshine {
        preprocessor: String,
        encoder: String,
        uncached_decoder: String,
        cached_decoder: String,
        tokens: String,
    },
}

impl ModelPaths {
    /// The engine that the files belong to.
    pub open spec fn kind(self) -> ModelKind {
        match self {
            ModelPaths::Nemotron { .. } => ModelKind::Nemotron,
            ModelPaths::Moonshine { .. } => ModelKind::Moonshine,
        }
    }
}

/// Whether the files belong to the engine `kind`.
pub fn paths_matches_kind(paths: &ModelPaths, kind: ModelKind) -> (r: bool)
    ensures
        r == (paths.kind() == kind),
{
    match (paths, kind) {
        (ModelPaths::Nemotron { .. }, ModelKind::Nemotron) => true,
        (ModelPaths::Moonshine { .. }, ModelKind::Moonshine) => true,
        _ => false,
    }
}

/// Every id that the registry lists is the id of the engine it names.
pub proof fn registry_ids_name_their_engine(id: Seq<char>)
    ensures
        kind_of_id(id) matches Some(kind) ==> kind.id_text() == id,
{
}

/// Exactly the id of Nemotron names an engine that setup offers, and the engines are told
/// apart by their ids and their names.
pub proof fn engines_are_told_apart(id: Seq<char>, kind: ModelKind)
    ensures
        kind_of_id(id) is Some <==> id == "nemotron"@,
        kind_of_id("nemotron"@) == Some(ModelKind::Nemotron),
        kind.id_text() == "nemotron"@ <==> kind == ModelKind::Nemotron,
        kind.id_text() == "moonshine"@ <==> kind == ModelKind::Moonshine,
        kind.name_text() == "Nemotron"@ <==> kind == ModelKind::Nemotron,
        kind.name_text() == "Moonshine"@ <==> kind == ModelKind::Moonshine,
        kind.display_text() == "Nemotron Streaming"@ <==> kind == ModelKind::Nemotron,
        kind.display_text() == "Moonshine"@ <==> kind == ModelKind::Moonshine,
{
    reveal_strlit("nemotron");
    reveal_strlit("moonshine");
    reveal_strlit("Nemotron");
    reveal_strlit("Moonshine");
    reveal_strlit("Nemotron Streaming");
    assert("nemotron"@.len() == 8 && "moonshine"@.len() == 9 && "Nemotron"@.len() == 8
        && "Moonshine"@.len() == 9 && "Nemotron Streaming"@.len() == 18);
}

/// The model that setup offers is Nemotron for streaming, from its own repository, with the
/// size and the memory that setup speaks of.
pub proof fn setup_offers_nemotron(id: &str, spec: Option<&'static ModelSpec>)
    requires
        call_ensures(spec_by_id, (id,), spec),
    ensures
        spec is Some <==> id@ == "nemotron"@,
        spec is Some ==> spec->0.id@ == id@,
        spec is Some ==> kind_of_id(spec->0.id@) is Some && spec->0.display_name@ == kind_of_id(
            spec->0.id@,
        )->0.display_text(),
        spec is Some ==> spec->0.size_mb == 632 && spec->0.min_ram_gb == 4 && spec->0.chunk_ms == 80,
        spec is Some ==> spec->0.repo@
            == "sherpa-onnx-nemotron-speech-streaming-en-0.6b-80ms-int8-2026-04-25"@,
{
}

/// The files of a model belong to its engine.
pub proof fn files_belong_to_their_engine(paths: ModelPaths, kind: ModelKind, r: bool)
    requires
        call_ensures(paths_matches_kind, (&paths, kind), r),
    ensures
        r <==> (paths is Nemotron <==> kind == ModelKind::Nemotron),
{
}

} // verus!
