//! What a composition gives back: the supergraph SDL with its hints, or the errors that kept the
//! subgraphs from composing, and the messages they are made from.
use vstd::prelude::*;
use vstd::string::*;

use crate::binary::InstallSupergraphError;
use crate::pipeline::FederationOneUnsupported;
use crate::supergraph::ResolveSupergraphConfigError;
use crate::version::{FederationVersion, Version};

verus! {

/// A JSON value, carried as the build tooling gives it.
#[verifier::external_type_specification]
#[verifier::external_body]
pub struct ExJsonValue(serde_json::Value);

/// How severe a build message is.
#[derive(Debug)]
pub enum BuildMessageLevel {
    Debug,
    Info,
    Warn,
    Error,
}

/// A point in a GraphQL document.
#[derive(Debug)]
pub struct BuildMessagePoint {
    pub start: Option<usize>,
    pub end: Option<usize>,
    pub column: Option<usize>,
    pub line: Option<usize>,
}

/// Where in the subgraphs a build message points.
#[derive(Debug)]
pub struct BuildMessageLocation {
    pub subgraph: Option<String>,
    pub source: Option<String>,
    pub start: Option<BuildMessagePoint>,
    pub end: Option<BuildMessagePoint>,
    pub other: std::collections::BTreeMap<String, serde_json::Value>,
}

/// A message of a build: an error, a warning, a hint.
#[derive(Debug)]
pub struct BuildMessage {
    pub level: BuildMessageLevel,
    pub message: String,
    pub step: Option<String>,
    pub code: Option<String>,
    pub locations: Vec<BuildMessageLocation>,
    pub schema_coordinate: Option<String>,
    pub other: std::collections::BTreeMap<String, serde_json::Value>,
}

/// Why a build plugin failed.
#[derive(Debug)]
pub enum PluginFailureReason {
    /// The inputs cannot be built.
    Build,
    /// The configuration is invalid.
    Config,
    /// The plugin failed for an internal reason.
    InternalFailure,
}

/// What a build plugin gives back: the supergraph SDL or why there is none, with the messages
/// of the build.
#[derive(Debug)]
pub struct PluginResult {
    pub result: Result<String, PluginFailureReason>,
    pub build_messages: Vec<BuildMessage>,
}

/// Which kind of build error.
#[derive(Debug)]
pub enum BuildErrorType {
    Composition,
    Config,
}

/// An error of a build.
#[derive(Debug)]
pub struct BuildError {
    pub message: Option<String>,
    pub code: Option<String>,
    pub error_type: BuildErrorType,
    pub other: std::collections::BTreeMap<String, serde_json::Value>,
    pub nodes: Option<Vec<BuildMessageLocation>>,
    pub omitted_nodes_count: Option<u32>,
}

/// The errors of a build.
#[derive(Debug)]
pub struct BuildErrors {
    pub build_errors: Vec<BuildError>,
    pub is_config: bool,
}

/// A hint of a build.
#[derive(Debug)]
pub struct BuildHint {
    pub message: String,
    pub code: Option<String>,
    pub nodes: Option<Vec<BuildMessageLocation>>,
    pub omitted_nodes_count: Option<u32>,
    pub other: std::collections::BTreeMap<String, serde_json::Value>,
}

/// Whether a message is an error.
pub open spec fn is_error(m: BuildMessage) -> bool {
    m.level is Error
}

/// The build error a message makes: its text and code, a composition error, pointing where it
/// points.
pub open spec fn error_of_message(m: BuildMessage) -> BuildError {
    BuildError {
        message: Some(m.message),
        code: m.code,
        error_type: BuildErrorType::Composition,
        other: m.other,
        nodes: Some(m.locations),
        omitted_nodes_count: None,
    }
}

/// The hint a message makes: its text and code, pointing where it points.
pub open spec fn hint_of_message(m: BuildMessage) -> BuildHint {
    BuildHint {
        message: m.message,
        code: m.code,
        nodes: Some(m.locations),
        omitted_nodes_count: None,
        other: m.other,
    }
}

impl BuildMessage {
    /// An error message with the given text, step and code, pointing nowhere.
    pub fn new_error(error_message: String, step: Option<String>, code: Option<String>) -> (r: BuildMessage)
        ensures
            r.level is Error,
            r.message == error_message,
            r.step == step,
            r.code == code,
            r.locations@.len() == 0,
            r.schema_coordinate is None,
            r.other@ == Map::<String, serde_json::Value>::empty(),
    {
        BuildMessage {
            level: BuildMessageLevel::Error,
            message: error_message,
            step,
            code,
            locations: Vec::new(),
            schema_coordinate: None,
            other: std::collections::BTreeMap::new(),
        }
    }
}

impl BuildError {
    /// The build error a message makes.
    pub fn from_message(message: BuildMessage) -> (r: BuildError)
        ensures
            r == error_of_message(message),
            r.message == Some(message.message),
            r.code == message.code,
            r.error_type is Composition,
            r.other == message.other,
            r.nodes == Some(message.locations),
            r.omitted_nodes_count is None,
    {
        BuildError {
            message: Some(message.message),
            code: message.code,
            error_type: BuildErrorType::Composition,
            other: message.other,
            nodes: Some(message.locations),
            omitted_nodes_count: None,
        }
    }
}

impl BuildHint {
    /// The hint a message makes.
    pub fn from_message(message: BuildMessage) -> (r: BuildHint)
        ensures
            r == hint_of_message(message),
            r.message == message.message,
            r.code == message.code,
            r.nodes == Some(message.locations),
            r.omitted_nodes_count is None,
            r.other == message.other,
    {
        BuildHint {
            message: message.message,
            code: message.code,
            nodes: Some(message.locations),
            omitted_nodes_count: None,
            other: message.other,
        }
    }
}

/// How a composition installs the plugin for a new federation version: whether to skip the
/// check for a newer plugin. The client and license settings the install needs stay with the
/// caller that performs it.
#[derive(Debug)]
pub struct FederationUpdaterConfig {
    pub skip_update: bool,
}

/// The plugin a composition ran with: where it is and which version it is.
#[derive(Debug)]
pub struct PluginProvenance {
    pub path: String,
    pub version: Version,
}

/// A composed supergraph: its SDL, the hints of the build, and the federation version it was
/// composed at.
#[derive(Debug)]
pub struct CompositionSuccess {
    pub supergraph_sdl: String,
    pub hints: Vec<BuildHint>,
    pub federation_version: FederationVersion,
}

/// Errors that may occur in composing a supergraph. Those from outside the library hold the
/// text of the error; `provenance` is the plugin that was running, where one was.
#[allow(inconsistent_fields)]
#[derive(Debug)]
pub enum CompositionError {
    /// The plugin could not be run.
    Binary { error: String, provenance: PluginProvenance },
    /// The plugin exited with an unexpected code.
    BinaryExit { exit_code: Option<i32>, stdout: String, stderr: String, provenance: PluginProvenance },
    /// What the plugin wrote could not be read.
    InvalidOutput { provenance: PluginProvenance, error: String },
    /// The plugin wrote nothing.
    EmptyOutput { provenance: PluginProvenance },
    /// The input to the plugin is invalid.
    InvalidInput { provenance: PluginProvenance, error: String },
    /// A file could not be read.
    ReadFile { path: String, error: String },
    /// A file could not be written.
    WriteFile { path: String, error: String, provenance: Option<PluginProvenance> },
    /// A file could not be upserted.
    UpsertFile { path: String, error: String },
    /// The subgraphs did not compose.
    Build { source: BuildErrors, federation_version: FederationVersion, provenance: Option<PluginProvenance> },
    /// The temporary directory for the composition input could not be made.
    TempDir { source: String, provenance: Option<PluginProvenance> },
    /// The resolved config could not be serialised.
    SerdeYaml { source: String, provenance: Option<PluginProvenance> },
    /// The supergraph config is invalid.
    InvalidSupergraphConfig(String),
    /// Installing the plugin for a new federation version failed.
    ErrorUpdatingFederationVersion(InstallSupergraphError),
    /// The subgraphs could not be resolved.
    ResolvingSubgraphsError { source: ResolveSupergraphConfigError, provenance: Option<PluginProvenance> },
    /// The plugin could not be installed.
    InstallSupergraphBinaryError { source: InstallSupergraphError },
    /// Federation 1 is no longer supported.
    FederationOneUnsupported(FederationOneUnsupported),
    /// Native composition composes Federation 2 only.
    NativeCompositionRequiresFedTwo { requested: FederationVersion },
    /// The version pinned is newer than native composition supports.
    NativeCompositionSpecTooNew { requested: FederationVersion, max_supported: String },
}

/// The plugin an error names, where it names one.
pub open spec fn provenance_of(e: CompositionError) -> Option<PluginProvenance> {
    match e {
        CompositionError::Binary { provenance, .. } => Some(provenance),
        CompositionError::BinaryExit { provenance, .. } => Some(provenance),
        CompositionError::InvalidOutput { provenance, .. } => Some(provenance),
        CompositionError::EmptyOutput { provenance } => Some(provenance),
        CompositionError::InvalidInput { provenance, .. } => Some(provenance),
        CompositionError::Build { provenance, .. } => provenance,
        CompositionError::TempDir { provenance, .. } => provenance,
        CompositionError::WriteFile { provenance, .. } => provenance,
        CompositionError::SerdeYaml { provenance, .. } => provenance,
        CompositionError::ResolvingSubgraphsError { provenance, .. } => provenance,
        _ => None,
    }
}

impl CompositionError {
    /// The plugin that was running when this error was raised, if one was.
    pub fn provenance(&self) -> (r: Option<&PluginProvenance>)
        ensures
            match r {
                Some(p) => provenance_of(*self) == Some(*p),
                None => provenance_of(*self) is None,
            },
    {
        match self {
            CompositionError::Binary { provenance, .. } => Some(provenance),
            CompositionError::BinaryExit { provenance, .. } => Some(provenance),
            CompositionError::InvalidOutput { provenance, .. } => Some(provenance),
            CompositionError::EmptyOutput { provenance } => Some(provenance),
            CompositionError::InvalidInput { provenance, .. } => Some(provenance),
            CompositionError::Build { provenance, .. } => provenance.as_ref(),
            CompositionError::TempDir { provenance, .. } => provenance.as_ref(),
            CompositionError::WriteFile { provenance, .. } => provenance.as_ref(),
            CompositionError::SerdeYaml { provenance, .. } => provenance.as_ref(),
            CompositionError::ResolvingSubgraphsError { provenance, .. } => provenance.as_ref(),
            CompositionError::ReadFile { .. } => None,
            CompositionError::UpsertFile { .. } => None,
            CompositionError::InvalidSupergraphConfig(_) => None,
            CompositionError::ErrorUpdatingFederationVersion(_) => None,
            CompositionError::InstallSupergraphBinaryError { .. } => None,
            CompositionError::FederationOneUnsupported(_) => None,
            CompositionError::NativeCompositionRequiresFedTwo { .. } => None,
            CompositionError::NativeCompositionSpecTooNew { .. } => None,
        }
    }
}

} // verus!
