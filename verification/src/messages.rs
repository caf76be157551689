//! The text of each error: what it says of itself, and the chain of it and its causes, each
//! joined to the next by `": "`.
use vstd::prelude::*;
use vstd::string::*;

use crate::binary::{version_text, version_text_spec, InstallSupergraphError};
use crate::composition::{BuildErrors, CompositionError};
use crate::federation::FederationVersionMismatch;
use crate::name_map::NameMap;
use crate::subgraph::ResolveSubgraphError;
use crate::supergraph::ResolveSupergraphConfigError;
use crate::text::{decimal, decimal_text};
use crate::version::{FederationVersion, FederationVersionView};

verus! {

/// A federation version as it is written: `0` and `2` for the latest of each, `=` and the
/// version for an exact one.
pub open spec fn federation_version_text_spec(v: FederationVersionView) -> Seq<char> {
    match v {
        FederationVersionView::LatestFedOne => "0"@,
        FederationVersionView::LatestFedTwo => "2"@,
        FederationVersionView::ExactFedOne(x) => "="@ + version_text_spec(x),
        FederationVersionView::ExactFedTwo(x) => "="@ + version_text_spec(x),
    }
}

/// Writes a federation version.
pub fn federation_version_text(v: &FederationVersion) -> (r: String)
    ensures
        r@ == federation_version_text_spec(v@),
{
    match v {
        FederationVersion::LatestFedOne => String::from_str("0"),
        FederationVersion::LatestFedTwo => String::from_str("2"),
        FederationVersion::ExactFedOne(x) => {
            let mut s = String::from_str("=");
            s.append(version_text(x).as_str());
            s
        },
        FederationVersion::ExactFedTwo(x) => {
            let mut s = String::from_str("=");
            s.append(version_text(x).as_str());
            s
        },
    }
}

/// The parts joined with `sep` between each two.
pub open spec fn joined(parts: Seq<Seq<char>>, sep: Seq<char>) -> Seq<char>
    decreases parts.len(),
{
    if parts.len() == 0 {
        Seq::empty()
    } else if parts.len() == 1 {
        parts[0]
    } else {
        joined(parts.drop_last(), sep) + sep + parts.last()
    }
}

/// What a resolution error says of itself.
pub open spec fn resolve_subgraph_error_text(e: ResolveSubgraphError) -> Seq<char> {
    match e {
        ResolveSubgraphError::FileNotFound { subgraph_name, supergraph_config_path, path, .. } => "Could not find schema file ("@
            + path@ + ") relative to ("@ + supergraph_config_path@ + ") for subgraph `"@ + subgraph_name@ + "`"@,
        ResolveSubgraphError::Io { source } => source@,
        ResolveSubgraphError::Fs { source } => source@,
        ResolveSubgraphError::IntrospectionError { subgraph_name, .. } => "Failed to introspect the subgraph \""@
            + subgraph_name@ + "\""@,
        ResolveSubgraphError::InvalidGraphRef { graph_ref, .. } => "Invalid graph ref: "@ + graph_ref@,
        ResolveSubgraphError::FetchRemoteSdlError { subgraph_name, .. } => "Failed to fetch the sdl for subgraph `"@
            + subgraph_name@ + "` from remote."@,
        ResolveSubgraphError::SupergraphConfigMissing => "Failed to find the supergraph config, which is required when resolving schemas in a file relative to a supergraph config"@,
        ResolveSubgraphError::InvalidCliInput { input } => "Invalid input: "@ + input@,
        ResolveSubgraphError::MissingRoutingUrl { subgraph } => "Subgraph `"@ + subgraph@ + "` is missing a routing url"@,
        ResolveSubgraphError::HeaderName { source } => source@,
        ResolveSubgraphError::HeaderValue { source } => source@,
        ResolveSubgraphError::ServiceReady { source } => source@,
        ResolveSubgraphError::ParsingSubgraphUrlError { source } => source@,
        ResolveSubgraphError::ParsingUt8FilePathError { source } => source@,
    }
}

/// What caused a resolution error, where it names a cause of its own.
pub open spec fn resolve_subgraph_error_cause(e: ResolveSubgraphError) -> Option<Seq<char>> {
    match e {
        ResolveSubgraphError::FileNotFound { source, .. } => Some(source@),
        ResolveSubgraphError::IntrospectionError { source, .. } => Some(source@),
        ResolveSubgraphError::InvalidGraphRef { source, .. } => Some(source@),
        ResolveSubgraphError::FetchRemoteSdlError { source, .. } => Some(source@),
        _ => None,
    }
}

/// A text and, where there is one, its cause after `": "`.
pub open spec fn with_cause(text: Seq<char>, cause: Option<Seq<char>>) -> Seq<char> {
    match cause {
        Some(c) => text + ": "@ + c,
        None => text,
    }
}

/// Appends `": "` and the cause, where there is one.
fn append_cause(text: &mut String, cause: Option<String>)
    ensures
        final(text)@ == with_cause(old(text)@, opt_view(cause)),
{
    match cause {
        Some(c) => {
            text.append(": ");
            text.append(c.as_str());
        },
        None => {},
    }
}

/// The characters of an optional string.
pub open spec fn opt_view(s: Option<String>) -> Option<Seq<char>> {
    match s {
        Some(s) => Some(s@),
        None => None,
    }
}

impl ResolveSubgraphError {
    /// What this error says of itself.
    pub fn message(&self) -> (r: String)
        ensures
            r@ == resolve_subgraph_error_text(*self),
    {
        match self {
            ResolveSubgraphError::FileNotFound { subgraph_name, supergraph_config_path, path, .. } => {
                let mut s = String::from_str("Could not find schema file (");
                s.append(path.as_str());
                s.append(") relative to (");
                s.append(supergraph_config_path.as_str());
                s.append(") for subgraph `");
                s.append(subgraph_name.as_str());
                s.append("`");
                s
            },
            ResolveSubgraphError::Io { source } => source.clone(),
            ResolveSubgraphError::Fs { source } => source.clone(),
            ResolveSubgraphError::IntrospectionError { subgraph_name, .. } => {
                let mut s = String::from_str("Failed to introspect the subgraph \"");
                s.append(subgraph_name.as_str());
                s.append("\"");
                s
            },
            ResolveSubgraphError::InvalidGraphRef { graph_ref, .. } => {
                let mut s = String::from_str("Invalid graph ref: ");
                s.append(graph_ref.as_str());
                s
            },
            ResolveSubgraphError::FetchRemoteSdlError { subgraph_name, .. } => {
                let mut s = String::from_str("Failed to fetch the sdl for subgraph `");
                s.append(subgraph_name.as_str());
                s.append("` from remote.");
                s
            },
            ResolveSubgraphError::SupergraphConfigMissing => String::from_str(
                "Failed to find the supergraph config, which is required when resolving schemas in a file relative to a supergraph config",
            ),
            ResolveSubgraphError::InvalidCliInput { input } => {
                let mut s = String::from_str("Invalid input: ");
                s.append(input.as_str());
                s
            },
            ResolveSubgraphError::MissingRoutingUrl { subgraph } => {
                let mut s = String::from_str("Subgraph `");
                s.append(subgraph.as_str());
                s.append("` is missing a routing url");
                s
            },
            ResolveSubgraphError::HeaderName { source } => source.clone(),
            ResolveSubgraphError::HeaderValue { source } => source.clone(),
            ResolveSubgraphError::ServiceReady { source } => source.clone(),
            ResolveSubgraphError::ParsingSubgraphUrlError { source } => source.clone(),
            ResolveSubgraphError::ParsingUt8FilePathError { source } => source.clone(),
        }
    }

    /// What caused this error, where it names a cause of its own.
    pub fn cause(&self) -> (r: Option<String>)
        ensures
            opt_view(r) == resolve_subgraph_error_cause(*self),
    {
        match self {
            ResolveSubgraphError::FileNotFound { source, .. } => Some(source.clone()),
            ResolveSubgraphError::IntrospectionError { source, .. } => Some(source.clone()),
            ResolveSubgraphError::InvalidGraphRef { source, .. } => Some(source.clone()),
            ResolveSubgraphError::FetchRemoteSdlError { source, .. } => Some(source.clone()),
            _ => None,
        }
    }

    /// This error and its cause, joined by `": "`.
    pub fn error_chain(&self) -> (r: String)
        ensures
            r@ == with_cause(resolve_subgraph_error_text(*self), resolve_subgraph_error_cause(*self)),
    {
        let mut s = self.message();
        append_cause(&mut s, self.cause());
        s
    }
}

/// What an installation error says of itself.
pub open spec fn install_error_text(e: InstallSupergraphError) -> Seq<char> {
    match e {
        InstallSupergraphError::LicenseNotAccepted => "ELV2 license must be accepted"@,
        InstallSupergraphError::MissingDependency { err } => "unable to find dependency: \""@ + err@ + "\""@,
        InstallSupergraphError::Plugin { .. } => "Couldn't obtain the `supergraph` plugin"@,
    }
}

/// An installation error and its cause, joined by `": "`.
pub open spec fn install_error_chain(e: InstallSupergraphError) -> Seq<char> {
    match e {
        InstallSupergraphError::Plugin { failure } => install_error_text(e) + ": "@ + failure@,
        _ => install_error_text(e),
    }
}

impl InstallSupergraphError {
    /// What this error says of itself.
    pub fn message(&self) -> (r: String)
        ensures
            r@ == install_error_text(*self),
    {
        match self {
            InstallSupergraphError::LicenseNotAccepted => String::from_str("ELV2 license must be accepted"),
            InstallSupergraphError::MissingDependency { err } => {
                let mut s = String::from_str("unable to find dependency: \"");
                s.append(err.as_str());
                s.append("\"");
                s
            },
            InstallSupergraphError::Plugin { .. } => String::from_str("Couldn't obtain the `supergraph` plugin"),
        }
    }

    /// This error and its cause, joined by `": "`.
    pub fn error_chain(&self) -> (r: String)
        ensures
            r@ == install_error_chain(*self),
    {
        let mut s = self.message();
        if let InstallSupergraphError::Plugin { failure } = self {
            s.append(": ");
            s.append(failure.as_str());
        }
        s
    }
}

/// What a federation version mismatch says of itself.
pub open spec fn mismatch_text(m: FederationVersionMismatch) -> Seq<char> {
    "The 'federation_version' specified ("@ + federation_version_text_spec(m.specified_federation_version@)
        + ") is invalid. The following subgraphs contain '@link' directives, which are only valid in Federation 2: "@
        + joined(m.subgraph_names@.map_values(|n: String| n@), ", "@)
}

/// Joins the names with `sep`.
fn join_names(names: &Vec<String>, sep: &str) -> (r: String)
    ensures
        r@ == joined(names@.map_values(|n: String| n@), sep@),
{
    let ghost parts = names@.map_values(|n: String| n@);
    let mut s = String::new();
    let mut i: usize = 0;
    while i < names.len()
        invariant
            i <= names@.len(),
            parts == names@.map_values(|n: String| n@),
            s@ == joined(parts.take(i as int), sep@),
        decreases names@.len() - i,
    {
        proof {
            assert(parts.take(i + 1).drop_last() =~= parts.take(i as int));
        }
        if i > 0 {
            s.append(sep);
        }
        s.append(names[i].as_str());
        proof {
            if i == 0 {
                assert(parts.take(0) =~= Seq::<Seq<char>>::empty());
                assert(s@ =~= parts.take(1)[0]);
            }
        }
        i = i + 1;
    }
    proof {
        assert(parts.take(names@.len() as int) =~= parts);
    }
    s
}

impl FederationVersionMismatch {
    /// What this error says of itself.
    pub fn message(&self) -> (r: String)
        ensures
            r@ == mismatch_text(*self),
    {
        let mut s = String::from_str("The 'federation_version' specified (");
        s.append(federation_version_text(&self.specified_federation_version).as_str());
        s.append(
            ") is invalid. The following subgraphs contain '@link' directives, which are only valid in Federation 2: ",
        );
        s.append(join_names(&self.subgraph_names, ", ").as_str());
        s
    }
}

/// The line of each resolution error: the subgraph's name, `": "`, and what the error says.
pub open spec fn error_lines(m: NameMap<ResolveSubgraphError>) -> Seq<Seq<char>> {
    Seq::new(m.keys().len(), |i: int| m.keys()[i] + ": "@ + resolve_subgraph_error_text(m.values()[i]))
}

/// What a supergraph config resolution error says of itself.
pub open spec fn resolve_supergraph_error_text(e: ResolveSupergraphConfigError) -> Seq<char> {
    match e {
        ResolveSupergraphConfigError::NoSource => "No source found for supergraph config"@,
        ResolveSupergraphConfigError::MissingSupergraphConfigRoot => "Unable to resolve supergraph config. Supergraph config root is missing"@,
        ResolveSupergraphConfigError::ResolveSubgraphs(m) => "Unable to resolve subgraphs.\n"@ + joined(error_lines(m), "\n"@),
        ResolveSupergraphConfigError::FederationVersionMismatch(m) => mismatch_text(m),
        ResolveSupergraphConfigError::MissingFederationVersionResolver => "Unable to resolve federation version"@,
    }
}

impl ResolveSupergraphConfigError {
    /// What this error says of itself.
    pub fn message(&self) -> (r: String)
        ensures
            r@ == resolve_supergraph_error_text(*self),
    {
        match self {
            ResolveSupergraphConfigError::NoSource => String::from_str("No source found for supergraph config"),
            ResolveSupergraphConfigError::MissingSupergraphConfigRoot => String::from_str(
                "Unable to resolve supergraph config. Supergraph config root is missing",
            ),
            ResolveSupergraphConfigError::ResolveSubgraphs(m) => {
                let ghost lines = error_lines(*m);
                let mut s = String::from_str("Unable to resolve subgraphs.\n");
                let ghost start = s@;
                let mut body = String::new();
                let mut i: usize = 0;
                while i < m.len()
                    invariant
                        i <= m.keys().len(),
                        lines == error_lines(*m),
                        body@ == joined(lines.take(i as int), "\n"@),
                    decreases m.keys().len() - i,
                {
                    proof {
                        assert(lines.take(i + 1).drop_last() =~= lines.take(i as int));
                    }
                    if i > 0 {
                        body.append("\n");
                    }
                    body.append(m.key_at(i).as_str());
                    body.append(": ");
                    body.append(m.value_at(i).message().as_str());
                    proof {
                        if i == 0 {
                            assert(lines.take(0) =~= Seq::<Seq<char>>::empty());
                            assert(body@ =~= lines.take(1)[0]);
                        }
                    }
                    i = i + 1;
                }
                proof {
                    assert(lines.take(m.keys().len() as int) =~= lines);
                }
                s.append(body.as_str());
                s
            },
            ResolveSupergraphConfigError::FederationVersionMismatch(m) => m.message(),
            ResolveSupergraphConfigError::MissingFederationVersionResolver => String::from_str(
                "Unable to resolve federation version",
            ),
        }
    }
}

/// How many build errors there are, as a phrase: one error, or the number of them.
pub open spec fn length_text(n: nat) -> Seq<char> {
    if n == 1 {
        "1 build error"@
    } else {
        decimal(n) + " build errors"@
    }
}

impl BuildErrors {
    /// How many build errors there are, as a phrase.
    pub fn length_string(&self) -> (r: String)
        requires
            self.build_errors@.len() > 0,
        ensures
            r@ == length_text(self.build_errors@.len()),
    {
        let n = self.build_errors.len();
        if n == 1 {
            String::from_str("1 build error")
        } else {
            let mut s = decimal_text(n as u64);
            s.append(" build errors");
            s
        }
    }
}

/// What a composition error says of itself.
pub open spec fn composition_error_text(e: CompositionError) -> Seq<char> {
    match e {
        CompositionError::Binary { .. } => "Failed to run the composition binary"@,
        CompositionError::BinaryExit { stdout, stderr, .. } => "The composition binary exited with errors.\nStdout: "@
            + stdout@ + "\nStderr: "@ + stderr@,
        CompositionError::InvalidOutput { provenance, error } => "Failed to parse output of `"@ + provenance.path@
            + " compose`\n"@ + error@,
        CompositionError::EmptyOutput { provenance } => "The composition binary `"@ + provenance.path@
            + " compose` produced no output. This usually means it exited abnormally without composing. Try re-running with `--log debug` for more detail."@,
        CompositionError::InvalidInput { provenance, error } => "Invalid input for `"@ + provenance.path@ + " compose`\n"@
            + error@,
        CompositionError::ReadFile { path, error } => "Failed to read the file at: "@ + path@ + ".\n"@ + error@,
        CompositionError::WriteFile { path, error, .. } => "Failed to write to the file at: "@ + path@ + ".\n"@ + error@,
        CompositionError::UpsertFile { path, error } => "Failed to upsert the file at: "@ + path@ + ".\n"@ + error@,
        CompositionError::Build { source, .. } => "Encountered "@ + length_text(source.build_errors@.len())
            + " while trying to build a supergraph."@,
        CompositionError::TempDir { .. } => "Failed to create a temporary directory for the composition input."@,
        CompositionError::SerdeYaml { .. } => "Serialization error"@,
        CompositionError::InvalidSupergraphConfig(message) => message@,
        CompositionError::ErrorUpdatingFederationVersion(_) => "Error when updating Federation Version"@,
        CompositionError::ResolvingSubgraphsError { .. } => "Error resolving subgraphs"@,
        CompositionError::InstallSupergraphBinaryError { .. } => "Could not install supergraph binary"@,
        _ => Seq::empty(),
    }
}

/// Whether the text of a composition error is given here: the errors that refuse a federation
/// version have theirs where that refusal is made.
pub open spec fn has_text(e: CompositionError) -> bool {
    !(e is FederationOneUnsupported || e is NativeCompositionRequiresFedTwo || e is NativeCompositionSpecTooNew)
}

/// A composition error and its causes, each joined to the next by `": "`.
pub open spec fn composition_error_chain(e: CompositionError) -> Seq<char> {
    match e {
        CompositionError::TempDir { source, .. } => composition_error_text(e) + ": "@ + source@,
        CompositionError::SerdeYaml { source, .. } => composition_error_text(e) + ": "@ + source@,
        CompositionError::ErrorUpdatingFederationVersion(i) => composition_error_text(e) + ": "@ + install_error_chain(i),
        CompositionError::ResolvingSubgraphsError { source, .. } => composition_error_text(e) + ": "@
            + resolve_supergraph_error_text(source),
        CompositionError::InstallSupergraphBinaryError { source } => composition_error_text(e) + ": "@
            + install_error_chain(source),
        _ => composition_error_text(e),
    }
}

impl CompositionError {
    /// What this error says of itself.
    pub fn message(&self) -> (r: String)
        requires
            has_text(*self),
            *self matches CompositionError::Build { source, .. } ==> source.build_errors@.len() > 0,
        ensures
            r@ == composition_error_text(*self),
    {
        match self {
            CompositionError::Binary { .. } => String::from_str("Failed to run the composition binary"),
            CompositionError::BinaryExit { stdout, stderr, .. } => {
                let mut s = String::from_str("The composition binary exited with errors.\nStdout: ");
                s.append(stdout.as_str());
                s.append("\nStderr: ");
                s.append(stderr.as_str());
                s
            },
            CompositionError::InvalidOutput { provenance, error } => {
                let mut s = String::from_str("Failed to parse output of `");
                s.append(provenance.path.as_str());
                s.append(" compose`\n");
                s.append(error.as_str());
                s
            },
            CompositionError::EmptyOutput { provenance } => {
                let mut s = String::from_str("The composition binary `");
                s.append(provenance.path.as_str());
                s.append(
                    " compose` produced no output. This usually means it exited abnormally without composing. Try re-running with `--log debug` for more detail.",
                );
                s
            },
            CompositionError::InvalidInput { provenance, error } => {
                let mut s = String::from_str("Invalid input for `");
                s.append(provenance.path.as_str());
                s.append(" compose`\n");
                s.append(error.as_str());
                s
            },
            CompositionError::ReadFile { path, error } => {
                let mut s = String::from_str("Failed to read the file at: ");
                s.append(path.as_str());
                s.append(".\n");
                s.append(error.as_str());
                s
            },
            CompositionError::WriteFile { path, error, .. } => {
                let mut s = String::from_str("Failed to write to the file at: ");
                s.append(path.as_str());
                s.append(".\n");
                s.append(error.as_str());
                s
            },
            CompositionError::UpsertFile { path, error } => {
                let mut s = String::from_str("Failed to upsert the file at: ");
                s.append(path.as_str());
                s.append(".\n");
                s.append(error.as_str());
                s
            },
            CompositionError::Build { source, .. } => {
                let mut s = String::from_str("Encountered ");
                s.append(source.length_string().as_str());
                s.append(" while trying to build a supergraph.");
                s
            },
            CompositionError::TempDir { .. } => String::from_str(
                "Failed to create a temporary directory for the composition input.",
            ),
            CompositionError::SerdeYaml { .. } => String::from_str("Serialization error"),
            CompositionError::InvalidSupergraphConfig(message) => message.clone(),
            CompositionError::ErrorUpdatingFederationVersion(_) => String::from_str("Error when updating Federation Version"),
            CompositionError::ResolvingSubgraphsError { .. } => String::from_str("Error resolving subgraphs"),
            CompositionError::InstallSupergraphBinaryError { .. } => String::from_str("Could not install supergraph binary"),
            _ => String::new(),
        }
    }

    /// This error and its causes, each joined to the next by `": "`.
    pub fn error_chain(&self) -> (r: String)
        requires
            has_text(*self),
            *self matches CompositionError::Build { source, .. } ==> source.build_errors@.len() > 0,
        ensures
            r@ == composition_error_chain(*self),
    {
        let mut s = self.message();
        match self {
            CompositionError::TempDir { source, .. } => {
                s.append(": ");
                s.append(source.as_str());
            },
            CompositionError::SerdeYaml { source, .. } => {
                s.append(": ");
                s.append(source.as_str());
            },
            CompositionError::ErrorUpdatingFederationVersion(i) => {
                s.append(": ");
                s.append(i.error_chain().as_str());
            },
            CompositionError::ResolvingSubgraphsError { source, .. } => {
                s.append(": ");
                s.append(source.message().as_str());
            },
            CompositionError::InstallSupergraphBinaryError { source } => {
                s.append(": ");
                s.append(source.error_chain().as_str());
            },
            _ => {},
        }
        s
    }
}

} // verus!
