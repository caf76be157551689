//! Native composition: which federation versions it can honour, what it is handed, and how its
//! outcome becomes a composition result.
use vstd::prelude::*;
use vstd::string::*;

use crate::composition::{
    error_of_message, hint_of_message, is_error, BuildError, BuildErrorType, BuildErrors, BuildHint,
    BuildMessage, BuildMessageLevel, CompositionError, CompositionSuccess, PluginFailureReason,
    PluginResult,
};
use crate::supergraph::FullyResolvedSupergraphConfig;
use crate::text::{decimal, decimal_text};
use crate::version::{FederationVersion, FederationVersionView, VersionView};

verus! {

/// The major version of the newest federation spec native composition implements.
pub const MAX_SUPPORTED_FEDERATION_SPEC_MAJOR: u64 = 2;

/// The minor version of the newest federation spec native composition implements.
pub const MAX_SUPPORTED_FEDERATION_SPEC_MINOR: u64 = 15;

/// Composes a supergraph in-process, without the `supergraph` plugin binary.
#[derive(Debug)]
pub struct NativeComposer;

/// Whether an exact Federation 2 version asks for a spec newer than native composition
/// implements: its major and minor, in that order, come after the newest supported.
pub open spec fn spec_too_new(v: VersionView) -> bool {
    v.major > MAX_SUPPORTED_FEDERATION_SPEC_MAJOR || (v.major == MAX_SUPPORTED_FEDERATION_SPEC_MAJOR
        && v.minor > MAX_SUPPORTED_FEDERATION_SPEC_MINOR)
}

/// The newest supported spec, written `major.minor`.
pub open spec fn max_supported_text() -> Seq<char> {
    decimal(MAX_SUPPORTED_FEDERATION_SPEC_MAJOR as nat) + "."@ + decimal(MAX_SUPPORTED_FEDERATION_SPEC_MINOR as nat)
}

impl NativeComposer {
    /// A composer for `federation_version`: the latest Federation 2 version, or an exact one up
    /// to the newest supported spec. A Federation 1 version, or a newer exact one, is refused.
    pub fn new(federation_version: &FederationVersion) -> (r: Result<NativeComposer, CompositionError>)
        ensures
            match federation_version@ {
                FederationVersionView::LatestFedTwo => r is Ok,
                FederationVersionView::ExactFedTwo(v) => if spec_too_new(v) {
                    r matches Err(CompositionError::NativeCompositionSpecTooNew { requested, max_supported })
                        && requested == *federation_version && max_supported@ == max_supported_text()
                } else {
                    r is Ok
                },
                _ => r matches Err(CompositionError::NativeCompositionRequiresFedTwo { requested })
                    && requested == *federation_version,
            },
    {
        match federation_version {
            FederationVersion::LatestFedTwo => Ok(NativeComposer),
            FederationVersion::LatestFedOne | FederationVersion::ExactFedOne(_) => Err(
                CompositionError::NativeCompositionRequiresFedTwo { requested: federation_version.copy() },
            ),
            FederationVersion::ExactFedTwo(requested) => {
                if requested.major > MAX_SUPPORTED_FEDERATION_SPEC_MAJOR || (requested.major
                    == MAX_SUPPORTED_FEDERATION_SPEC_MAJOR && requested.minor > MAX_SUPPORTED_FEDERATION_SPEC_MINOR) {
                    let mut max_supported = decimal_text(MAX_SUPPORTED_FEDERATION_SPEC_MAJOR);
                    max_supported.append(".");
                    max_supported.append(decimal_text(MAX_SUPPORTED_FEDERATION_SPEC_MINOR).as_str());
                    Err(
                        CompositionError::NativeCompositionSpecTooNew {
                            requested: federation_version.copy(),
                            max_supported,
                        },
                    )
                } else {
                    Ok(NativeComposer)
                }
            },
        }
    }
}

/// A subgraph as native composition takes it: its name, routing URL and SDL.
#[derive(Debug)]
pub struct SubgraphDefinition {
    pub name: String,
    pub url: String,
    pub sdl: String,
}

/// Flattens a fully resolved supergraph config into the subgraphs native composition takes, in
/// name order; a subgraph without a routing URL gets an empty one.
pub fn subgraph_definitions(supergraph_config: &FullyResolvedSupergraphConfig) -> (r: Vec<SubgraphDefinition>)
    ensures
        r@.len() == supergraph_config.subgraphs.keys().len(),
        forall|i: int| 0 <= i < r@.len() ==> {
            let s = #[trigger] supergraph_config.subgraphs.values()[i];
            &&& r@[i].name@ == supergraph_config.subgraphs.keys()[i]
            &&& r@[i].url@ == match s.routing_url {
                Some(u) => u@,
                None => Seq::<char>::empty(),
            }
            &&& r@[i].sdl@ == s.schema@
        },
{
    let subgraphs = &supergraph_config.subgraphs;
    let mut r: Vec<SubgraphDefinition> = Vec::new();
    let mut i: usize = 0;
    while i < subgraphs.len()
        invariant
            i <= subgraphs.keys().len(),
            r@.len() == i,
            forall|j: int| 0 <= j < i ==> {
                let s = #[trigger] subgraphs.values()[j];
                &&& r@[j].name@ == subgraphs.keys()[j]
                &&& r@[j].url@ == match s.routing_url {
                    Some(u) => u@,
                    None => Seq::<char>::empty(),
                }
                &&& r@[j].sdl@ == s.schema@
            },
        decreases subgraphs.keys().len() - i,
    {
        let name = subgraphs.key_at(i).clone();
        let subgraph = subgraphs.value_at(i);
        let url = match &subgraph.routing_url {
            Some(u) => u.clone(),
            None => String::new(),
        };
        r.push(SubgraphDefinition { name, url, sdl: subgraph.schema.clone() });
        i = i + 1;
    }
    r
}

/// The build errors the error-level messages of `messages` make, in order.
pub open spec fn failure_errors(messages: Seq<BuildMessage>) -> Seq<BuildError> {
    messages.filter(|m: BuildMessage| is_error(m)).map_values(|m: BuildMessage| error_of_message(m))
}

/// The hints the other messages of `messages` make, in order.
pub open spec fn success_hints(messages: Seq<BuildMessage>) -> Seq<BuildHint> {
    messages.filter(|m: BuildMessage| !is_error(m)).map_values(|m: BuildMessage| hint_of_message(m))
}

/// The error-level messages of `messages`, in order.
pub open spec fn error_messages(messages: Seq<BuildMessage>) -> Seq<BuildMessage> {
    messages.filter(|m: BuildMessage| is_error(m))
}

/// The messages of `messages` below the error level, in order.
pub open spec fn other_messages(messages: Seq<BuildMessage>) -> Seq<BuildMessage> {
    messages.filter(|m: BuildMessage| !is_error(m))
}

/// The build errors of a native build failure are its error-level messages, one for one and in
/// order: each keeps the message's text and code, and points where the message points.
pub proof fn lemma_failure_errors_keep_messages(messages: Seq<BuildMessage>)
    ensures
        failure_errors(messages).len() == error_messages(messages).len(),
        forall|i: int|
            0 <= i < error_messages(messages).len() ==> {
                let e = #[trigger] failure_errors(messages)[i];
                let m = error_messages(messages)[i];
                &&& m.level is Error
                &&& e.message == Some(m.message)
                &&& e.code == m.code
                &&& e.error_type is Composition
                &&& e.nodes == Some(m.locations)
                &&& e.omitted_nodes_count is None
                &&& e.other == m.other
            },
{
    assert forall|i: int| 0 <= i < error_messages(messages).len() implies (#[trigger] error_messages(messages)[i]).level is Error by {
        messages.filter_lemma(|m: BuildMessage| is_error(m));
    }
}

/// The hints of a native build are its messages below the error level, one for one and in
/// order: each keeps the message's text and code, and points where the message points.
pub proof fn lemma_success_hints_keep_messages(messages: Seq<BuildMessage>)
    ensures
        success_hints(messages).len() == other_messages(messages).len(),
        forall|i: int|
            0 <= i < other_messages(messages).len() ==> {
                let h = #[trigger] success_hints(messages)[i];
                let m = other_messages(messages)[i];
                &&& !(m.level is Error)
                &&& h.message == m.message
                &&& h.code == m.code
                &&& h.nodes == Some(m.locations)
                &&& h.omitted_nodes_count is None
                &&& h.other == m.other
            },
{
    assert forall|i: int| 0 <= i < other_messages(messages).len() implies !((#[trigger] other_messages(messages)[i]).level is Error) by {
        messages.filter_lemma(|m: BuildMessage| !is_error(m));
    }
}

/// The text of the error that stands in when a failed composition reports no error.
pub open spec fn no_errors_reported_text() -> Seq<char> {
    "Composition failed, but reported no errors. This is a bug in Rover; please report it at https://github.com/apollographql/rover/issues."@
}

/// Whether `e` is a composition error with the given text, the step and code of native
/// composition, pointing nowhere.
pub open spec fn is_native_failure_error(e: BuildError, text: Seq<char>) -> bool {
    &&& e.message matches Some(m) && m@ == text
    &&& e.code matches Some(c) && c@ == "COMPOSITION_FAILURE"@
    &&& e.error_type is Composition
    &&& e.nodes matches Some(n) && n@.len() == 0
    &&& e.omitted_nodes_count is None
    &&& e.other@ == Map::<String, serde_json::Value>::empty()
}

/// Whether `e` is the build failure `messages` make at `federation_version`: the errors of the
/// error-level messages, or, where there is none, the one error saying so.
pub open spec fn is_build_failure(e: CompositionError, messages: Seq<BuildMessage>, federation_version: FederationVersion) -> bool {
    e matches CompositionError::Build { source, federation_version: v, provenance } && {
        &&& v == federation_version
        &&& provenance is None
        &&& !source.is_config
        &&& failure_errors(messages).len() > 0 ==> source.build_errors@ == failure_errors(messages)
        &&& failure_errors(messages).len() == 0 ==> source.build_errors@.len() == 1
            && is_native_failure_error(source.build_errors@[0], no_errors_reported_text())
    }
}

/// The messages that pass `p`, built up one message at a time.
proof fn lemma_filter_step(s: Seq<BuildMessage>, p: spec_fn(BuildMessage) -> bool, i: int)
    requires
        0 <= i < s.len(),
    ensures
        s.take(i + 1).filter(p) == if p(s[i]) {
            s.take(i).filter(p).push(s[i])
        } else {
            s.take(i).filter(p)
        },
{
    reveal(Seq::filter);
    assert(s.take(i + 1).drop_last() =~= s.take(i));
}

/// Filtering what a filter kept changes nothing.
proof fn lemma_filter_twice(s: Seq<BuildMessage>, p: spec_fn(BuildMessage) -> bool)
    ensures
        s.filter(p).filter(p) == s.filter(p),
    decreases s.len(),
{
    reveal(Seq::filter);
    if s.len() > 0 {
        lemma_filter_twice(s.drop_last(), p);
        if p(s.last()) {
            let t = s.drop_last().filter(p);
            assert(t.push(s.last()).drop_last() =~= t);
        }
    }
}

/// The build failure `messages` make at `federation_version`: a build error for each
/// error-level message, in order, the others left out; where there is none, one error saying
/// that composition failed without reporting why.
pub fn build_failure(messages: Vec<BuildMessage>, federation_version: FederationVersion) -> (r: CompositionError)
    ensures
        is_build_failure(r, messages@, federation_version),
        error_messages(messages@).len() > 0 ==> (r matches CompositionError::Build { source, .. } && source.build_errors@.len()
            == error_messages(messages@).len() && forall|i: int|
            0 <= i < error_messages(messages@).len() ==> {
                let e = #[trigger] source.build_errors@[i];
                let m = error_messages(messages@)[i];
                &&& e.message == Some(m.message)
                &&& e.code == m.code
                &&& e.error_type is Composition
                &&& e.nodes == Some(m.locations)
                &&& e.omitted_nodes_count is None
                &&& e.other == m.other
            }),
{
    proof {
        lemma_failure_errors_keep_messages(messages@);
    }
    let ghost p = |m: BuildMessage| is_error(m);
    let ghost f = |m: BuildMessage| error_of_message(m);
    let ghost all = messages@;
    let mut errors: Vec<BuildError> = Vec::new();
    for m in it: messages.into_iter()
        invariant
            it.seq() == all,
            p == (|m: BuildMessage| is_error(m)),
            f == (|m: BuildMessage| error_of_message(m)),
            errors@ == all.take(it.index() as int).filter(p).map_values(f),
    {
        proof {
            lemma_filter_step(all, p, it.index() as int);
        }
        let ghost before = errors@;
        if let BuildMessageLevel::Error = m.level {
            errors.push(BuildError::from_message(m));
            proof {
                assert(errors@ =~= all.take(it.index() + 1).filter(p).map_values(f));
            }
        } else {
            proof {
                assert(errors@ =~= all.take(it.index() + 1).filter(p).map_values(f));
            }
        }
    }
    proof {
        assert(all.take(all.len() as int) =~= all);
    }
    if errors.len() == 0 {
        let generic = BuildMessage::new_error(
            String::from_str(
                "Composition failed, but reported no errors. This is a bug in Rover; please report it at https://github.com/apollographql/rover/issues.",
            ),
            Some(String::from_str("NATIVE_COMPOSITION")),
            Some(String::from_str("COMPOSITION_FAILURE")),
        );
        errors.push(BuildError::from_message(generic));
    }
    CompositionError::Build {
        source: BuildErrors { build_errors: errors, is_config: false },
        federation_version,
        provenance: None,
    }
}

/// What each reason a plugin fails for is described as.
pub open spec fn failure_reason_text(reason: PluginFailureReason) -> Seq<char> {
    match reason {
        PluginFailureReason::Build => "the subgraphs could not be composed"@,
        PluginFailureReason::Config => "the composition configuration was invalid"@,
        PluginFailureReason::InternalFailure => "composition failed for an internal reason"@,
    }
}

/// Describes why a plugin failed.
pub fn failure_reason_description(reason: &PluginFailureReason) -> (r: &'static str)
    ensures
        r@ == failure_reason_text(*reason),
{
    match reason {
        PluginFailureReason::Build => "the subgraphs could not be composed",
        PluginFailureReason::Config => "the composition configuration was invalid",
        PluginFailureReason::InternalFailure => "composition failed for an internal reason",
    }
}

/// The messages native composition reported: those it failed with, or those of its result.
pub open spec fn reported_messages(result: Result<PluginResult, Vec<BuildMessage>>) -> Seq<BuildMessage> {
    match result {
        Ok(plugin_result) => plugin_result.build_messages@,
        Err(messages) => messages@,
    }
}

/// Turns what native composition gave back into a composition result at `federation_version`.
/// Messages it failed with (`Err`) make a build failure. A result without SDL makes a build
/// failure of its messages, with an error naming the reason where none of them is an error. A
/// result with SDL succeeds with the other messages as hints, unless some message is an error,
/// which makes a build failure.
pub fn into_composition_result(
    result: Result<PluginResult, Vec<BuildMessage>>,
    federation_version: FederationVersion,
) -> (r: Result<CompositionSuccess, CompositionError>)
    ensures
        match result {
            Err(messages) => r matches Err(e) && is_build_failure(e, messages@, federation_version),
            Ok(plugin_result) => match plugin_result.result {
                Err(reason) => r matches Err(e) && if failure_errors(plugin_result.build_messages@).len() > 0 {
                    is_build_failure(e, plugin_result.build_messages@, federation_version)
                } else {
                    e matches CompositionError::Build { source, federation_version: v, provenance } && {
                        &&& v == federation_version
                        &&& provenance is None
                        &&& !source.is_config
                        &&& source.build_errors@.len() == 1
                        &&& is_native_failure_error(
                            source.build_errors@[0],
                            "Composition failed: "@ + failure_reason_text(reason),
                        )
                    }
                },
                Ok(sdl) => if failure_errors(plugin_result.build_messages@).len() > 0 {
                    r matches Err(e) && is_build_failure(e, plugin_result.build_messages@, federation_version)
                } else {
                    r matches Ok(s) && s.supergraph_sdl == sdl && s.federation_version == federation_version
                        && s.hints@ == success_hints(plugin_result.build_messages@)
                },
            },
        },
        r matches Ok(s) ==> (result matches Ok(plugin_result) && s.hints@.len() == other_messages(
            plugin_result.build_messages@,
        ).len() && forall|i: int|
            0 <= i < other_messages(plugin_result.build_messages@).len() ==> {
                let h = #[trigger] s.hints@[i];
                let m = other_messages(plugin_result.build_messages@)[i];
                &&& h.message == m.message
                &&& h.code == m.code
                &&& h.nodes == Some(m.locations)
                &&& h.omitted_nodes_count is None
                &&& h.other == m.other
            }),
        error_messages(reported_messages(result)).len() > 0 ==> (r matches Err(e) && (e matches CompositionError::Build { source, .. } && source.build_errors@.len()
            == error_messages(reported_messages(result)).len() && forall|i: int|
            0 <= i < error_messages(reported_messages(result)).len() ==> {
                let e = #[trigger] source.build_errors@[i];
                let m = error_messages(reported_messages(result))[i];
                &&& e.message == Some(m.message)
                &&& e.code == m.code
                &&& e.error_type is Composition
                &&& e.nodes == Some(m.locations)
                &&& e.omitted_nodes_count is None
                &&& e.other == m.other
            })),
{
    proof {
        lemma_failure_errors_keep_messages(reported_messages(result));
        lemma_success_hints_keep_messages(reported_messages(result));
    }
    let plugin_result = match result {
        Ok(plugin_result) => plugin_result,
        Err(messages) => return Err(build_failure(messages, federation_version)),
    };
    let PluginResult { result, build_messages } = plugin_result;
    let ghost all = build_messages@;
    let ghost p = |m: BuildMessage| is_error(m);
    let ghost q = |m: BuildMessage| !is_error(m);
    let ghost h = |m: BuildMessage| hint_of_message(m);
    let supergraph_sdl = match result {
        Ok(supergraph_sdl) => supergraph_sdl,
        Err(reason) => {
            let mut messages = build_messages;
            let mut any_error = false;
            let mut i: usize = 0;
            while i < messages.len()
                invariant
                    messages@ == all,
                    p == (|m: BuildMessage| is_error(m)),
                    i <= all.len(),
                    any_error == (all.take(i as int).filter(p).len() > 0),
                decreases all.len() - i,
            {
                proof {
                    lemma_filter_step(all, p, i as int);
                }
                if let BuildMessageLevel::Error = messages[i].level {
                    any_error = true;
                }
                i = i + 1;
            }
            proof {
                assert(all.take(all.len() as int) =~= all);
            }
            if !any_error {
                let mut text = String::from_str("Composition failed: ");
                text.append(failure_reason_description(&reason));
                messages.push(
                    BuildMessage::new_error(
                        text,
                        Some(String::from_str("NATIVE_COMPOSITION")),
                        Some(String::from_str("COMPOSITION_FAILURE")),
                    ),
                );
                proof {
                    reveal(Seq::filter);
                    assert(messages@.drop_last() =~= all);
                    assert(failure_errors(messages@) =~= seq![error_of_message(messages@.last())]);
                }
            }
            return Err(build_failure(messages, federation_version));
        },
    };
    let mut errors: Vec<BuildMessage> = Vec::new();
    let mut hints: Vec<BuildHint> = Vec::new();
    for m in it: build_messages.into_iter()
        invariant
            it.seq() == all,
            p == (|m: BuildMessage| is_error(m)),
            q == (|m: BuildMessage| !is_error(m)),
            h == (|m: BuildMessage| hint_of_message(m)),
            errors@ == all.take(it.index() as int).filter(p),
            hints@ == all.take(it.index() as int).filter(q).map_values(h),
    {
        proof {
            lemma_filter_step(all, p, it.index() as int);
            lemma_filter_step(all, q, it.index() as int);
        }
        if let BuildMessageLevel::Error = m.level {
            errors.push(m);
        } else {
            hints.push(BuildHint::from_message(m));
            proof {
                assert(hints@ =~= all.take(it.index() + 1).filter(q).map_values(h));
            }
        }
    }
    proof {
        assert(all.take(all.len() as int) =~= all);
        lemma_filter_twice(all, p);
    }
    if errors.len() > 0 {
        return Err(build_failure(errors, federation_version));
    }
    Ok(CompositionSuccess { supergraph_sdl, hints, federation_version })
}

} // verus!
