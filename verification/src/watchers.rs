//! The decisions of a live session. Each watcher is a state and a step: it is handed what
//! happened and answers with its next state and what is to be done, the doing being left to
//! the caller.
use vstd::prelude::*;

use crate::binary::{InstallSupergraphError, SupergraphBinary};
use crate::composition::{CompositionError, CompositionSuccess, FederationUpdaterConfig};
use crate::config::{SchemaSource, SchemaSourceView, SubgraphConfig, SubgraphConfigView, SupergraphConfigYaml};
use crate::diff::SupergraphConfigDiff;
use crate::events::{
    copy_opt_error, CompositionEvent, CompositionInputEvent, CompositionSubgraphAdded,
    CompositionSubgraphRemoved, SubgraphEvent, SubgraphRoutingUrlChanged, SubgraphSchemaChanged,
    SubgraphSchemaRemoved,
};
use crate::name_map::NameMap;
use crate::resolution::SchemaFetch;
use crate::subgraph::{lazily_resolved_as, FullyResolvedSubgraph, LazilyResolvedSubgraph, ResolveSubgraphError};
use crate::federation::{FederationVersionResolver, FromSupergraphConfig};
use crate::supergraph::{
    fetches_fit, lemma_split_fed_two, lemma_split_same_configs, some_resolves_fed_two, splits_fully,
    FullyResolvedSupergraphConfig, LazilyResolvedSupergraphConfig, ResolveSupergraphConfigError,
    UnresolvedSupergraphConfig,
};
use crate::text::opt_string_view;
use crate::version::FederationVersion;

verus! {

/// What a composition watcher is to do next.
#[derive(Debug)]
pub enum CompositionStep {
    /// Write the supergraph config, report that composition started, and compose.
    Compose,
    /// Install the plugin for this federation version, skipping the check for updates where
    /// `skip_update`, then report back.
    Install { federation_version: FederationVersion, skip_update: bool },
    /// Nothing more.
    Idle,
}

/// A composition watcher's answer to what happened: what to report, then what to do.
#[derive(Debug)]
pub struct CompositionReaction {
    pub emit: Option<CompositionEvent>,
    pub next: CompositionStep,
}

/// Recomposes a supergraph as its subgraphs and federation version change.
#[derive(Debug)]
pub struct CompositionWatcher {
    /// The supergraph config as it stands.
    pub supergraph_config: FullyResolvedSupergraphConfig,
    /// The plugin that composes.
    pub supergraph_binary: SupergraphBinary,
    /// How a change of federation version installs another plugin; none where it may not.
    pub federation_updater_config: Option<FederationUpdaterConfig>,
}

/// What a composition watcher does first: report the errors that kept subgraphs from resolving
/// where there are any; else compose, where it is to compose at once.
#[derive(Debug)]
pub enum InitialAction {
    /// Write the supergraph config, report that composition started, and compose, going on
    /// even where writing the config fails.
    Compose,
    /// Report this.
    Report(CompositionEvent),
    /// Nothing.
    Nothing,
}

/// The subgraph a schema change describes; it is a Federation 2 subgraph when its SDL applies
/// `@link` to its schema.
pub open spec fn changed_subgraph(c: SubgraphSchemaChanged) -> FullyResolvedSubgraph {
    FullyResolvedSubgraph {
        name: c.name,
        schema: c.sdl,
        routing_url: c.routing_url,
        schema_source: c.schema_source,
        is_fed_two: crate::subgraph::declares_link(c.sdl@),
    }
}

/// Whether `after` holds the subgraphs of `before` with the one the change `c` describes stored
/// under its name, in place of any it had.
pub open spec fn stores_change(
    before: NameMap<FullyResolvedSubgraph>,
    after: NameMap<FullyResolvedSubgraph>,
    c: SubgraphSchemaChanged,
) -> bool {
    &&& after.key_set() == before.key_set().insert(c.name@)
    &&& forall|x: Seq<char>| #[trigger] after.spec_get(x) == if x == c.name@ {
        Some(changed_subgraph(c))
    } else {
        before.spec_get(x)
    }
}

/// Whether `after` holds the subgraphs of `before` but the one named `name`.
pub open spec fn drops_subgraph(
    before: NameMap<FullyResolvedSubgraph>,
    after: NameMap<FullyResolvedSubgraph>,
    name: Seq<char>,
) -> bool {
    &&& after.key_set() == before.key_set().remove(name)
    &&& forall|x: Seq<char>| #[trigger] after.spec_get(x) == if x == name {
        None
    } else {
        before.spec_get(x)
    }
}

/// A subgraph that a schema change added to a composition, and that is then removed from it,
/// leaves the composition's subgraphs as they were before it came.
pub proof fn lemma_added_then_removed_restores(
    before: NameMap<FullyResolvedSubgraph>,
    added: NameMap<FullyResolvedSubgraph>,
    removed: NameMap<FullyResolvedSubgraph>,
    c: SubgraphSchemaChanged,
)
    requires
        before.spec_get(c.name@) is None,
        stores_change(before, added, c),
        drops_subgraph(added, removed, c.name@),
    ensures
        removed.key_set() == before.key_set(),
        forall|x: Seq<char>| #[trigger] removed.spec_get(x) == before.spec_get(x),
{
    assert(!before.key_set().contains(c.name@));
    assert(removed.key_set() =~= before.key_set());
}

/// A schema change stored over an earlier one for the same subgraph leaves what the later change
/// alone would have stored.
pub proof fn lemma_later_change_wins(
    before: NameMap<FullyResolvedSubgraph>,
    first: NameMap<FullyResolvedSubgraph>,
    second: NameMap<FullyResolvedSubgraph>,
    c1: SubgraphSchemaChanged,
    c2: SubgraphSchemaChanged,
)
    requires
        c1.name@ == c2.name@,
        stores_change(before, first, c1),
        stores_change(first, second, c2),
    ensures
        stores_change(before, second, c2),
{
    assert(second.key_set() =~= before.key_set().insert(c2.name@));
}

impl CompositionWatcher {
    /// A watcher of `supergraph_config`, composing with `supergraph_binary`.
    pub fn new(
        supergraph_config: FullyResolvedSupergraphConfig,
        supergraph_binary: SupergraphBinary,
        federation_updater_config: Option<FederationUpdaterConfig>,
    ) -> (r: CompositionWatcher)
        ensures
            r.supergraph_config == supergraph_config,
            r.supergraph_binary == supergraph_binary,
            r.federation_updater_config == federation_updater_config,
    {
        CompositionWatcher { supergraph_config, supergraph_binary, federation_updater_config }
    }

    /// What to do first, given the errors of resolving the subgraphs and whether to compose at
    /// once.
    pub fn initial_action(
        initial_resolution_errors: NameMap<ResolveSubgraphError>,
        compose_on_initialisation: bool,
    ) -> (r: InitialAction)
        ensures
            initial_resolution_errors.keys().len() > 0 ==> (r matches InitialAction::Report(
                CompositionEvent::Error(
                    CompositionError::ResolvingSubgraphsError {
                        source: ResolveSupergraphConfigError::ResolveSubgraphs(errors),
                        provenance,
                    },
                ),
            ) && errors == initial_resolution_errors && provenance is None),
            initial_resolution_errors.keys().len() == 0 && compose_on_initialisation ==> r is Compose,
            initial_resolution_errors.keys().len() == 0 && !compose_on_initialisation ==> r is Nothing,
    {
        if !initial_resolution_errors.is_empty() {
            InitialAction::Report(
                CompositionEvent::Error(
                    CompositionError::ResolvingSubgraphsError {
                        source: ResolveSupergraphConfigError::ResolveSubgraphs(initial_resolution_errors),
                        provenance: None,
                    },
                ),
            )
        } else if compose_on_initialisation {
            InitialAction::Compose
        } else {
            InitialAction::Nothing
        }
    }

    /// Acts on what happened. A schema change stores the subgraph, reporting it as added where
    /// it is new, and composes. A routing URL change composes only where the subgraph is there
    /// and its URL changed. A removal takes the subgraph out, reports it, and composes. A change
    /// of federation version installs its plugin where updates are allowed, else composes. A
    /// recomposition composes; an event to pass on is reported, and nothing more.
    pub fn handle(&mut self, event: CompositionInputEvent) -> (r: CompositionReaction)
        requires
            old(self).federation_updater_config is Some ==> (event matches CompositionInputEvent::Federation(v) ==> v@.exact() is Some),
        ensures
            final(self).supergraph_binary == old(self).supergraph_binary,
            final(self).federation_updater_config == old(self).federation_updater_config,
            final(self).supergraph_config.origin_path == old(self).supergraph_config.origin_path,
            final(self).supergraph_config.federation_version == old(self).supergraph_config.federation_version,
            match event {
                CompositionInputEvent::Subgraph(SubgraphEvent::SubgraphSchemaChanged(c)) => {
                    &&& r.next is Compose
                    &&& stores_change(old(self).supergraph_config.subgraphs, final(self).supergraph_config.subgraphs, c)
                    &&& old(self).supergraph_config.subgraphs.spec_get(c.name@) is None ==> (r.emit matches Some(
                        CompositionEvent::SubgraphAdded(a),
                    ) && a.name == c.name && a.schema_source@ == c.schema_source@)
                    &&& old(self).supergraph_config.subgraphs.spec_get(c.name@) is Some ==> r.emit is None
                },
                CompositionInputEvent::Subgraph(SubgraphEvent::RoutingUrlChanged(c)) => {
                    &&& r.emit is None
                    &&& match old(self).supergraph_config.subgraphs.spec_get(c.name@) {
                        Some(s) => if opt_string_view(&c.routing_url) == opt_string_view(&s.routing_url) {
                            r.next is Idle && final(self).supergraph_config.subgraphs == old(self).supergraph_config.subgraphs
                        } else {
                            &&& r.next is Compose
                            &&& final(self).supergraph_config.subgraphs.key_set() == old(self).supergraph_config.subgraphs.key_set()
                            &&& forall|x: Seq<char>| #[trigger] final(self).supergraph_config.subgraphs.spec_get(x) == if x
                                == c.name@ {
                                Some(FullyResolvedSubgraph { routing_url: c.routing_url, ..s })
                            } else {
                                old(self).supergraph_config.subgraphs.spec_get(x)
                            }
                        },
                        None => r.next is Idle && final(self).supergraph_config.subgraphs == old(self).supergraph_config.subgraphs,
                    }
                },
                CompositionInputEvent::Subgraph(SubgraphEvent::SubgraphRemoved(c)) => {
                    &&& r.next is Compose
                    &&& r.emit matches Some(CompositionEvent::SubgraphRemoved(e)) && e.name == c.name
                        && e.resolution_error == c.resolution_error
                    &&& drops_subgraph(old(self).supergraph_config.subgraphs, final(self).supergraph_config.subgraphs, c.name@)
                },
                CompositionInputEvent::Federation(v) => {
                    &&& r.emit is None
                    &&& final(self).supergraph_config.subgraphs == old(self).supergraph_config.subgraphs
                    &&& match old(self).federation_updater_config {
                        Some(u) => r.next == (CompositionStep::Install { federation_version: v, skip_update: u.skip_update }),
                        None => r.next is Compose,
                    }
                },
                CompositionInputEvent::Recompose => {
                    &&& r.emit is None
                    &&& r.next is Compose
                    &&& final(self).supergraph_config.subgraphs == old(self).supergraph_config.subgraphs
                },
                CompositionInputEvent::Passthrough(e) => {
                    &&& r.emit == Some(e)
                    &&& r.next is Idle
                    &&& final(self).supergraph_config.subgraphs == old(self).supergraph_config.subgraphs
                },
            },
    {
        match event {
            CompositionInputEvent::Subgraph(SubgraphEvent::SubgraphSchemaChanged(changed)) => {
                let name = changed.name.clone();
                let added_name = changed.name.clone();
                let schema_source = changed.schema_source.copy();
                let replaced = self.supergraph_config.update_subgraph_schema(name, changed.into_subgraph());
                let emit = match replaced {
                    None => Some(
                        CompositionEvent::SubgraphAdded(CompositionSubgraphAdded { name: added_name, schema_source }),
                    ),
                    Some(_) => None,
                };
                CompositionReaction { emit, next: CompositionStep::Compose }
            },
            CompositionInputEvent::Subgraph(SubgraphEvent::RoutingUrlChanged(changed)) => {
                let SubgraphRoutingUrlChanged { name, routing_url } = changed;
                match self.supergraph_config.update_routing_url(&name, routing_url) {
                    None => CompositionReaction { emit: None, next: CompositionStep::Idle },
                    Some(_) => CompositionReaction { emit: None, next: CompositionStep::Compose },
                }
            },
            CompositionInputEvent::Subgraph(SubgraphEvent::SubgraphRemoved(removed)) => {
                let SubgraphSchemaRemoved { name, resolution_error } = removed;
                self.supergraph_config.remove_subgraph(&name);
                CompositionReaction {
                    emit: Some(
                        CompositionEvent::SubgraphRemoved(CompositionSubgraphRemoved { name, resolution_error }),
                    ),
                    next: CompositionStep::Compose,
                }
            },
            CompositionInputEvent::Federation(federation_version) => {
                match &self.federation_updater_config {
                    Some(updater) => CompositionReaction {
                        emit: None,
                        next: CompositionStep::Install { federation_version, skip_update: updater.skip_update },
                    },
                    None => CompositionReaction { emit: None, next: CompositionStep::Compose },
                }
            },
            CompositionInputEvent::Recompose => CompositionReaction { emit: None, next: CompositionStep::Compose },
            CompositionInputEvent::Passthrough(e) => CompositionReaction { emit: Some(e), next: CompositionStep::Idle },
        }
    }

    /// Acts on the outcome of installing the plugin for a new federation version: composes with
    /// the new plugin, or keeps the one it had and reports the failure.
    pub fn install_finished(&mut self, installed: Result<SupergraphBinary, InstallSupergraphError>) -> (r: CompositionReaction)
        ensures
            final(self).supergraph_config == old(self).supergraph_config,
            final(self).federation_updater_config == old(self).federation_updater_config,
            match installed {
                Ok(b) => final(self).supergraph_binary == b && r.emit is None && r.next is Compose,
                Err(e) => final(self).supergraph_binary == old(self).supergraph_binary && r.emit == Some(
                    CompositionEvent::Error(CompositionError::ErrorUpdatingFederationVersion(e)),
                ) && r.next is Idle,
            },
    {
        match installed {
            Ok(binary) => {
                self.supergraph_binary = binary;
                CompositionReaction { emit: None, next: CompositionStep::Compose }
            },
            Err(e) => CompositionReaction {
                emit: Some(CompositionEvent::Error(CompositionError::ErrorUpdatingFederationVersion(e))),
                next: CompositionStep::Idle,
            },
        }
    }

    /// What to report of a composition's outcome.
    pub fn composition_finished(output: Result<CompositionSuccess, CompositionError>) -> (r: CompositionEvent)
        ensures
            match output {
                Ok(s) => r == CompositionEvent::Success(s),
                Err(e) => r == CompositionEvent::Error(e),
            },
    {
        match output {
            Ok(success) => CompositionEvent::Success(success),
            Err(err) => CompositionEvent::Error(err),
        }
    }
}

/// What is reported of a composition's outcome.
pub open spec fn outcome_event(output: Result<CompositionSuccess, CompositionError>) -> CompositionEvent {
    match output {
        Ok(s) => CompositionEvent::Success(s),
        Err(e) => CompositionEvent::Error(e),
    }
}

/// Composes with the supergraph binary it holds, once for each subgraph event it receives.
#[derive(Debug)]
pub struct RunComposition {
    pub supergraph_binary: SupergraphBinary,
}

impl RunComposition {
    /// What is reported over a run of compositions, one for each subgraph event received, given
    /// the outcome of each in order: that it started, then how it ended.
    pub fn handle(&self, outputs: Vec<Result<CompositionSuccess, CompositionError>>) -> (r: Vec<CompositionEvent>)
        ensures
            r@.len() == 2 * outputs@.len(),
            forall|i: int| 0 <= i < outputs@.len() ==> r@[2 * i] == CompositionEvent::Started && r@[2 * i + 1]
                == outcome_event(#[trigger] outputs@[i]),
    {
        let ghost all = outputs@;
        let mut r: Vec<CompositionEvent> = Vec::new();
        for output in it: outputs.into_iter()
            invariant
                it.seq() == all,
                r@.len() == 2 * it.index(),
                forall|i: int| 0 <= i < it.index() ==> r@[2 * i] == CompositionEvent::Started && r@[2 * i + 1]
                    == outcome_event(#[trigger] all[i]),
        {
            proof {
                assert(output == all[it.index() as int]);
            }
            r.push(CompositionEvent::Started);
            r.push(CompositionWatcher::composition_finished(output));
        }
        r
    }
}

/// The supergraph config could not be read; the text of the error.
#[derive(Debug)]
pub enum SupergraphConfigSerialisationError {
    DeserializingConfigError { source: String },
}

/// Turns what the supergraph config watcher reports into what composition acts on.
#[derive(Debug)]
pub struct FederationWatcher;

impl FederationWatcher {
    /// What a change of the supergraph config asks of composition: a new federation version,
    /// where the diff names one; the error, passed on, where the config could not be read.
    pub fn handle(
        &self,
        received: Result<SupergraphConfigDiff, SupergraphConfigSerialisationError>,
    ) -> (r: Option<CompositionInputEvent>)
        ensures
            match received {
                Ok(diff) => match diff.spec_federation_version() {
                    Some(v) => r == Some(CompositionInputEvent::Federation(v)),
                    None => r is None,
                },
                Err(SupergraphConfigSerialisationError::DeserializingConfigError { source }) => r == Some(
                    CompositionInputEvent::Passthrough(
                        CompositionEvent::Error(CompositionError::InvalidSupergraphConfig(source)),
                    ),
                ),
            },
    {
        match received {
            Ok(diff) => {
                let (_, _, _, federation_version, _) = diff.into_parts();
                match federation_version {
                    Some(v) => Some(CompositionInputEvent::Federation(v)),
                    None => None,
                }
            },
            Err(SupergraphConfigSerialisationError::DeserializingConfigError { source }) => Some(
                CompositionInputEvent::Passthrough(
                    CompositionEvent::Error(CompositionError::InvalidSupergraphConfig(source)),
                ),
            ),
        }
    }
}

/// What the subgraph watchers are to do about a change of the supergraph config.
#[derive(Debug)]
pub enum SubgraphAction {
    /// Start watching a new subgraph.
    Add { name: String, config: SubgraphConfig },
    /// Watch a subgraph anew, its config having changed.
    Update { name: String, config: SubgraphConfig },
    /// Stop watching a subgraph and report it gone.
    Remove { name: String, resolution_error: Option<ResolveSubgraphError> },
    /// Compose again.
    Recompose,
}

/// The action for each entry of a list, in order.
pub open spec fn add_actions(entries: Seq<(String, SubgraphConfig)>) -> Seq<SubgraphAction> {
    entries.map_values(|e: (String, SubgraphConfig)| SubgraphAction::Add { name: e.0, config: e.1 })
}

/// The action for each entry of a list, in order.
pub open spec fn update_actions(entries: Seq<(String, SubgraphConfig)>) -> Seq<SubgraphAction> {
    entries.map_values(|e: (String, SubgraphConfig)| SubgraphAction::Update { name: e.0, config: e.1 })
}

/// The action for each entry of a list, in order.
pub open spec fn remove_actions(entries: Seq<(String, Option<ResolveSubgraphError>)>) -> Seq<SubgraphAction> {
    entries.map_values(
        |e: (String, Option<ResolveSubgraphError>)| SubgraphAction::Remove { name: e.0, resolution_error: e.1 },
    )
}

/// The actions a diff calls for: add each added subgraph, update each changed one, remove each
/// removed one, in that order; then compose again where nothing changed but the config before
/// was broken.
pub open spec fn diff_actions(diff: SupergraphConfigDiff) -> Seq<SubgraphAction> {
    add_actions(diff.spec_added()) + update_actions(diff.spec_changed()) + remove_actions(diff.spec_removed()) + if diff.spec_previously_broken()
        && diff.spec_added().len() == 0 && diff.spec_changed().len() == 0 && diff.spec_removed().len() == 0 {
        seq![SubgraphAction::Recompose]
    } else {
        Seq::<SubgraphAction>::empty()
    }
}

/// The actions a stream of supergraph config changes calls for, in order: those of each diff,
/// and nothing for a config that could not be read.
pub open spec fn stream_actions(items: Seq<Result<SupergraphConfigDiff, SupergraphConfigSerialisationError>>) -> Seq<
    SubgraphAction,
>
    decreases items.len(),
{
    if items.len() == 0 {
        Seq::empty()
    } else {
        stream_actions(items.drop_last()) + match items.last() {
            Ok(d) => diff_actions(d),
            Err(_) => Seq::<SubgraphAction>::empty(),
        }
    }
}

/// What the subgraph watchers do about a stream of supergraph config changes: the actions of each
/// diff, in order; a config that could not be read calls for nothing.
pub fn subgraph_watcher_actions(items: Vec<Result<SupergraphConfigDiff, SupergraphConfigSerialisationError>>) -> (r: Vec<
    SubgraphAction,
>)
    ensures
        r@ == stream_actions(items@),
{
    let ghost all = items@;
    let mut r: Vec<SubgraphAction> = Vec::new();
    for item in it: items.into_iter()
        invariant
            it.seq() == all,
            r@ == stream_actions(all.take(it.index() as int)),
    {
        proof {
            assert(all.take(it.index() + 1).drop_last() =~= all.take(it.index() as int));
            assert(all.take(it.index() + 1).last() == item);
        }
        match item {
            Ok(diff) => {
                let mut actions = subgraph_actions(diff);
                r.append(&mut actions);
            },
            Err(_) => {},
        }
    }
    proof {
        assert(all.take(all.len() as int) =~= all);
    }
    r
}

impl SubgraphAction {
    /// What composition is told of an action: a removed subgraph is reported removed, with the
    /// error that kept it from resolving, and a recomposition is asked for as one; adding or
    /// updating a subgraph starts its watcher, which reports for itself.
    pub fn into_event(self) -> (r: Option<CompositionInputEvent>)
        ensures
            match self {
                SubgraphAction::Remove { name, resolution_error } => r == Some(
                    CompositionInputEvent::Subgraph(
                        SubgraphEvent::SubgraphRemoved(SubgraphSchemaRemoved { name, resolution_error }),
                    ),
                ),
                SubgraphAction::Recompose => r == Some(CompositionInputEvent::Recompose),
                _ => r is None,
            },
    {
        match self {
            SubgraphAction::Remove { name, resolution_error } => Some(
                CompositionInputEvent::Subgraph(
                    SubgraphEvent::SubgraphRemoved(SubgraphSchemaRemoved { name, resolution_error }),
                ),
            ),
            SubgraphAction::Recompose => Some(CompositionInputEvent::Recompose),
            _ => None,
        }
    }
}

/// The subgraphs whose SDL is being watched by a task of their own, each of which can be
/// cancelled by its name.
#[derive(Debug)]
pub struct SubgraphHandles {
    watched: NameMap<()>,
}

impl SubgraphHandles {
    /// The names of the subgraphs being watched.
    pub closed spec fn watching(&self) -> Set<Seq<char>> {
        self.watched.key_set()
    }

    /// Handles for the watchers started for `names`.
    pub fn new(names: Vec<String>) -> (r: SubgraphHandles)
        ensures
            r.watching() == names@.map_values(|n: String| n@).to_set(),
    {
        let ghost all = names@;
        let mut watched: NameMap<()> = NameMap::new();
        proof {
            assert(watched.key_set() =~= Set::<Seq<char>>::empty());
        }
        for name in it: names.into_iter()
            invariant
                it.seq() == all,
                watched.key_set() == all.take(it.index() as int).map_values(|n: String| n@).to_set(),
        {
            proof {
                let before = all.take(it.index() as int).map_values(|n: String| n@);
                let after = all.take(it.index() + 1).map_values(|n: String| n@);
                assert(after =~= before.push(name@));
                assert(after.to_set() =~= before.to_set().insert(name@)) by {
                    assert forall|x: Seq<char>| after.to_set().contains(x) == before.to_set().insert(name@).contains(x) by {
                        if after.to_set().contains(x) {
                            let i = choose|i: int| 0 <= i < after.len() && after[i] == x;
                            if i < before.len() {
                                assert(before[i] == x);
                            }
                        }
                        if before.to_set().contains(x) {
                            let i = choose|i: int| 0 <= i < before.len() && before[i] == x;
                            assert(after[i] == x);
                        }
                        if x == name@ {
                            assert(after[before.len() as int] == x);
                        }
                    }
                }
            }
            watched.insert(name, ());
        }
        proof {
            assert(all.take(all.len() as int) =~= all);
        }
        SubgraphHandles { watched }
    }

    /// Records the watcher started for `subgraph`, whose SDL is now watched as it changes.
    pub fn watch(&mut self, subgraph: String)
        ensures
            final(self).watching() == old(self).watching().insert(subgraph@),
    {
        self.watched.insert(subgraph, ());
    }

    /// Stops watching `subgraph` and reports it removed, with the error that kept it from
    /// resolving, if any. The first part of the result says whether a watcher was running for
    /// it, which is then to be cancelled.
    pub fn remove(&mut self, subgraph: &String, potential_error: Option<ResolveSubgraphError>) -> (r: (
        bool,
        CompositionInputEvent,
    ))
        ensures
            r.0 == old(self).watching().contains(subgraph@),
            final(self).watching() == old(self).watching().remove(subgraph@),
            r.1 matches CompositionInputEvent::Subgraph(SubgraphEvent::SubgraphRemoved(e)) && e.name@ == subgraph@
                && e.resolution_error == potential_error,
    {
        let was_watched = self.watched.remove(subgraph).is_some();
        (
            was_watched,
            CompositionInputEvent::Subgraph(
                SubgraphEvent::SubgraphRemoved(
                    SubgraphSchemaRemoved { name: subgraph.clone(), resolution_error: potential_error },
                ),
            ),
        )
    }
}

/// Whether a subgraph whose SDL comes from `schema` has it fetched once rather than watched: it
/// comes from the graph registry, or is written in the config.
pub open spec fn sdl_fetched_once(schema: SchemaSourceView) -> bool {
    schema is Subgraph || schema is Sdl
}

/// Whether `event` reports the freshly resolved SDL of `subgraph`.
pub open spec fn reports_schema_of(event: CompositionInputEvent, subgraph: FullyResolvedSubgraph) -> bool {
    event matches CompositionInputEvent::Subgraph(SubgraphEvent::SubgraphSchemaChanged(c)) && c.name == subgraph.name
        && c.sdl == subgraph.schema && c.routing_url == subgraph.routing_url && c.schema_source
        == subgraph.schema_source
}

/// The routing URL of an updated subgraph configured with `routing_url` and SDL from `schema`:
/// its own, else the introspection URL where it is introspected, else the one the graph
/// registry gave (`fetched`, `None` where nothing was fetched), else none.
pub open spec fn routing_url_after_update(
    routing_url: Option<Seq<char>>,
    schema: SchemaSourceView,
    fetched: Option<Result<FullyResolvedSubgraph, ResolveSubgraphError>>,
) -> Option<Seq<char>> {
    match routing_url {
        Some(u) => Some(u),
        None => match schema {
            SchemaSourceView::SubgraphIntrospection { subgraph_url, .. } => Some(subgraph_url),
            SchemaSourceView::Subgraph { .. } => match fetched {
                Some(Ok(s)) => opt_string_view(&s.routing_url),
                _ => None,
            },
            _ => None,
        },
    }
}

impl SubgraphHandles {
    /// Starts watching a subgraph added to the config, relative to `root`. `canonicalized` is
    /// what canonicalizing its schema file's path gave, where it has one; `prepared` is the
    /// outcome of preparing what fetches its SDL; `fetched` is the first fetch of its SDL
    /// (`None` where nothing was fetched). A subgraph that does not resolve lazily, or whose
    /// fetching could not be prepared, is refused with that error. Else its SDL, once fetched,
    /// is reported, and a subgraph whose SDL is watched is from then on watched.
    pub fn add(
        &mut self,
        root: &String,
        name: String,
        config: SubgraphConfig,
        canonicalized: Option<Result<String, String>>,
        prepared: Result<(), ResolveSubgraphError>,
        fetched: Option<Result<FullyResolvedSubgraph, ResolveSubgraphError>>,
    ) -> (r: Result<Vec<CompositionInputEvent>, ResolveSubgraphError>)
        requires
            config.schema is File ==> canonicalized is Some,
        ensures
            exists|l: Result<LazilyResolvedSubgraph, ResolveSubgraphError>| {
                &&& lazily_resolved_as(root@, name@, config@, canonicalized, l)
                &&& match l {
                    Err(e) => r == Err::<Vec<CompositionInputEvent>, ResolveSubgraphError>(e)
                        && final(self).watching() == old(self).watching(),
                    Ok(lazy) => match prepared {
                        Err(e) => r == Err::<Vec<CompositionInputEvent>, ResolveSubgraphError>(e)
                            && final(self).watching() == old(self).watching(),
                        Ok(_) => r matches Ok(events) && match fetched {
                            Some(Ok(s)) => {
                                &&& events@.len() == 1
                                &&& reports_schema_of(events@[0], s)
                                &&& final(self).watching() == if sdl_fetched_once(lazy.schema@) {
                                    old(self).watching()
                                } else {
                                    old(self).watching().insert(name@)
                                }
                            },
                            _ => events@.len() == 0 && final(self).watching() == old(self).watching(),
                        },
                    },
                }
            },
    {
        let lazily = crate::subgraph::LazilyResolvedSubgraph::resolve(root, name.clone(), config, canonicalized);
        let ghost l = lazily;
        let lazy = match lazily {
            Err(e) => return Err(e),
            Ok(lazy) => lazy,
        };
        if let Err(e) = prepared {
            return Err(e);
        }
        let mut events: Vec<CompositionInputEvent> = Vec::new();
        if let Some(Ok(s)) = fetched {
            let ghost fs = s;
            let once = match &lazy.schema {
                SchemaSource::Subgraph { .. } => true,
                SchemaSource::Sdl { .. } => true,
                _ => false,
            };
            events.push(subgraph_schema_changed(s));
            if !once {
                self.watched.insert(name, ());
            }
            assert(reports_schema_of(events@[0], fs));
        }
        Ok(events)
    }

    /// Watches anew a subgraph whose config changed, relative to `root`. `canonicalized`,
    /// `prepared` are as for [`SubgraphHandles::add`]; `fetched_once` is the one-off fetch of
    /// the SDL of a subgraph whose SDL is fetched once, and `fetched_routing` the fetch from the
    /// graph registry of the routing URL of a registry subgraph that gives none of its own
    /// (`None` where nothing was fetched). A subgraph that does not resolve lazily, or whose
    /// fetching could not be prepared, is refused with that error and nothing is reported.
    /// Else a subgraph whose SDL is fetched once has it reported where the fetch succeeded, and
    /// last comes the change of its routing URL, to [`routing_url_after_update`].
    pub fn update(
        &self,
        root: &String,
        name: String,
        config: SubgraphConfig,
        canonicalized: Option<Result<String, String>>,
        prepared: Result<(), ResolveSubgraphError>,
        fetched_once: Option<Result<FullyResolvedSubgraph, ResolveSubgraphError>>,
        fetched_routing: Option<Result<FullyResolvedSubgraph, ResolveSubgraphError>>,
    ) -> (r: Result<Vec<CompositionInputEvent>, ResolveSubgraphError>)
        requires
            config.schema is File ==> canonicalized is Some,
        ensures
            exists|l: Result<LazilyResolvedSubgraph, ResolveSubgraphError>| {
                &&& lazily_resolved_as(root@, name@, config@, canonicalized, l)
                &&& match l {
                    Err(e) => r == Err::<Vec<CompositionInputEvent>, ResolveSubgraphError>(e),
                    Ok(lazy) => match prepared {
                        Err(e) => r == Err::<Vec<CompositionInputEvent>, ResolveSubgraphError>(e),
                        Ok(_) => r matches Ok(events) && {
                            &&& match fetched_once {
                                Some(Ok(s)) => if sdl_fetched_once(lazy.schema@) {
                                    events@.len() == 2 && reports_schema_of(events@[0], s)
                                } else {
                                    events@.len() == 1
                                },
                                _ => events@.len() == 1,
                            }
                            &&& events@.last() matches CompositionInputEvent::Subgraph(
                                SubgraphEvent::RoutingUrlChanged(c),
                            ) && c.name@ == name@ && opt_string_view(&c.routing_url) == routing_url_after_update(
                                config@.routing_url,
                                config@.schema,
                                fetched_routing,
                            )
                        },
                    },
                }
            },
    {
        let ghost cfg = config@;
        let schema = config.schema.copy();
        let lazily = crate::subgraph::LazilyResolvedSubgraph::resolve(root, name.clone(), config, canonicalized);
        let ghost l = lazily;
        let lazy = match lazily {
            Err(e) => return Err(e),
            Ok(lazy) => lazy,
        };
        if let Err(e) = prepared {
            return Err(e);
        }
        let mut events: Vec<CompositionInputEvent> = Vec::new();
        let once = match &lazy.schema {
            SchemaSource::Subgraph { .. } => true,
            SchemaSource::Sdl { .. } => true,
            _ => false,
        };
        if once {
            if let Some(Ok(s)) = fetched_once {
                let ghost fs = s;
                events.push(subgraph_schema_changed(s));
                assert(reports_schema_of(events@[0], fs));
            }
        }
        let routing_url = updated_routing_url(lazy.routing_url, &schema, fetched_routing);
        events.push(
            CompositionInputEvent::Subgraph(
                SubgraphEvent::RoutingUrlChanged(SubgraphRoutingUrlChanged { name, routing_url }),
            ),
        );
        Ok(events)
    }
}

/// Removing a subgraph that was not watched before it was watched leaves the handles watching
/// what they watched before.
pub proof fn lemma_watch_then_remove(handles: Set<Seq<char>>, subgraph: Seq<char>)
    requires
        !handles.contains(subgraph),
    ensures
        handles.insert(subgraph).remove(subgraph) == handles,
{
    assert(handles.insert(subgraph).remove(subgraph) =~= handles);
}

/// What the subgraph watchers do about a diff: add each added subgraph, update each changed
/// one, remove each removed one, in that order; and compose again where nothing changed but
/// the config before was broken.
pub fn subgraph_actions(diff: SupergraphConfigDiff) -> (r: Vec<SubgraphAction>)
    ensures
        r@ == diff_actions(diff),
{
    let recompose = diff.previously_broken() && diff.is_empty();
    let (added, changed, removed, _, _) = diff.into_parts();
    let ghost a = added@;
    let ghost c = changed@;
    let ghost d = removed@;
    let mut r: Vec<SubgraphAction> = Vec::new();
    for e in it: added.into_iter()
        invariant
            it.seq() == a,
            r@ == add_actions(a.take(it.index() as int)),
    {
        let (name, config) = e;
        r.push(SubgraphAction::Add { name, config });
        proof {
            assert(r@ =~= add_actions(a.take(it.index() + 1)));
        }
    }
    proof {
        assert(a.take(a.len() as int) =~= a);
    }
    let ghost after_added = r@;
    for e in it: changed.into_iter()
        invariant
            it.seq() == c,
            after_added == add_actions(a),
            r@ == after_added + update_actions(c.take(it.index() as int)),
    {
        let (name, config) = e;
        r.push(SubgraphAction::Update { name, config });
        proof {
            assert(r@ =~= after_added + update_actions(c.take(it.index() + 1)));
        }
    }
    proof {
        assert(c.take(c.len() as int) =~= c);
    }
    let ghost after_changed = r@;
    for e in it: removed.into_iter()
        invariant
            it.seq() == d,
            after_changed == add_actions(a) + update_actions(c),
            r@ == after_changed + remove_actions(d.take(it.index() as int)),
    {
        let (name, resolution_error) = e;
        r.push(SubgraphAction::Remove { name, resolution_error });
        proof {
            assert(r@ =~= after_changed + remove_actions(d.take(it.index() + 1)));
        }
    }
    proof {
        assert(d.take(d.len() as int) =~= d);
    }
    if recompose {
        r.push(SubgraphAction::Recompose);
    }
    proof {
        assert(r@ =~= add_actions(a) + update_actions(c) + remove_actions(d) + if recompose {
            seq![SubgraphAction::Recompose]
        } else {
            Seq::<SubgraphAction>::empty()
        });
    }
    r
}

/// How a subgraph is watched, by where its SDL comes from.
#[derive(Debug)]
pub enum SubgraphWatcherKind {
    /// Watch the schema file at this path.
    File(String),
    /// Poll the subgraph by introspection.
    Introspect,
    /// Fetch the SDL once: it is written in the config, or comes from the graph registry.
    Once,
}

/// How a subgraph whose SDL comes from `schema` is watched.
pub fn subgraph_watcher_kind(schema: &SchemaSource) -> (r: SubgraphWatcherKind)
    ensures
        match schema@ {
            SchemaSourceView::File { file } => r matches SubgraphWatcherKind::File(p) && p@ == file,
            SchemaSourceView::SubgraphIntrospection { .. } => r is Introspect,
            _ => r is Once,
        },
{
    match schema {
        SchemaSource::File { file } => SubgraphWatcherKind::File(file.clone()),
        SchemaSource::SubgraphIntrospection { .. } => SubgraphWatcherKind::Introspect,
        SchemaSource::Subgraph { .. } => SubgraphWatcherKind::Once,
        SchemaSource::Sdl { .. } => SubgraphWatcherKind::Once,
    }
}

/// Watches one subgraph for changes, in the way its schema source calls for.
#[derive(Debug)]
pub struct SubgraphWatcher {
    pub watcher: SubgraphWatcherKind,
}

impl SubgraphWatcher {
    /// The watcher of a lazily resolved subgraph: a schema file is watched, an introspected
    /// subgraph is polled, and any other subgraph is fetched once.
    pub fn new(subgraph: &LazilyResolvedSubgraph) -> (r: SubgraphWatcher)
        ensures
            match subgraph.schema@ {
                SchemaSourceView::File { file } => r.watcher matches SubgraphWatcherKind::File(p) && p@ == file,
                SchemaSourceView::SubgraphIntrospection { .. } => r.watcher is Introspect,
                _ => r.watcher is Once,
            },
    {
        SubgraphWatcher { watcher: subgraph_watcher_kind(&subgraph.schema) }
    }
}

/// Whether the routing URL of an updated subgraph must be fetched from the graph registry: it
/// has none of its own and its SDL comes from there.
pub fn routing_url_needs_fetch(routing_url: &Option<String>, schema: &SchemaSource) -> (b: bool)
    ensures
        b == (routing_url is None && schema@ is Subgraph),
{
    routing_url.is_none() && match schema {
        SchemaSource::Subgraph { .. } => true,
        _ => false,
    }
}

/// The routing URL of an updated subgraph: its own, else the introspection URL where it is
/// introspected, else the one the graph registry gave (`fetched`), else none.
pub fn updated_routing_url(
    routing_url: Option<String>,
    schema: &SchemaSource,
    fetched: Option<Result<FullyResolvedSubgraph, ResolveSubgraphError>>,
) -> (r: Option<String>)
    ensures
        routing_url is Some ==> r == routing_url,
        routing_url is None ==> match schema@ {
            SchemaSourceView::SubgraphIntrospection { subgraph_url, .. } => r matches Some(u) && u@ == subgraph_url,
            SchemaSourceView::Subgraph { .. } => match fetched {
                Some(Ok(s)) => r == s.routing_url,
                _ => r is None,
            },
            _ => r is None,
        },
{
    match routing_url {
        Some(u) => Some(u),
        None => match schema {
            SchemaSource::SubgraphIntrospection { subgraph_url, .. } => Some(subgraph_url.clone()),
            SchemaSource::Subgraph { .. } => match fetched {
                Some(Ok(s)) => s.routing_url,
                _ => None,
            },
            _ => None,
        },
    }
}

/// The event that reports a subgraph's freshly resolved SDL.
pub fn subgraph_schema_changed(subgraph: FullyResolvedSubgraph) -> (r: CompositionInputEvent)
    ensures
        r matches CompositionInputEvent::Subgraph(SubgraphEvent::SubgraphSchemaChanged(c)) && c.name == subgraph.name
            && c.sdl == subgraph.schema && c.routing_url == subgraph.routing_url && c.schema_source
            == subgraph.schema_source,
{
    CompositionInputEvent::Subgraph(SubgraphEvent::SubgraphSchemaChanged(SubgraphSchemaChanged::from_subgraph(subgraph)))
}

/// What lazily resolving a subgraph config makes of it, given what canonicalizing its schema
/// file's path gave: a schema file's path becomes the canonical one, and the subgraph is left
/// out where the path could not be canonicalized; any other config stays as it is.
pub open spec fn lazily_resolved_config(
    config: SubgraphConfigView,
    canonicalized: Option<Result<String, String>>,
) -> Option<SubgraphConfigView> {
    match config.schema {
        SchemaSourceView::File { .. } => match canonicalized {
            Some(Ok(c)) => Some(SubgraphConfigView { routing_url: config.routing_url, schema: SchemaSourceView::File { file: c@ } }),
            _ => None,
        },
        _ => Some(config),
    }
}

/// Where a subgraph was split into the resolved and the refused, it was resolved exactly when
/// [`lazily_resolved_config`] keeps it, and into the config that function gives.
proof fn lemma_lazy_outcome(
    root: Seq<char>,
    name: Seq<char>,
    config: SubgraphConfigView,
    canonicalized: Option<Result<String, String>>,
    subgraph: Option<crate::subgraph::LazilyResolvedSubgraph>,
    error: Option<ResolveSubgraphError>,
)
    requires
        crate::supergraph::split_as(root, name, config, canonicalized, subgraph, error),
    ensures
        (subgraph is Some) == (lazily_resolved_config(config, canonicalized) is Some),
        subgraph matches Some(l) ==> Some(
            SubgraphConfigView { routing_url: opt_string_view(&l.routing_url), schema: l.schema@ },
        ) == lazily_resolved_config(config, canonicalized),
{
}

/// Watches the supergraph config file and reports how it changed.
#[derive(Debug)]
pub struct SupergraphConfigWatcher {
    /// The config as it last read well.
    pub supergraph_config: SupergraphConfigYaml,
    /// Whether the file last failed to read.
    pub broken: bool,
    /// The path of the file.
    pub supergraph_config_path: String,
}

impl SupergraphConfigWatcher {
    /// A watcher of the file at `supergraph_config_path`, which last read as
    /// `supergraph_config`.
    pub fn new(supergraph_config: LazilyResolvedSupergraphConfig, supergraph_config_path: String) -> (r: SupergraphConfigWatcher)
        ensures
            !r.broken,
            r.supergraph_config_path == supergraph_config_path,
            r.supergraph_config.federation_version == supergraph_config.federation_version,
            r.supergraph_config.subgraphs.key_set() == supergraph_config.subgraphs.key_set(),
            forall|k: Seq<char>| #[trigger] r.supergraph_config.subgraphs.spec_get(k) == match supergraph_config.subgraphs.spec_get(k) {
                Some(s) => Some(SubgraphConfig { routing_url: s.routing_url, schema: s.schema }),
                None => None,
            },
    {
        SupergraphConfigWatcher {
            supergraph_config: supergraph_config.into_supergraph_config_yaml(),
            broken: false,
            supergraph_config_path,
        }
    }

    /// What the file first reads as, before any change is watched: a config that could not be
    /// read makes the file broken and is reported; one that reads is taken as it is.
    pub fn initial_read(&mut self, read: Result<SupergraphConfigYaml, String>) -> (r: Option<
        SupergraphConfigSerialisationError,
    >)
        ensures
            final(self).supergraph_config == old(self).supergraph_config,
            final(self).supergraph_config_path == old(self).supergraph_config_path,
            match read {
                Err(m) => final(self).broken && r == Some(
                    SupergraphConfigSerialisationError::DeserializingConfigError { source: m },
                ),
                Ok(_) => final(self).broken == old(self).broken && r is None,
            },
    {
        match read {
            Err(m) => Some(self.parse_failed(m)),
            Ok(_) => None,
        }
    }

    /// What a change of the file calls for, given what it now reads as. A config that could not
    /// be read makes the file broken and is reported. A config that reads is fully resolved
    /// relative to `root`, `fetches` holding what was fetched for each subgraph: where the
    /// federation version does not fit its subgraphs nothing is reported and nothing changes;
    /// else the config, without the subgraphs that did not resolve, is taken in as
    /// [`SupergraphConfigWatcher::apply`] does, and the diff is reported.
    pub fn step(
        &mut self,
        read: Result<SupergraphConfigYaml, String>,
        root: &String,
        fetches: NameMap<SchemaFetch>,
        canonicalized: &NameMap<Result<String, String>>,
    ) -> (r: Option<Result<SupergraphConfigDiff, SupergraphConfigSerialisationError>>)
        requires
            read matches Ok(c) ==> fetches_fit(c.subgraphs, fetches),
            read matches Ok(c) ==> forall|k: Seq<char>| #[trigger] c.subgraphs.spec_get(k) matches Some(x) && x.schema is File
                ==> canonicalized.key_set().contains(k),
        ensures
            stepped(*old(self), read, root@, fetches, *canonicalized, r, *final(self)),
    {
        let config = match read {
            Err(m) => return Some(Err(self.parse_failed(m))),
            Ok(c) => c,
        };
        let ghost c = config;
        let unresolved = self.unresolved_supergraph_config(config);
        let full_input = unresolved.copy();
        let ghost input_configs = full_input.subgraphs;
        let ghost given = fetches;
        proof {
            lemma_split_same_configs(
                root@,
                c.subgraphs,
                input_configs,
                fetches,
                vstd::pervasive::arbitrary(),
                vstd::pervasive::arbitrary(),
            );
        }
        match FullyResolvedSupergraphConfig::resolve(root, full_input, fetches) {
            Err(_) => {
                proof {
                    let (s, e) = choose|s: NameMap<FullyResolvedSubgraph>, e: NameMap<ResolveSubgraphError>| {
                        &&& s.is_sorted()
                        &&& splits_fully(root@, input_configs, given, s, e)
                        &&& crate::federation::resolved_federation_version(
                            crate::config::opt_federation_version_view(&c.federation_version),
                            crate::federation::fed_two_names(s.keys(), s.values()),
                        ) is None
                        &&& true
                    };
                    lemma_split_same_configs(root@, c.subgraphs, input_configs, given, s, e);
                    lemma_split_fed_two(root@, c.subgraphs, given, s, e);
                }
                None
            },
            Ok((full, errors)) => {
                proof {
                    use_type_invariant(&full.subgraphs);
                    lemma_split_same_configs(root@, c.subgraphs, input_configs, given, full.subgraphs, errors);
                    lemma_split_fed_two(root@, c.subgraphs, given, full.subgraphs, errors);
                }
                let ghost s = full.subgraphs;
                let ghost e = errors;
                let diff = self.apply(unresolved, errors, root, canonicalized);
                proof {
                    assert(splits_fully(root@, c.subgraphs, given, s, e));
                }
                Some(Ok(diff))
            },
        }
    }

    /// The file could not be read as a supergraph config: it is broken until it reads again,
    /// and the error is reported.
    pub fn parse_failed(&mut self, message: String) -> (r: SupergraphConfigSerialisationError)
        ensures
            final(self).broken,
            final(self).supergraph_config == old(self).supergraph_config,
            final(self).supergraph_config_path == old(self).supergraph_config_path,
            r == (SupergraphConfigSerialisationError::DeserializingConfigError { source: message }),
    {
        self.broken = true;
        SupergraphConfigSerialisationError::DeserializingConfigError { source: message }
    }

    /// The unresolved config the file now reads as: from this file, its subgraphs, with its
    /// federation version as the one to target.
    pub fn unresolved_supergraph_config(&self, supergraph_config: SupergraphConfigYaml) -> (r: UnresolvedSupergraphConfig)
        ensures
            r.origin_path == Some(self.supergraph_config_path),
            r.subgraphs == supergraph_config.subgraphs,
            r.federation_version_resolver matches Some(f) && f.federation_version == supergraph_config.federation_version,
    {
        let federation_version_resolver = FederationVersionResolver::<FromSupergraphConfig>::default().from_supergraph_config(
            Some(&supergraph_config),
        );
        UnresolvedSupergraphConfig {
            origin_path: Some(self.supergraph_config_path.clone()),
            subgraphs: supergraph_config.subgraphs,
            federation_version_resolver: Some(federation_version_resolver),
        }
    }

    /// Takes in the config the file now reads as, given the errors of fully resolving it: the
    /// subgraphs that failed are left out, the rest are lazily resolved against `root` (see
    /// [`lazily_resolved_config`]), and the diff from the config before is returned. The file is
    /// no longer broken.
    pub fn apply(
        &mut self,
        unresolved: UnresolvedSupergraphConfig,
        errors: NameMap<ResolveSubgraphError>,
        root: &String,
        canonicalized: &NameMap<Result<String, String>>,
    ) -> (r: SupergraphConfigDiff)
        requires
            forall|k: Seq<char>| #[trigger] unresolved.subgraphs.spec_get(k) matches Some(c) && c.schema is File
                ==> canonicalized.key_set().contains(k),
        ensures
            r.describes(old(self).supergraph_config, final(self).supergraph_config, errors, old(self).broken),
            !final(self).broken,
            final(self).supergraph_config_path == old(self).supergraph_config_path,
            final(self).supergraph_config.federation_version == match unresolved.federation_version_resolver {
                Some(f) => f.federation_version,
                None => None,
            },
            forall|k: Seq<char>| #[trigger] final(self).supergraph_config.subgraphs.key_set().contains(k) == (
            unresolved.subgraphs.spec_get(k) matches Some(c) && errors.spec_get(k) is None && lazily_resolved_config(
                c@,
                canonicalized.spec_get(k),
            ) is Some),
            forall|k: Seq<char>| #[trigger] final(self).supergraph_config.subgraphs.key_set().contains(k)
                ==> Some(final(self).supergraph_config.subgraphs.spec_get(k).unwrap()@) == lazily_resolved_config(
                unresolved.subgraphs.spec_get(k).unwrap()@,
                canonicalized.spec_get(k),
            ),
    {
        let ghost given = unresolved;
        let mut filtered = unresolved;
        let failed = errors.key_list();
        filtered.filter_subgraphs(&failed);
        let ghost filtered_g = filtered;
        proof {
            assert forall|k: Seq<char>| #[trigger] filtered.subgraphs.spec_get(k) matches Some(c) && c.schema is File
                implies canonicalized.key_set().contains(k) by {
                assert(given.subgraphs.spec_get(k) == filtered.subgraphs.spec_get(k));
            }
        }
        let (lazily_resolved, lazy_errors) = LazilyResolvedSupergraphConfig::resolve(root, filtered, canonicalized);
        let ghost lr = lazily_resolved;
        let new_config = lazily_resolved.into_supergraph_config_yaml();
        let ghost new_view = new_config;
        proof {
            assert forall|k: Seq<char>| #[trigger] new_view.subgraphs.key_set().contains(k) == (
            given.subgraphs.spec_get(k) matches Some(c) && errors.spec_get(k) is None && lazily_resolved_config(
                c@,
                canonicalized.spec_get(k),
            ) is Some) && (new_view.subgraphs.key_set().contains(k) ==> Some(
                new_view.subgraphs.spec_get(k).unwrap()@,
            ) == lazily_resolved_config(given.subgraphs.spec_get(k).unwrap()@, canonicalized.spec_get(k))) by {
                assert(failed@.map_values(|n: String| n@).contains(k) == errors.keys().contains(k));
                if given.subgraphs.spec_get(k) is Some && errors.spec_get(k) is None {
                    let c = given.subgraphs.spec_get(k).unwrap();
                    assert(filtered_g.subgraphs.spec_get(k) == Some(c));
                    lemma_lazy_outcome(
                        root@,
                        k,
                        c@,
                        canonicalized.spec_get(k),
                        lr.subgraphs.spec_get(k),
                        lazy_errors.spec_get(k),
                    );
                } else {
                    assert(filtered_g.subgraphs.spec_get(k) is None);
                }
            }
        }
        let previously_broken = self.broken;
        let new_copy = new_config.copy();
        let mut old_config = new_config;
        std::mem::swap(&mut old_config, &mut self.supergraph_config);
        self.broken = false;
        let ghost errors_given = errors;
        let diff = SupergraphConfigDiff::compare(old_config, new_copy, errors, previously_broken);
        proof {
            crate::diff::lemma_describes_same_config(
                diff,
                old(self).supergraph_config,
                new_copy,
                new_view,
                errors_given,
                previously_broken,
            );
        }
        diff
    }
}

/// Whether the watcher went from `before` to `after`, reporting `r`, on a change of the file that
/// now reads as `read`, subgraphs being fully resolved relative to `root` once `fetches` was done
/// and schema file paths canonicalized as `canonicalized` holds (see
/// [`SupergraphConfigWatcher::step`]).
pub open spec fn stepped(
    before: SupergraphConfigWatcher,
    read: Result<SupergraphConfigYaml, String>,
    root: Seq<char>,
    fetches: NameMap<SchemaFetch>,
    canonicalized: NameMap<Result<String, String>>,
    r: Option<Result<SupergraphConfigDiff, SupergraphConfigSerialisationError>>,
    after: SupergraphConfigWatcher,
) -> bool {
    &&& after.supergraph_config_path == before.supergraph_config_path
    &&& match read {
        Err(m) => {
            &&& after.broken
            &&& after.supergraph_config == before.supergraph_config
            &&& r == Some(
                Err::<SupergraphConfigDiff, SupergraphConfigSerialisationError>(
                    SupergraphConfigSerialisationError::DeserializingConfigError { source: m },
                ),
            )
        },
        Ok(c) => if c.federation_version matches Some(v) && v@.is_fed_one() && some_resolves_fed_two(
            root,
            c.subgraphs,
            fetches,
        ) {
            r is None && after == before
        } else {
            &&& !after.broken
            &&& after.supergraph_config.federation_version == c.federation_version
            &&& r matches Some(Ok(d)) && exists|s: NameMap<FullyResolvedSubgraph>, errors: NameMap<ResolveSubgraphError>| {
                &&& splits_fully(root, c.subgraphs, fetches, s, errors)
                &&& d.describes(before.supergraph_config, after.supergraph_config, errors, before.broken)
                &&& forall|k: Seq<char>| #[trigger] after.supergraph_config.subgraphs.key_set().contains(k) == (
                c.subgraphs.spec_get(k) matches Some(x) && errors.spec_get(k) is None && lazily_resolved_config(
                    x@,
                    canonicalized.spec_get(k),
                ) is Some)
                &&& forall|k: Seq<char>| #[trigger] after.supergraph_config.subgraphs.key_set().contains(k)
                    ==> Some(after.supergraph_config.subgraphs.spec_get(k).unwrap()@) == lazily_resolved_config(
                    c.subgraphs.spec_get(k).unwrap()@,
                    canonicalized.spec_get(k),
                )
            }
        },
    }
}

/// A change of the supergraph config file: what it now reads as, what was fetched for each of
/// its subgraphs, and what canonicalizing the path of each schema file gave.
#[derive(Debug)]
pub struct ConfigChange {
    pub read: Result<SupergraphConfigYaml, String>,
    pub fetches: NameMap<SchemaFetch>,
    pub canonicalized: NameMap<Result<String, String>>,
}

/// Whether what was done outside for a change is what its config needs: a fetch that fits each
/// subgraph, and a canonicalized path for each schema file.
pub open spec fn change_fits(change: ConfigChange) -> bool {
    change.read matches Ok(c) ==> {
        &&& fetches_fit(c.subgraphs, change.fetches)
        &&& forall|k: Seq<char>| #[trigger] c.subgraphs.spec_get(k) matches Some(x) && x.schema is File
            ==> change.canonicalized.key_set().contains(k)
    }
}

impl SupergraphConfigWatcher {
    /// Watches the file over a stream of changes: first what it read as when watching began
    /// ([`SupergraphConfigWatcher::initial_read`]), then each change in order
    /// ([`SupergraphConfigWatcher::step`]), each against the watcher as the changes before it
    /// left it. Gives what was reported first, and what was reported for each change.
    pub fn run(&mut self, initial: Result<SupergraphConfigYaml, String>, root: &String, changes: Vec<ConfigChange>) -> (r: (
        Option<SupergraphConfigSerialisationError>,
        Vec<Option<Result<SupergraphConfigDiff, SupergraphConfigSerialisationError>>>,
    ))
        requires
            forall|i: int| 0 <= i < changes@.len() ==> change_fits(#[trigger] changes@[i]),
        ensures
            r.1@.len() == changes@.len(),
            exists|states: Seq<SupergraphConfigWatcher>| {
                &&& states.len() == changes@.len() + 1
                &&& states[0].supergraph_config == old(self).supergraph_config
                &&& states[0].supergraph_config_path == old(self).supergraph_config_path
                &&& match initial {
                    Err(m) => states[0].broken && r.0 == Some(
                        SupergraphConfigSerialisationError::DeserializingConfigError { source: m },
                    ),
                    Ok(_) => states[0].broken == old(self).broken && r.0 is None,
                }
                &&& states.last() == *final(self)
                &&& forall|i: int| 0 <= i < changes@.len() ==> stepped(
                    #[trigger] states[i],
                    changes@[i].read,
                    root@,
                    changes@[i].fetches,
                    changes@[i].canonicalized,
                    r.1@[i],
                    states[i + 1],
                )
            },
    {
        let ghost before = *self;
        let ghost init = initial;
        let first = self.initial_read(initial);
        let ghost s0 = *self;
        let ghost all = changes@;
        let ghost mut states: Seq<SupergraphConfigWatcher> = seq![*self];
        let mut reports: Vec<Option<Result<SupergraphConfigDiff, SupergraphConfigSerialisationError>>> = Vec::new();
        for change in it: changes.into_iter()
            invariant
                it.seq() == all,
                forall|i: int| 0 <= i < all.len() ==> change_fits(#[trigger] all[i]),
                states.len() == it.index() + 1,
                states[0] == s0,
                s0.supergraph_config == before.supergraph_config,
                s0.supergraph_config_path == before.supergraph_config_path,
                match init {
                    Err(m) => s0.broken && first == Some(
                        SupergraphConfigSerialisationError::DeserializingConfigError { source: m },
                    ),
                    Ok(_) => s0.broken == before.broken && first is None,
                },
                reports@.len() == it.index(),
                states.last() == *self,
                forall|i: int| 0 <= i < it.index() ==> stepped(
                    #[trigger] states[i],
                    all[i].read,
                    root@,
                    all[i].fetches,
                    all[i].canonicalized,
                    reports@[i],
                    states[i + 1],
                ),
        {
            proof {
                assert(change == all[it.index() as int]);
                assert(change_fits(change));
            }
            let ConfigChange { read, fetches, canonicalized } = change;
            let report = self.step(read, root, fetches, &canonicalized);
            reports.push(report);
            proof {
                states = states.push(*self);
            }
        }
        proof {
            assert(states.len() == all.len() + 1);
            assert(states[0] == s0);
            assert(forall|i: int| 0 <= i < all.len() ==> stepped(
                #[trigger] states[i],
                all[i].read,
                root@,
                all[i].fetches,
                all[i].canonicalized,
                reports@[i],
                states[i + 1],
            ));
        }
        (first, reports)
    }
}

/// Whether every outcome succeeded.
pub open spec fn all_succeeded<W>(outcomes: NameMap<Result<W, ResolveSubgraphError>>) -> bool {
    forall|k: Seq<char>| #[trigger] outcomes.spec_get(k) is Some ==> outcomes.spec_get(k).unwrap() is Ok
}

/// The watchers of a session's subgraphs, given the outcome of making each one: all of them,
/// where every one was made; else the error of each subgraph whose watcher could not be made.
pub fn collect_watchers<W>(outcomes: NameMap<Result<W, ResolveSubgraphError>>) -> (r: Result<
    NameMap<W>,
    NameMap<ResolveSubgraphError>,
>)
    ensures
        all_succeeded(outcomes) ==> (r matches Ok(m) && forall|k: Seq<char>| #[trigger] m.spec_get(k) == match outcomes.spec_get(k) {
            Some(Ok(w)) => Some(w),
            _ => None,
        }),
        !all_succeeded(outcomes) ==> (r matches Err(e) && forall|k: Seq<char>| #[trigger] e.spec_get(k)
            == crate::supergraph::failure_of(outcomes.spec_get(k))),
{
    let (watchers, errors) = crate::supergraph::partition_outcomes(outcomes);
    if errors.is_empty() {
        proof {
            use_type_invariant(&errors);
            assert forall|k: Seq<char>| #[trigger] outcomes.spec_get(k) is Some implies outcomes.spec_get(k).unwrap() is Ok by {
                assert(errors.spec_get(k) is None);
            }
        }
        Ok(watchers)
    } else {
        proof {
            use_type_invariant(&errors);
            let k = errors.keys()[0];
            errors.lemma_get_at(0);
            assert(outcomes.spec_get(k) matches Some(Err(_)));
        }
        Err(errors)
    }
}

} // verus!
