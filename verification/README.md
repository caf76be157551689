# rover_composition

The composition core of a GraphQL supergraph CLI, verified with Verus: supergraph and
subgraph configuration, the resolution of each subgraph's schema source down to SDL, the
choice of federation version, the diff between two versions of a supergraph config, the
reading of what the `supergraph` plugin writes, native-composition results, and the
decisions that drive live recomposition.

## Layout

- `src/` — the verified library. Each module states its behaviour in `requires`/`ensures`
  over spec functions and views; the laws that relate several functions are public proof
  functions (for example `diff::lemma_apply_diff_gives_new`,
  `subgraphs::lemma_config_round_trip`, `watchers::lemma_added_then_removed_restores`).
  Calls into `semver`, `camino`, `apollo-parser`, `serde_json` and `std::str::from_utf8` go
  through small trusted wrappers whose doc comments say what is assumed of them.
- `app/` — the input and output around the library: reading and writing supergraph YAML,
  running the plugin process, composing in process with `apollo-composition`, prompting the
  user, the loops that perform what the composition, supergraph config and subgraph
  watchers decide, and the pipeline's one-off composition. The references to environment
  variables in a supergraph config are expanded, each string of the YAML by the verified
  `expansion::expand_text`, before the config is parsed.
- `tests/` — tests of the library on concrete values.
