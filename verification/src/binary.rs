//! The `supergraph` plugin binary: its installation, the arguments each command hands it, and
//! the reading of what it gives back.
use vstd::prelude::*;
use vstd::string::*;
use vstd::utf8::{decode_utf8, valid_utf8};

use crate::composition::{BuildErrors, BuildHint, CompositionError, CompositionSuccess, PluginProvenance};
use crate::version::{FederationVersion, SupergraphVersion, Version, VersionView};

verus! {

/// Errors that may occur when installing the `supergraph` plugin.
#[derive(Debug)]
pub enum InstallSupergraphError {
    /// The ELv2 license was not accepted.
    LicenseNotAccepted,
    /// A dependency could not be found; the text of the error.
    MissingDependency { err: String },
    /// The plugin could not be obtained; the text of the failure.
    Plugin { failure: String },
}

impl InstallSupergraphError {
    /// A copy of this error.
    pub fn copy(&self) -> (r: InstallSupergraphError)
        ensures
            r == *self,
    {
        match self {
            InstallSupergraphError::LicenseNotAccepted => InstallSupergraphError::LicenseNotAccepted,
            InstallSupergraphError::MissingDependency { err } => InstallSupergraphError::MissingDependency {
                err: err.clone(),
            },
            InstallSupergraphError::Plugin { failure } => InstallSupergraphError::Plugin { failure: failure.clone() },
        }
    }
}

/// What a finished process left: its exit code, if it exited with one, and what it wrote.
#[derive(Debug)]
pub struct ExecOutput {
    pub exit_code: Option<i32>,
    pub stdout: Vec<u8>,
    pub stderr: Vec<u8>,
}

/// The output of a successful composition by the plugin.
#[derive(Debug)]
pub struct BuildOutput {
    pub supergraph_sdl: String,
    pub hints: Vec<BuildHint>,
}

/// Errors that may occur in running a command of the plugin.
#[derive(Debug)]
pub enum BinaryError {
    /// The plugin could not be run.
    Run { binary: String, error: String },
    /// The plugin exited with an unexpected code.
    Exit { binary: String, exit_code: Option<i32>, stdout: String, stderr: String },
    /// What the plugin wrote could not be read.
    InvalidOutput { binary: String, error: String },
    /// The command needs a newer plugin.
    UnsupportedVersion { minimum: Version, current: SupergraphVersion },
}

/// The text `std::str::from_utf8` reports, written with `Debug`, for bytes that are not UTF-8.
pub uninterp spec fn utf8_error_text(bytes: Seq<u8>) -> Seq<char>;

/// Calls `std::str::from_utf8`, whose documentation says it gives the text the bytes encode
/// when they are UTF-8 and an error when they are not. The error's text is named, not stated.
#[verifier::external_body]
fn utf8_text(bytes: &Vec<u8>) -> (r: Result<String, String>)
    ensures
        match r {
            Ok(s) => valid_utf8(bytes@) && s@ == decode_utf8(bytes@),
            Err(e) => !valid_utf8(bytes@) && e@ == utf8_error_text(bytes@),
        },
{
    match std::str::from_utf8(bytes) {
        Ok(s) => Ok(s.to_string()),
        Err(err) => Err(format!("{err:?}")),
    }
}

/// Installs the `supergraph` plugin for a federation version.
#[derive(Debug)]
pub struct InstallSupergraph {
    pub federation_version: FederationVersion,
}

impl InstallSupergraph {
    /// An installer for `federation_version`.
    pub fn new(federation_version: FederationVersion) -> (r: InstallSupergraph)
        ensures
            r.federation_version == federation_version,
    {
        InstallSupergraph { federation_version }
    }

    /// Whether the ELv2 license must be accepted first: it must for Federation 2.
    pub fn requires_elv2_license(&self) -> (b: bool)
        ensures
            b == self.federation_version@.is_fed_two(),
    {
        self.federation_version.is_fed_two()
    }

    /// The installed plugin, given whether the license was accepted (asked only where
    /// [`InstallSupergraph::requires_elv2_license`] says it must be) and the outcome of obtaining
    /// the plugin.
    pub fn install(
        &self,
        license: Result<(), String>,
        plugin: Result<PluginProvenance, InstallSupergraphError>,
    ) -> (r: Result<SupergraphBinary, InstallSupergraphError>)
        ensures
            self.federation_version@.is_fed_two() && license is Err ==> r matches Err(
                InstallSupergraphError::LicenseNotAccepted,
            ),
            !(self.federation_version@.is_fed_two() && license is Err) ==> match plugin {
                Ok(p) => r matches Ok(b) && b.exe@ == p.path@ && b.version.version == p.version && b.provenance == p,
                Err(e) => r == Err::<SupergraphBinary, InstallSupergraphError>(e),
            },
    {
        if self.federation_version.is_fed_two() && license.is_err() {
            return Err(InstallSupergraphError::LicenseNotAccepted);
        }
        match plugin {
            Ok(provenance) => Ok(SupergraphBinary::new(provenance)),
            Err(e) => Err(e),
        }
    }
}

/// The installed `supergraph` plugin binary.
#[derive(Debug)]
pub struct SupergraphBinary {
    pub exe: String,
    pub version: SupergraphVersion,
    pub provenance: PluginProvenance,
}

/// The text of a version as semantic versioning writes it: the three numbers, then `-` and
/// the pre-release identifiers, then `+` and the build metadata, each only where there is one.
pub open spec fn version_text_spec(v: VersionView) -> Seq<char> {
    crate::text::decimal(v.major as nat) + "."@ + crate::text::decimal(v.minor as nat) + "."@
        + crate::text::decimal(v.patch as nat) + (if v.pre.len() > 0 {
        "-"@ + v.pre
    } else {
        Seq::<char>::empty()
    }) + (if v.build.len() > 0 {
        "+"@ + v.build
    } else {
        Seq::<char>::empty()
    })
}

/// Writes a version as semantic versioning does.
pub fn version_text(v: &Version) -> (r: String)
    ensures
        r@ == version_text_spec(v@),
{
    let mut s = crate::text::decimal_text(v.major);
    s.append(".");
    s.append(crate::text::decimal_text(v.minor).as_str());
    s.append(".");
    s.append(crate::text::decimal_text(v.patch).as_str());
    if !v.pre.as_str().is_empty() {
        s.append("-");
        s.append(v.pre.as_str());
    }
    if !v.build.as_str().is_empty() {
        s.append("+");
        s.append(v.build.as_str());
    }
    proof {
        reveal_strlit(".");
        reveal_strlit("-");
        reveal_strlit("+");
        assert(s@ =~= version_text_spec(v@));
    }
    s
}

/// The `Debug` text of a semantic version: its three numbers by name, then its pre-release
/// identifiers and its build metadata, each only where there is one.
pub open spec fn version_debug_text_spec(v: VersionView) -> Seq<char> {
    "Version { major: "@ + crate::text::decimal(v.major as nat) + ", minor: "@ + crate::text::decimal(v.minor as nat)
        + ", patch: "@ + crate::text::decimal(v.patch as nat) + (if v.pre.len() > 0 {
        ", pre: Prerelease(\""@ + v.pre + "\")"@
    } else {
        Seq::<char>::empty()
    }) + (if v.build.len() > 0 {
        ", build: BuildMetadata(\""@ + v.build + "\")"@
    } else {
        Seq::<char>::empty()
    }) + " }"@
}

/// Writes the `Debug` text of a semantic version.
pub fn version_debug_text(v: &Version) -> (r: String)
    ensures
        r@ == version_debug_text_spec(v@),
{
    let mut s = String::from_str("Version { major: ");
    s.append(crate::text::decimal_text(v.major).as_str());
    s.append(", minor: ");
    s.append(crate::text::decimal_text(v.minor).as_str());
    s.append(", patch: ");
    s.append(crate::text::decimal_text(v.patch).as_str());
    if !v.pre.as_str().is_empty() {
        s.append(", pre: Prerelease(\"");
        s.append(v.pre.as_str());
        s.append("\")");
    }
    if !v.build.as_str().is_empty() {
        s.append(", build: BuildMetadata(\"");
        s.append(v.build.as_str());
        s.append("\")");
    }
    s.append(" }");
    proof {
        assert(s@ =~= version_debug_text_spec(v@));
    }
    s
}

/// The `Debug` text of the refusal of a plugin whose major version no federation version
/// exists for.
pub open spec fn unsupported_version_text(v: VersionView) -> Seq<char> {
    "UnsupportedFederationVersion { version: SupergraphVersion { version: "@ + version_debug_text_spec(v) + " } }"@
}

/// The view of a sequence of strings.
pub open spec fn texts(v: Seq<String>) -> Seq<Seq<char>> {
    v.map_values(|s: String| s@)
}

/// The flag `flag` followed by `value`, where there is a value.
pub open spec fn flag_with(flag: Seq<char>, value: Option<String>) -> Seq<Seq<char>> {
    match value {
        Some(v) => seq![flag, v@],
        None => Seq::empty(),
    }
}

/// The flag `flag`, where `on`.
pub open spec fn flag_if(flag: Seq<char>, on: bool) -> Seq<Seq<char>> {
    if on {
        seq![flag]
    } else {
        Seq::empty()
    }
}

/// Appends one argument.
fn push_arg(args: &mut Vec<String>, arg: String)
    ensures
        texts(final(args)@) == texts(old(args)@).push(arg@),
{
    args.push(arg);
    proof {
        assert(texts(final(args)@) =~= texts(old(args)@).push(arg@));
    }
}

/// Appends `flag` and the value, where there is one.
fn push_flag_with(args: &mut Vec<String>, flag: &str, value: Option<String>)
    ensures
        texts(final(args)@) == texts(old(args)@) + flag_with(flag@, value),
{
    match value {
        Some(v) => {
            push_arg(args, String::from_str(flag));
            push_arg(args, v);
        },
        None => {},
    }
    proof {
        assert(texts(final(args)@) =~= texts(old(args)@) + flag_with(flag@, value));
    }
}

/// Appends `flag`, where `on`.
fn push_flag_if(args: &mut Vec<String>, flag: &str, on: bool)
    ensures
        texts(final(args)@) == texts(old(args)@) + flag_if(flag@, on),
{
    if on {
        push_arg(args, String::from_str(flag));
    }
    proof {
        assert(texts(final(args)@) =~= texts(old(args)@) + flag_if(flag@, on));
    }
}

/// A list of one argument.
fn one_arg(arg: &str) -> (r: Vec<String>)
    ensures
        texts(r@) == seq![arg@],
{
    let mut r: Vec<String> = Vec::new();
    push_arg(&mut r, String::from_str(arg));
    proof {
        assert(texts(r@) =~= seq![arg@]);
    }
    r
}

/// The version the plugin must have at least to fill gaps in a schema: `2.12.0-preview.7`.
pub open spec fn fill_schema_gaps_minimum() -> VersionView {
    VersionView { major: 2, minor: 12, patch: 0, pre: "preview.7"@, build: Seq::empty() }
}

/// The precedence semantic versioning gives: whether `a` comes before `b`; `None` where either
/// has identifiers semantic versioning does not allow.
pub uninterp spec fn semver_precedes(a: VersionView, b: VersionView) -> Option<bool>;

/// Calls the ordering of `semver::Version` on the two versions, built from their numbers and
/// identifiers with `semver::Prerelease::new` and `semver::BuildMetadata::new`. Claims only
/// that the answer is `semver_precedes` of the two, the identifiers' grammar and the order of
/// pre-releases being left to the crate.
#[verifier::external_body]
fn version_precedes(a: &Version, b: &Version) -> (r: Option<bool>)
    ensures
        r == semver_precedes(a@, b@),
{
    let (Ok(a_pre), Ok(a_build), Ok(b_pre), Ok(b_build)) = (
        semver::Prerelease::new(a.pre.as_str()),
        semver::BuildMetadata::new(a.build.as_str()),
        semver::Prerelease::new(b.pre.as_str()),
        semver::BuildMetadata::new(b.build.as_str()),
    ) else {
        return None;
    };
    let x = semver::Version { major: a.major, minor: a.minor, patch: a.patch, pre: a_pre, build: a_build };
    let y = semver::Version { major: b.major, minor: b.minor, patch: b.patch, pre: b_pre, build: b_build };
    Some(x < y)
}

/// What `serde_json` finds in the output of the plugin's `fill-schema-gaps`: the text of its
/// `diff` field, if it is a string, or the `Debug` text of the parse error.
pub uninterp spec fn fill_schema_gaps_diff(output: Seq<char>) -> Result<Option<Seq<char>>, Seq<char>>;

/// Parses the output as JSON with `serde_json::from_str` and reads its `diff` field with
/// `serde_json::Value::get` and `as_str`. Claims only that the outcome is
/// `fill_schema_gaps_diff` of the output: JSON is left to the crate.
#[verifier::external_body]
fn read_diff(output: &str) -> (r: Result<Option<String>, String>)
    ensures
        match r {
            Ok(Some(d)) => fill_schema_gaps_diff(output@) == Ok::<Option<Seq<char>>, Seq<char>>(Some(d@)),
            Ok(None) => fill_schema_gaps_diff(output@) == Ok::<Option<Seq<char>>, Seq<char>>(None),
            Err(e) => fill_schema_gaps_diff(output@) == Err::<Option<Seq<char>>, Seq<char>>(e@),
        },
{
    match serde_json::from_str::<serde_json::Value>(output) {
        Ok(parsed) => Ok(parsed.get("diff").and_then(|d| d.as_str()).map(|d| d.to_string())),
        Err(err) => Err(format!("{err:?}")),
    }
}

/// Whether an exit code is one the plugin finishes with: `0`, or `1` when it reports errors.
pub open spec fn expected_exit(code: Option<i32>) -> bool {
    code == Some(0i32) || code == Some(1i32)
}

/// Whether what a process wrote can be read as text wherever it has to be.
pub open spec fn readable(output: ExecOutput) -> bool {
    !expected_exit(output.exit_code) ==> valid_utf8(output.stdout@) && valid_utf8(output.stderr@)
}

/// Whether `r` is what running the plugin at `exe` gives when running it gave `output`: an error
/// where it could not run, exited with a code other than `0` or `1`, or wrote something that is
/// not UTF-8; else the text it wrote.
pub open spec fn executed(exe: Seq<char>, output: Result<ExecOutput, String>, r: Result<String, BinaryError>) -> bool {
    match output {
        Err(e) => r matches Err(BinaryError::Run { binary, error }) && binary@ == exe && error == e,
        Ok(o) => if !expected_exit(o.exit_code) {
            r matches Err(BinaryError::Exit { binary, exit_code, stdout, stderr }) && binary@ == exe && exit_code
                == o.exit_code && stdout@ == decode_utf8(o.stdout@) && stderr@ == decode_utf8(o.stderr@)
        } else if valid_utf8(o.stdout@) {
            r matches Ok(text) && text@ == decode_utf8(o.stdout@)
        } else {
            r matches Err(BinaryError::InvalidOutput { binary, error }) && binary@ == exe && error@ == utf8_error_text(
                o.stdout@,
            )
        },
    }
}

impl SupergraphBinary {
    /// The binary a plugin's provenance describes.
    pub fn new(provenance: PluginProvenance) -> (r: SupergraphBinary)
        ensures
            r.exe@ == provenance.path@,
            r.version.version == provenance.version,
            r.provenance == provenance,
    {
        SupergraphBinary {
            exe: provenance.path.clone(),
            version: SupergraphVersion::new(provenance.version.copy()),
            provenance,
        }
    }

    /// A copy of the plugin's provenance.
    fn provenance_copy(&self) -> (r: PluginProvenance)
        ensures
            r == self.provenance,
    {
        PluginProvenance { path: self.provenance.path.clone(), version: self.provenance.version.copy() }
    }

    /// The arguments that compose the supergraph config at `supergraph_config_path`.
    pub fn compose_args(&self, supergraph_config_path: &String) -> (r: Vec<String>)
        ensures
            texts(r@) == seq!["compose"@, supergraph_config_path@],
    {
        let mut args = one_arg("compose");
        push_arg(&mut args, supergraph_config_path.clone());
        proof {
            assert(texts(args@) =~= seq!["compose"@, supergraph_config_path@]);
        }
        args
    }

    /// The text the plugin wrote when composing, given the outcome of running it: an error where
    /// it could not run, exited with a code other than `0` or `1`, or wrote something that is
    /// not UTF-8.
    pub fn compose_output(&self, output: Result<ExecOutput, String>) -> (r: Result<String, CompositionError>)
        requires
            output matches Ok(o) ==> readable(o),
        ensures
            match output {
                Err(e) => r matches Err(CompositionError::Binary { error, provenance }) && error == e
                    && provenance == self.provenance,
                Ok(o) => if !expected_exit(o.exit_code) {
                    r matches Err(CompositionError::BinaryExit { exit_code, stdout, stderr, provenance })
                        && exit_code == o.exit_code && stdout@ == decode_utf8(o.stdout@) && stderr@ == decode_utf8(
                        o.stderr@,
                    ) && provenance == self.provenance
                } else if valid_utf8(o.stdout@) {
                    r matches Ok(text) && text@ == decode_utf8(o.stdout@)
                } else {
                    r matches Err(CompositionError::InvalidOutput { provenance, error }) && provenance
                        == self.provenance && error@ == utf8_error_text(o.stdout@)
                },
            },
    {
        let output = match output {
            Ok(o) => o,
            Err(error) => return Err(CompositionError::Binary { error, provenance: self.provenance_copy() }),
        };
        if !(output.exit_code == Some(0i32) || output.exit_code == Some(1i32)) {
            let stdout = match utf8_text(&output.stdout) {
                Ok(s) => s,
                Err(_) => String::new(),
            };
            let stderr = match utf8_text(&output.stderr) {
                Ok(s) => s,
                Err(_) => String::new(),
            };
            return Err(
                CompositionError::BinaryExit {
                    exit_code: output.exit_code,
                    stdout,
                    stderr,
                    provenance: self.provenance_copy(),
                },
            );
        }
        match utf8_text(&output.stdout) {
            Ok(text) => Ok(text),
            Err(error) => Err(CompositionError::InvalidOutput { provenance: self.provenance_copy(), error }),
        }
    }

    /// The federation version this plugin composes at: its own version, Federation 1 for majors
    /// 0 and 1, Federation 2 for major 2; any other major is invalid input, described by the
    /// `Debug` text of the refusal.
    pub fn federation_version(&self) -> (r: Result<FederationVersion, CompositionError>)
        ensures
            self.version.version.major <= 1 ==> r == Ok::<FederationVersion, CompositionError>(
                FederationVersion::ExactFedOne(self.version.version),
            ),
            self.version.version.major == 2 ==> r == Ok::<FederationVersion, CompositionError>(
                FederationVersion::ExactFedTwo(self.version.version),
            ),
            self.version.version.major > 2 ==> (r matches Err(CompositionError::InvalidInput { provenance, error })
                && provenance == self.provenance && error@ == unsupported_version_text(self.version.version@)),
    {
        let version = SupergraphVersion::new(self.version.version.copy());
        match version.into_federation_version() {
            Ok(v) => Ok(v),
            Err(_) => {
                let mut error = String::from_str("UnsupportedFederationVersion { version: SupergraphVersion { version: ");
                error.append(version_debug_text(&self.version.version).as_str());
                error.append(" } }");
                proof {
                    assert(error@ =~= unsupported_version_text(self.version.version@));
                }
                Err(CompositionError::InvalidInput { provenance: self.provenance_copy(), error })
            },
        }
    }

    /// Validates what the plugin composed, given the outcome of parsing its output: the
    /// supergraph at the plugin's federation version, or the build errors it reported.
    pub fn validate_composition(
        &self,
        parsed: Result<Result<BuildOutput, BuildErrors>, String>,
    ) -> (r: Result<CompositionSuccess, CompositionError>)
        ensures
            self.version.version.major > 2 ==> (r matches Err(CompositionError::InvalidInput { provenance, error })
                && provenance == self.provenance && error@ == unsupported_version_text(self.version.version@)),
            self.version.version.major <= 2 ==> {
                let federation_version = if self.version.version.major <= 1 {
                    FederationVersion::ExactFedOne(self.version.version)
                } else {
                    FederationVersion::ExactFedTwo(self.version.version)
                };
                match parsed {
                    Err(e) => r matches Err(CompositionError::InvalidOutput { provenance, error }) && error == e
                        && provenance == self.provenance,
                    Ok(Ok(out)) => r matches Ok(s) && s.supergraph_sdl == out.supergraph_sdl && s.hints == out.hints
                        && s.federation_version == federation_version,
                    Ok(Err(errors)) => r matches Err(
                        CompositionError::Build { source, federation_version: v, provenance },
                    ) && source == errors && v == federation_version && provenance == Some(self.provenance),
                }
            },
    {
        let federation_version = self.federation_version()?;
        match parsed {
            Err(error) => Err(CompositionError::InvalidOutput { provenance: self.provenance_copy(), error }),
            Ok(Ok(output)) => Ok(
                CompositionSuccess {
                    supergraph_sdl: output.supergraph_sdl,
                    hints: output.hints,
                    federation_version,
                },
            ),
            Ok(Err(errors)) => Err(
                CompositionError::Build {
                    source: errors,
                    federation_version,
                    provenance: Some(self.provenance_copy()),
                },
            ),
        }
    }

    /// The text a command of the plugin wrote, given the outcome of running it: an error where
    /// it could not run, exited with a code other than `0` or `1`, or wrote something that is
    /// not UTF-8.
    pub fn execute(&self, output: Result<ExecOutput, String>) -> (r: Result<String, BinaryError>)
        requires
            output matches Ok(o) ==> readable(o),
        ensures
            executed(self.exe@, output, r),
    {
        let output = match output {
            Ok(o) => o,
            Err(error) => return Err(BinaryError::Run { binary: self.exe.clone(), error }),
        };
        if !(output.exit_code == Some(0i32) || output.exit_code == Some(1i32)) {
            let stdout = match utf8_text(&output.stdout) {
                Ok(s) => s,
                Err(_) => String::new(),
            };
            let stderr = match utf8_text(&output.stderr) {
                Ok(s) => s,
                Err(_) => String::new(),
            };
            return Err(
                BinaryError::Exit { binary: self.exe.clone(), exit_code: output.exit_code, stdout, stderr },
            );
        }
        match utf8_text(&output.stdout) {
            Ok(text) => Ok(text),
            Err(error) => Err(BinaryError::InvalidOutput { binary: self.exe.clone(), error }),
        }
    }

    /// The arguments that run the connector `connector_id` of the schema at `schema_path` with
    /// `variables`.
    pub fn run_connector_args(&self, schema_path: String, connector_id: String, variables: String) -> (r: Vec<
        String,
    >)
        ensures
            texts(r@) == seq![
                "run-connector"@,
                "--schema"@,
                schema_path@,
                "--connector-id"@,
                connector_id@,
                "--variables"@,
                variables@,
            ],
    {
        let mut args = one_arg("run-connector");
        push_flag_with(&mut args, "--schema", Some(schema_path));
        push_flag_with(&mut args, "--connector-id", Some(connector_id));
        push_flag_with(&mut args, "--variables", Some(variables));
        proof {
            assert(texts(args@) =~= seq![
                "run-connector"@,
                "--schema"@,
                schema_path@,
                "--connector-id"@,
                connector_id@,
                "--variables"@,
                variables@,
            ]);
        }
        args
    }

    /// The arguments that test connectors: the flags that are on, then each path given.
    pub fn test_connector_args(
        &self,
        file: Option<String>,
        directory: Option<String>,
        no_fail: bool,
        schema_file: Option<String>,
        output_file: Option<String>,
        verbose: bool,
        quiet: bool,
    ) -> (r: Vec<String>)
        ensures
            texts(r@) == seq!["test-connectors"@] + flag_if("--no-fail-fast"@, no_fail) + flag_if(
                "--verbose"@,
                verbose,
            ) + flag_if("--quiet"@, quiet) + flag_with("--file"@, file) + flag_with("--directory"@, directory)
                + flag_with("--report"@, output_file) + flag_with("--schema"@, schema_file),
    {
        let mut args = one_arg("test-connectors");
        push_flag_if(&mut args, "--no-fail-fast", no_fail);
        push_flag_if(&mut args, "--verbose", verbose);
        push_flag_if(&mut args, "--quiet", quiet);
        push_flag_with(&mut args, "--file", file);
        push_flag_with(&mut args, "--directory", directory);
        push_flag_with(&mut args, "--report", output_file);
        push_flag_with(&mut args, "--schema", schema_file);
        args
    }

    /// The arguments that generate a connector schema.
    pub fn generate_connector_args(
        &self,
        name: Option<String>,
        analysis_dir: Option<String>,
        output_dir: Option<String>,
        verbose: bool,
        quiet: bool,
    ) -> (r: Vec<String>)
        ensures
            texts(r@) == seq!["generate-connector-schema"@] + flag_with("--name"@, name) + flag_with(
                "--analysis-dir"@,
                analysis_dir,
            ) + flag_with("--output-dir"@, output_dir) + flag_if("--verbose"@, verbose) + flag_if(
                "--quiet"@,
                quiet,
            ),
    {
        let mut args = one_arg("generate-connector-schema");
        push_flag_with(&mut args, "--name", name);
        push_flag_with(&mut args, "--analysis-dir", analysis_dir);
        push_flag_with(&mut args, "--output-dir", output_dir);
        push_flag_if(&mut args, "--verbose", verbose);
        push_flag_if(&mut args, "--quiet", quiet);
        args
    }

    /// The arguments that list the connectors of the schema at `schema_path`.
    pub fn list_connector_args(&self, schema_path: String) -> (r: Vec<String>)
        ensures
            texts(r@) == seq!["list-connectors"@, "--schema"@, schema_path@],
    {
        let mut args = one_arg("list-connectors");
        push_flag_with(&mut args, "--schema", Some(schema_path));
        proof {
            assert(texts(args@) =~= seq!["list-connectors"@, "--schema"@, schema_path@]);
        }
        args
    }

    /// The arguments that clean up what connector analysis left.
    pub fn analyze_clean_args(&self) -> (r: Vec<String>)
        ensures
            texts(r@) == seq!["analyze-for-connector"@, "clean"@],
    {
        let mut args = one_arg("analyze-for-connector");
        push_arg(&mut args, String::from_str("clean"));
        proof {
            assert(texts(args@) =~= seq!["analyze-for-connector"@, "clean"@]);
        }
        args
    }

    /// The arguments that start an interactive connector analysis, on `port` where one is given.
    pub fn analyze_interactive_args(&self, port: Option<u16>) -> (r: Vec<String>)
        ensures
            texts(r@) == seq!["analyze-for-connector"@, "interactive"@] + match port {
                Some(p) => seq!["--port"@, crate::text::decimal(p as nat)],
                None => Seq::<Seq<char>>::empty(),
            },
    {
        let mut args = one_arg("analyze-for-connector");
        push_arg(&mut args, String::from_str("interactive"));
        let port_text = match port {
            Some(p) => Some(crate::text::decimal_text(p as u64)),
            None => None,
        };
        push_flag_with(&mut args, "--port", port_text);
        proof {
            assert(texts(args@) =~= seq!["analyze-for-connector"@, "interactive"@] + match port {
                Some(p) => seq!["--port"@, crate::text::decimal(p as nat)],
                None => Seq::<Seq<char>>::empty(),
            });
        }
        args
    }

    /// The arguments that analyse a request for a connector: the URL, a `-H` for each header,
    /// then the method, timeout, body, analysis directory and flags where given. Each value is
    /// the text of what the user gave.
    pub fn analyze_curl_args(
        &self,
        url: String,
        headers: Vec<String>,
        method: Option<String>,
        timeout: Option<u64>,
        data: Option<String>,
        analysis_dir: Option<String>,
        quiet: bool,
        verbose: bool,
    ) -> (r: Vec<String>)
        ensures
            texts(r@) == seq!["analyze-for-connector"@, "curl"@, url@] + Seq::new(
                2 * headers@.len(),
                |i: int| if i % 2 == 0 {
                    "-H"@
                } else {
                    headers@[i / 2]@
                },
            ) + flag_with("-X"@, method) + match timeout {
                Some(t) => seq!["--timeout"@, crate::text::decimal(t as nat)],
                None => Seq::<Seq<char>>::empty(),
            } + flag_with("--data"@, data) + flag_with("--analysis-dir"@, analysis_dir) + flag_if(
                "--verbose"@,
                verbose,
            ) + flag_if("--quiet"@, quiet),
    {
        let mut args = one_arg("analyze-for-connector");
        push_arg(&mut args, String::from_str("curl"));
        push_arg(&mut args, url);
        let ghost start = texts(args@);
        let ghost header_args = Seq::new(
            2 * headers@.len(),
            |i: int| if i % 2 == 0 {
                "-H"@
            } else {
                headers@[i / 2]@
            },
        );
        let ghost hs = headers@;
        let mut i: usize = 0;
        for header in it: headers.into_iter()
            invariant
                it.seq() == hs,
                header_args == Seq::new(
                    2 * hs.len(),
                    |i: int| if i % 2 == 0 {
                        "-H"@
                    } else {
                        hs[i / 2]@
                    },
                ),
                texts(args@) == start + header_args.take(2 * it.index() as int),
        {
            let ghost before = texts(args@);
            push_arg(&mut args, String::from_str("-H"));
            push_arg(&mut args, header);
            proof {
                assert(texts(args@) =~= start + header_args.take(2 * it.index() as int + 2));
            }
        }
        proof {
            assert(header_args.take(2 * hs.len() as int) =~= header_args);
        }
        push_flag_with(&mut args, "-X", method);
        let timeout_text = match timeout {
            Some(t) => Some(crate::text::decimal_text(t)),
            None => None,
        };
        push_flag_with(&mut args, "--timeout", timeout_text);
        push_flag_with(&mut args, "--data", data);
        push_flag_with(&mut args, "--analysis-dir", analysis_dir);
        push_flag_if(&mut args, "--verbose", verbose);
        push_flag_if(&mut args, "--quiet", quiet);
        proof {
            assert(texts(args@) =~= seq!["analyze-for-connector"@, "curl"@, url@] + header_args + flag_with(
                "-X"@,
                method,
            ) + match timeout {
                Some(t) => seq!["--timeout"@, crate::text::decimal(t as nat)],
                None => Seq::<Seq<char>>::empty(),
            } + flag_with("--data"@, data) + flag_with("--analysis-dir"@, analysis_dir) + flag_if(
                "--verbose"@,
                verbose,
            ) + flag_if("--quiet"@, quiet));
        }
        args
    }

    /// The arguments that fill the gaps of the schema at `schema_path`, where the plugin is at
    /// least `2.12.0-preview.7`; a plugin that semantic versioning does not place at or after that
    /// version is refused.
    pub fn load_spec_for_file_args(&self, schema_path: String) -> (r: Result<Vec<String>, BinaryError>)
        ensures
            semver_precedes(self.version.version@, fill_schema_gaps_minimum()) == Some(false) ==> (r matches Ok(
                args,
            ) && texts(args@) == seq!["fill-schema-gaps"@, schema_path@]),
            semver_precedes(self.version.version@, fill_schema_gaps_minimum()) != Some(false) ==> (r matches Err(
                BinaryError::UnsupportedVersion { minimum, current },
            ) && minimum@ == fill_schema_gaps_minimum() && current.version == self.version.version),
    {
        let minimum = Version {
            major: 2,
            minor: 12,
            patch: 0,
            pre: String::from_str("preview.7"),
            build: String::new(),
        };
        match version_precedes(&self.version.version, &minimum) {
            Some(false) => {},
            _ => {
                return Err(
                    BinaryError::UnsupportedVersion {
                        minimum,
                        current: SupergraphVersion::new(self.version.version.copy()),
                    },
                );
            },
        }
        let mut args = one_arg("fill-schema-gaps");
        push_arg(&mut args, schema_path);
        proof {
            assert(texts(args@) =~= seq!["fill-schema-gaps"@, schema_path@]);
        }
        Ok(args)
    }

    /// The diff `fill-schema-gaps` reports, given the outcome of running it: what
    /// [`SupergraphBinary::execute`] refuses, or output whose `diff` field is missing or not text,
    /// is refused.
    pub fn load_spec_for_file_output(&self, output: Result<ExecOutput, String>) -> (r: Result<String, BinaryError>)
        requires
            output matches Ok(o) ==> readable(o),
        ensures
            match output {
                Ok(o) if expected_exit(o.exit_code) && valid_utf8(o.stdout@) => match fill_schema_gaps_diff(
                    decode_utf8(o.stdout@),
                ) {
                    Ok(Some(d)) => r matches Ok(t) && t@ == d,
                    Ok(None) => r matches Err(BinaryError::InvalidOutput { binary, error }) && binary@ == self.exe@
                        && error@ == "Missing 'diff' field in output"@,
                    Err(e) => r matches Err(BinaryError::InvalidOutput { binary, error }) && binary@ == self.exe@
                        && error@ == e,
                },
                _ => executed(self.exe@, output, r),
            },
    {
        let text = self.execute(output)?;
        match read_diff(text.as_str()) {
            Ok(Some(diff)) => Ok(diff),
            Ok(None) => Err(
                BinaryError::InvalidOutput {
                    binary: self.exe.clone(),
                    error: String::from_str("Missing 'diff' field in output"),
                },
            ),
            Err(error) => Err(BinaryError::InvalidOutput { binary: self.exe.clone(), error }),
        }
    }
}

} // verus!
