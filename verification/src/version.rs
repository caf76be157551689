//! Versions: the semantic version of a `supergraph` plugin binary, and the federation version a
//! supergraph is composed at.
use vstd::prelude::*;
use vstd::string::*;

use crate::text::{opt_string_view, strip_prefix_or_keep, strip_suffix_or_keep, without_prefix, without_suffix};

verus! {

/// A semantic version as the `semver` crate reads it: three numbers, then the pre-release and
/// build-metadata identifiers as written (empty when absent).
#[derive(Debug)]
pub struct Version {
    pub major: u64,
    pub minor: u64,
    pub patch: u64,
    pub pre: String,
    pub build: String,
}

/// The mathematical value of a [`Version`].
pub struct VersionView {
    pub major: u64,
    pub minor: u64,
    pub patch: u64,
    pub pre: Seq<char>,
    pub build: Seq<char>,
}

impl View for Version {
    type V = VersionView;

    open spec fn view(&self) -> VersionView {
        VersionView {
            major: self.major,
            minor: self.minor,
            patch: self.patch,
            pre: self.pre@,
            build: self.build@,
        }
    }
}

impl Version {
    /// A copy of this version.
    pub fn copy(&self) -> (r: Version)
        ensures
            r == *self,
    {
        Version {
            major: self.major,
            minor: self.minor,
            patch: self.patch,
            pre: self.pre.clone(),
            build: self.build.clone(),
        }
    }

    /// Whether two versions are the same, identifiers included.
    pub fn same_as(&self, other: &Version) -> (r: bool)
        ensures
            r == (self@ == other@),
    {
        self.major == other.major && self.minor == other.minor && self.patch == other.patch
            && self.pre == other.pre && self.build == other.build
    }

    /// A release version `major.minor.patch`, with neither pre-release nor build identifiers.
    pub fn release(major: u64, minor: u64, patch: u64) -> (r: Version)
        ensures
            r.major == major,
            r.minor == minor,
            r.patch == patch,
            r.pre@ == Seq::<char>::empty(),
            r.build@ == Seq::<char>::empty(),
    {
        Version { major, minor, patch, pre: String::new(), build: String::new() }
    }
}

/// What `semver::Version::parse` makes of `text`: the version it reads, or the text of the error
/// it reports.
pub uninterp spec fn semver_parse(text: Seq<char>) -> Result<VersionView, Seq<char>>;

/// Calls `semver::Version::parse`. Claims only that the outcome, version or error message, is
/// `semver_parse` of the text: the grammar of semantic versions is left to the crate.
#[verifier::external_body]
pub(crate) fn parse_version(text: &str) -> (r: Result<Version, String>)
    ensures
        match r {
            Ok(v) => semver_parse(text@) == Ok::<VersionView, Seq<char>>(v@),
            Err(e) => semver_parse(text@) == Err::<VersionView, Seq<char>>(e@),
        },
{
    match semver::Version::parse(text) {
        Ok(v) => Ok(Version {
            major: v.major,
            minor: v.minor,
            patch: v.patch,
            pre: v.pre.as_str().to_string(),
            build: v.build.as_str().to_string(),
        }),
        Err(e) => Err(e.to_string()),
    }
}

/// `v` has at least the precedence of the release `2.9.0`: semantic-version order puts a
/// pre-release before its release and ranks build metadata only after all else, so this is
/// the numeric triple being past `2.9.0`, or equal to it without pre-release identifiers.
pub open spec fn at_least_2_9_0(v: VersionView) -> bool {
    ||| v.major > 2
    ||| (v.major == 2 && v.minor > 9)
    ||| (v.major == 2 && v.minor == 9 && v.patch > 0)
    ||| (v.major == 2 && v.minor == 9 && v.patch == 0 && v.pre.len() == 0)
}

/// The federation version a supergraph is composed at.
#[derive(Debug)]
pub enum FederationVersion {
    LatestFedOne,
    LatestFedTwo,
    ExactFedOne(Version),
    ExactFedTwo(Version),
}

/// The mathematical value of a [`FederationVersion`].
pub enum FederationVersionView {
    LatestFedOne,
    LatestFedTwo,
    ExactFedOne(VersionView),
    ExactFedTwo(VersionView),
}

impl View for FederationVersion {
    type V = FederationVersionView;

    open spec fn view(&self) -> FederationVersionView {
        match self {
            FederationVersion::LatestFedOne => FederationVersionView::LatestFedOne,
            FederationVersion::LatestFedTwo => FederationVersionView::LatestFedTwo,
            FederationVersion::ExactFedOne(v) => FederationVersionView::ExactFedOne(v@),
            FederationVersion::ExactFedTwo(v) => FederationVersionView::ExactFedTwo(v@),
        }
    }
}

impl FederationVersionView {
    pub open spec fn is_fed_one(self) -> bool {
        self is LatestFedOne || self is ExactFedOne
    }

    pub open spec fn is_fed_two(self) -> bool {
        self is LatestFedTwo || self is ExactFedTwo
    }

    pub open spec fn exact(self) -> Option<VersionView> {
        match self {
            FederationVersionView::ExactFedOne(v) => Some(v),
            FederationVersionView::ExactFedTwo(v) => Some(v),
            _ => None,
        }
    }
}

impl FederationVersion {
    /// A copy of this federation version.
    pub fn copy(&self) -> (r: FederationVersion)
        ensures
            r == *self,
    {
        match self {
            FederationVersion::LatestFedOne => FederationVersion::LatestFedOne,
            FederationVersion::LatestFedTwo => FederationVersion::LatestFedTwo,
            FederationVersion::ExactFedOne(v) => FederationVersion::ExactFedOne(v.copy()),
            FederationVersion::ExactFedTwo(v) => FederationVersion::ExactFedTwo(v.copy()),
        }
    }

    /// The exact version this pins, if it pins one.
    pub fn get_exact(&self) -> (r: Option<&Version>)
        ensures
            match r {
                Some(v) => self@.exact() == Some(v@),
                None => self@.exact() is None,
            },
    {
        match self {
            FederationVersion::ExactFedOne(v) => Some(v),
            FederationVersion::ExactFedTwo(v) => Some(v),
            _ => None,
        }
    }

    /// Whether this is a Federation 1 version.
    pub fn is_fed_one(&self) -> (b: bool)
        ensures
            b == self@.is_fed_one(),
    {
        match self {
            FederationVersion::LatestFedOne => true,
            FederationVersion::ExactFedOne(_) => true,
            _ => false,
        }
    }

    /// Whether this is a Federation 2 version.
    pub fn is_fed_two(&self) -> (b: bool)
        ensures
            b == self@.is_fed_two(),
    {
        match self {
            FederationVersion::LatestFedTwo => true,
            FederationVersion::ExactFedTwo(_) => true,
            _ => false,
        }
    }
}

/// The version of an installed `supergraph` plugin binary.
#[derive(Debug)]
pub struct SupergraphVersion {
    pub version: Version,
}

/// Errors in reading or using a [`SupergraphVersion`].
#[derive(Debug)]
pub enum SupergraphVersionError {
    /// The plugin's major version is not one a federation version exists for.
    UnsupportedFederationVersion { version: SupergraphVersion },
    /// The version could not be obtained.
    Conversion { error: String },
    /// The plugin's path has no file name.
    MissingFilename,
    /// The file name does not hold a semantic version; `source` is the parser's message.
    InvalidVersion { source: String },
}

/// The name `camino::Utf8Path::file_name` gives the last component of `path`, if it has one.
pub uninterp spec fn path_file_name(path: Seq<char>) -> Option<Seq<char>>;

/// Calls `camino::Utf8Path::file_name`. Claims only that the result is `path_file_name` of the
/// path: how the crate splits a path into components is left to it.
#[verifier::external_body]
pub(crate) fn file_name_of(path: &str) -> (r: Option<String>)
    ensures
        opt_string_view(&r) == path_file_name(path@),
{
    camino::Utf8Path::new(path).file_name().map(|name| name.to_string())
}

/// The text a plugin's file name gives to the version parser: the name without a trailing
/// `.exe`, then without a leading `supergraph-v`.
pub open spec fn version_text_of_file_name(name: Seq<char>) -> Seq<char> {
    without_prefix(without_suffix(name, ".exe"@), "supergraph-v"@)
}

impl SupergraphVersion {
    /// A plugin version.
    pub fn new(version: Version) -> (r: SupergraphVersion)
        ensures
            r.version == version,
    {
        SupergraphVersion { version }
    }

    /// Whether this plugin version supports the `--output` flag, which it does from `2.9.0` on.
    pub fn supports_output_flag(&self) -> (b: bool)
        ensures
            b == at_least_2_9_0(self.version@),
    {
        let v = &self.version;
        if v.major != 2 {
            v.major > 2
        } else if v.minor != 9 {
            v.minor > 9
        } else if v.patch != 0 {
            true
        } else {
            v.pre.as_str().is_empty()
        }
    }

    /// Reads the plugin version from the path of the plugin binary, whose file name is
    /// `supergraph-v<version>`, possibly with `.exe` after it.
    pub fn from_path(path: &String) -> (r: Result<SupergraphVersion, SupergraphVersionError>)
        ensures
            match path_file_name(path@) {
                None => r matches Err(SupergraphVersionError::MissingFilename),
                Some(name) => match semver_parse(version_text_of_file_name(name)) {
                    Ok(v) => r matches Ok(sv) && sv.version@ == v,
                    Err(e) => r matches Err(SupergraphVersionError::InvalidVersion { source })
                        && source@ == e,
                },
            },
    {
        let name = match file_name_of(path.as_str()) {
            Some(name) => name,
            None => return Err(SupergraphVersionError::MissingFilename),
        };
        let without_exe = strip_suffix_or_keep(name.as_str(), ".exe");
        let text = strip_prefix_or_keep(without_exe.as_str(), "supergraph-v");
        match parse_version(text.as_str()) {
            Ok(version) => Ok(SupergraphVersion { version }),
            Err(source) => Err(SupergraphVersionError::InvalidVersion { source }),
        }
    }

    /// The federation version this plugin composes at: its own version, as a Federation 1
    /// version for majors 0 and 1 and a Federation 2 version for major 2.
    pub fn into_federation_version(self) -> (r: Result<FederationVersion, SupergraphVersionError>)
        ensures
            self.version.major <= 1 ==> r == Ok::<FederationVersion, SupergraphVersionError>(
                FederationVersion::ExactFedOne(self.version),
            ),
            self.version.major == 2 ==> r == Ok::<FederationVersion, SupergraphVersionError>(
                FederationVersion::ExactFedTwo(self.version),
            ),
            self.version.major > 2 ==> r == Err::<FederationVersion, SupergraphVersionError>(
                SupergraphVersionError::UnsupportedFederationVersion { version: self },
            ),
    {
        if self.version.major <= 1 {
            Ok(FederationVersion::ExactFedOne(self.version))
        } else if self.version.major == 2 {
            Ok(FederationVersion::ExactFedTwo(self.version))
        } else {
            Err(SupergraphVersionError::UnsupportedFederationVersion { version: self })
        }
    }
}

} // verus!
