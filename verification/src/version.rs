//! Version gating: a plan is accepted only by the engine version that wrote it.

use vstd::prelude::*;
use vstd::string::StringExecFns;

verus! {

/// The version of this engine.
pub const ENGINE_VERSION: &'static str = "0.1.0";

#[verifier::external_type_specification]
#[verifier::external_body]
pub struct ExVersion(semver::Version);

#[verifier::external_type_specification]
#[verifier::external_body]
pub struct ExVersionReq(semver::VersionReq);

#[verifier::external_type_specification]
#[verifier::external_body]
pub struct ExError(semver::Error);

/// Whether `text` is a semantic version as `semver::Version::parse` reads it.
pub uninterp spec fn is_version_text(text: Seq<char>) -> bool;

/// Whether `text` is a version requirement as `semver::VersionReq::parse`
/// reads it.
pub uninterp spec fn is_requirement_text(text: Seq<char>) -> bool;

/// Whether the requirement written as `requirement` admits the version
/// written as `version`, as `semver::VersionReq::matches` decides it.
pub uninterp spec fn requirement_matches(requirement: Seq<char>, version: Seq<char>) -> bool;

/// A semantic version: the text it was read from, and what the text means.
///
/// A value is only ever made by [`SemanticVersion::parse`] and never changed,
/// so the two fields always belong together.
#[derive(Debug)]
pub struct SemanticVersion {
    text: String,
    parsed: semver::Version,
}

/// A version requirement: the text it was read from, and what the text means.
///
/// A value is only ever made by [`VersionRequirement::parse`] and never
/// changed, so the two fields always belong together.
#[derive(Debug)]
pub struct VersionRequirement {
    text: String,
    parsed: semver::VersionReq,
}

impl View for SemanticVersion {
    type V = Seq<char>;

    closed spec fn view(&self) -> Seq<char> {
        self.text@
    }
}

impl View for VersionRequirement {
    type V = Seq<char>;

    closed spec fn view(&self) -> Seq<char> {
        self.text@
    }
}

/// Calls `semver::Version::parse`. It succeeds on exactly the texts that are
/// semantic versions, and the version it gives keeps the text.
#[verifier::external_body]
fn parse_version(text: &str) -> (result: Result<SemanticVersion, semver::Error>)
    ensures
        result is Ok <==> is_version_text(text@),
        result matches Ok(version) ==> version@ == text@,
{
    match semver::Version::parse(text) {
        Ok(parsed) => Ok(SemanticVersion { text: text.to_owned(), parsed }),
        Err(error) => Err(error),
    }
}

/// Calls `semver::VersionReq::parse`. It succeeds on exactly the texts that
/// are version requirements, and the requirement it gives keeps the text.
#[verifier::external_body]
fn parse_requirement(text: &str) -> (result: Result<VersionRequirement, semver::Error>)
    ensures
        result is Ok <==> is_requirement_text(text@),
        result matches Ok(requirement) ==> requirement@ == text@,
{
    match semver::VersionReq::parse(text) {
        Ok(parsed) => Ok(VersionRequirement { text: text.to_owned(), parsed }),
        Err(error) => Err(error),
    }
}

/// Calls `semver::VersionReq::matches`: whether `requirement` admits
/// `version`. The answer depends on the two alone, and so on the texts they
/// were read from.
#[verifier::external_body]
fn requirement_admits(requirement: &VersionRequirement, version: &SemanticVersion) -> (admitted:
    bool)
    ensures
        admitted == requirement_matches(requirement@, version@),
{
    requirement.parsed.matches(&version.parsed)
}

/// Copies a version through `Clone::clone` of `semver::Version`: the copy
/// stands for the same version, so it keeps the text.
#[verifier::external_body]
fn copy_version(version: &SemanticVersion) -> (copy: SemanticVersion)
    ensures
        copy@ == version@,
{
    SemanticVersion { text: version.text.clone(), parsed: version.parsed.clone() }
}

impl Clone for SemanticVersion {
    fn clone(&self) -> (copy: Self)
        ensures
            copy@ == self@,
    {
        copy_version(self)
    }
}

impl SemanticVersion {
    /// Reads a semantic version.
    pub fn parse(text: &str) -> (result: Result<SemanticVersion, semver::Error>)
        ensures
            result is Ok <==> is_version_text(text@),
            result matches Ok(version) ==> version@ == text@,
    {
        parse_version(text)
    }

    /// The text of the version.
    pub fn as_str(&self) -> (text: &str)
        ensures
            text@ == self@,
    {
        self.text.as_str()
    }
}

impl VersionRequirement {
    /// Reads a version requirement.
    pub fn parse(text: &str) -> (result: Result<VersionRequirement, semver::Error>)
        ensures
            result is Ok <==> is_requirement_text(text@),
            result matches Ok(requirement) ==> requirement@ == text@,
    {
        parse_requirement(text)
    }

    /// Whether the requirement admits `version`.
    pub fn matches(&self, version: &SemanticVersion) -> (admitted: bool)
        ensures
            admitted == requirement_matches(self@, version@),
    {
        requirement_admits(self, version)
    }

    /// The text of the requirement.
    pub fn as_str(&self) -> (text: &str)
        ensures
            text@ == self@,
    {
        self.text.as_str()
    }
}

/// The requirement that asks for exactly `version`: an equals sign before
/// the version.
pub open spec fn exact_requirement(version: Seq<char>) -> Seq<char> {
    "="@ + version
}

/// Why a plan's version was turned down.
#[derive(Debug)]
pub enum VersionError {
    /// The plan's version does not make a version requirement.
    Requirement { plan: String },
    /// The engine's own version is no semantic version.
    EngineVersion { engine: String, plan: String },
    /// The engine's version does not satisfy the plan's.
    Incompatible { engine: String, plan: String },
}

/// The text of [`VersionError::Requirement`].
pub open spec fn requirement_message(plan: Seq<char>) -> Seq<char> {
    "Could not parse version `"@ + plan + "` as a version requirement, please report this"@
}

/// The text of [`VersionError::EngineVersion`].
pub open spec fn engine_version_message(engine: Seq<char>, plan: Seq<char>) -> Seq<char> {
    "Could not parse `nix-installer`'s version `"@ + engine
        + "` as a valid version according to Semantic Versioning, therefore the plan version ("@
        + plan + ") compatibility cannot be checked"@
}

/// The text of [`VersionError::Incompatible`].
pub open spec fn incompatible_message(engine: Seq<char>, plan: Seq<char>) -> Seq<char> {
    "This version of `nix-installer` ("@ + engine
        + ") is not compatible with this plan's version ("@ + plan
        + "), you probably are trying to install with a new version of `nix-installer` which is not compatible with version "@
        + plan
        + " plans. To upgrade Nix, try `sudo -i nix upgrade-nix`. To reinstall Nix, try `/nix/nix-installer uninstall` then installing again from the instructions on https://github.com/DeterminateSystems/nix-installer. To continue using this plan, download the matching release from https://github.com/DeterminateSystems/nix-installer/releases."@
}

impl VersionError {
    /// What the error says.
    pub open spec fn message_text(self) -> Seq<char> {
        match self {
            VersionError::Requirement { plan } => requirement_message(plan@),
            VersionError::EngineVersion { engine, plan } => engine_version_message(engine@, plan@),
            VersionError::Incompatible { engine, plan } => incompatible_message(engine@, plan@),
        }
    }

    /// The message for the user: it names the versions involved.
    pub fn message(&self) -> (text: String)
        ensures
            text@ == self.message_text(),
    {
        match self {
            VersionError::Requirement { plan } => {
                let mut text = String::from_str("Could not parse version `");
                text.append(plan.as_str());
                text.append("` as a version requirement, please report this");
                text
            },
            VersionError::EngineVersion { engine, plan } => {
                let mut text = String::from_str("Could not parse `nix-installer`'s version `");
                text.append(engine.as_str());
                text.append(
                    "` as a valid version according to Semantic Versioning, therefore the plan version (",
                );
                text.append(plan.as_str());
                text.append(") compatibility cannot be checked");
                text
            },
            VersionError::Incompatible { engine, plan } => {
                let mut text = String::from_str("This version of `nix-installer` (");
                text.append(engine.as_str());
                text.append(") is not compatible with this plan's version (");
                text.append(plan.as_str());
                text.append(
                    "), you probably are trying to install with a new version of `nix-installer` which is not compatible with version ",
                );
                text.append(plan.as_str());
                text.append(
                    " plans. To upgrade Nix, try `sudo -i nix upgrade-nix`. To reinstall Nix, try `/nix/nix-installer uninstall` then installing again from the instructions on https://github.com/DeterminateSystems/nix-installer. To continue using this plan, download the matching release from https://github.com/DeterminateSystems/nix-installer/releases.",
                );
                text
            },
        }
    }
}

/// The verdict on a plan's version, from what the three questions gave:
/// whether the plan's version made a requirement, whether the engine's
/// version is a version, and whether the requirement admitted it.
pub open spec fn verdict(
    plan: Seq<char>,
    engine: Seq<char>,
    requirement_read: bool,
    engine_read: bool,
    admitted: bool,
    result: Result<(), VersionError>,
) -> bool {
    if !requirement_read {
        result matches Err(VersionError::Requirement { plan: p }) && p@ == plan
    } else if !engine_read {
        result matches Err(VersionError::EngineVersion { engine: e, plan: p }) && e@ == engine && p@
            == plan
    } else if !admitted {
        result matches Err(VersionError::Incompatible { engine: e, plan: p }) && e@ == engine && p@
            == plan
    } else {
        result is Ok
    }
}

/// Decides on a plan's version from the answers to the three questions. The
/// first question that was answered with no decides the error.
pub fn judge(
    plan: &str,
    engine: &str,
    requirement_read: bool,
    engine_read: bool,
    admitted: bool,
) -> (result: Result<(), VersionError>)
    ensures
        verdict(plan@, engine@, requirement_read, engine_read, admitted, result),
{
    if !requirement_read {
        Err(VersionError::Requirement { plan: String::from_str(plan) })
    } else if !engine_read {
        Err(
            VersionError::EngineVersion {
                engine: String::from_str(engine),
                plan: String::from_str(plan),
            },
        )
    } else if !admitted {
        Err(
            VersionError::Incompatible {
                engine: String::from_str(engine),
                plan: String::from_str(plan),
            },
        )
    } else {
        Ok(())
    }
}

/// The engine's own version, read from [`ENGINE_VERSION`].
pub fn current_version() -> (result: Result<SemanticVersion, semver::Error>)
    ensures
        result is Ok <==> is_version_text(ENGINE_VERSION@),
        result matches Ok(version) ==> version@ == ENGINE_VERSION@,
{
    SemanticVersion::parse(ENGINE_VERSION)
}

/// Accepts `plan_version` only if `engine` satisfies the requirement of
/// exactly that version.
pub fn ensure_compatible(plan_version: SemanticVersion, engine: &SemanticVersion) -> (result:
    Result<SemanticVersion, VersionError>)
    ensures
        result matches Ok(version) ==> version == plan_version,
        verdict(
            plan_version@,
            engine@,
            is_requirement_text(exact_requirement(plan_version@)),
            true,
            requirement_matches(exact_requirement(plan_version@), engine@),
            match result {
                Ok(_) => Ok(()),
                Err(error) => Err(error),
            },
        ),
{
    let mut wanted = String::from_str("=");
    wanted.append(plan_version.as_str());
    let decided = match VersionRequirement::parse(wanted.as_str()) {
        Ok(requirement) => {
            let admitted = requirement.matches(engine);
            judge(plan_version.as_str(), engine.as_str(), true, true, admitted)
        },
        Err(_) => judge(plan_version.as_str(), engine.as_str(), false, true, false),
    };
    match decided {
        Ok(()) => Ok(plan_version),
        Err(error) => Err(error),
    }
}

/// Accepts `plan_version` only if this engine's version satisfies the
/// requirement of exactly that version.
pub fn ensure_version(plan_version: SemanticVersion) -> (result: Result<
    SemanticVersion,
    VersionError,
>)
    ensures
        result matches Ok(version) ==> version == plan_version,
        verdict(
            plan_version@,
            ENGINE_VERSION@,
            is_requirement_text(exact_requirement(plan_version@)),
            is_version_text(ENGINE_VERSION@),
            requirement_matches(exact_requirement(plan_version@), ENGINE_VERSION@),
            match result {
                Ok(_) => Ok(()),
                Err(error) => Err(error),
            },
        ),
{
    let mut wanted = String::from_str("=");
    wanted.append(plan_version.as_str());
    let requirement = VersionRequirement::parse(wanted.as_str());
    let engine = current_version();
    let decided = match (requirement, engine) {
        (Ok(requirement), Ok(engine)) => {
            let admitted = requirement.matches(&engine);
            judge(plan_version.as_str(), ENGINE_VERSION, true, true, admitted)
        },
        (Ok(_), Err(_)) => judge(plan_version.as_str(), ENGINE_VERSION, true, false, false),
        (Err(_), _) => judge(plan_version.as_str(), ENGINE_VERSION, false, false, false),
    };
    match decided {
        Ok(()) => Ok(plan_version),
        Err(error) => Err(error),
    }
}

} // verus!
