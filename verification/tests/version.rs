use nix_installer::version::{
    current_version, ensure_compatible, ensure_version, judge, SemanticVersion, VersionError,
    VersionRequirement, ENGINE_VERSION,
};

#[test]
fn ensure_version_allows_compatible() {
    let good_version = SemanticVersion::parse(ENGINE_VERSION).unwrap();
    let accepted = ensure_version(good_version).unwrap();
    assert_eq!(accepted.as_str(), ENGINE_VERSION);
}

#[test]
fn ensure_version_denies_incompatible() {
    let bad_version = SemanticVersion::parse("9999999999999.9999999999.99999999").unwrap();
    let refused = ensure_version(bad_version);
    assert!(refused.is_err());
    let err = refused.unwrap_err();
    assert!(matches!(err, VersionError::Incompatible { .. }));
    let message = err.message();
    assert!(message.contains("9999999999999.9999999999.99999999"));
    assert!(message.contains(ENGINE_VERSION));
}

#[test]
fn current_version_is_the_engine_version() {
    assert_eq!(ENGINE_VERSION, "0.1.0");
    assert_eq!(current_version().unwrap().as_str(), "0.1.0");
}

#[test]
fn parse_accepts_versions_and_refuses_the_rest() {
    assert_eq!(SemanticVersion::parse("1.2.3").unwrap().as_str(), "1.2.3");
    assert_eq!(
        SemanticVersion::parse("1.2.3-alpha.1+build.5").unwrap().as_str(),
        "1.2.3-alpha.1+build.5"
    );
    assert!(SemanticVersion::parse("").is_err());
    assert!(SemanticVersion::parse("1.2").is_err());
    assert!(SemanticVersion::parse("01.2.3").is_err());
    assert!(SemanticVersion::parse("=1.2.3").is_err());
    assert!(SemanticVersion::parse("1.q.r").is_err());
}

#[test]
fn requirement_parse_and_matches() {
    let exact = VersionRequirement::parse("=1.2.3").unwrap();
    assert_eq!(exact.as_str(), "=1.2.3");
    assert!(exact.matches(&SemanticVersion::parse("1.2.3").unwrap()));
    assert!(!exact.matches(&SemanticVersion::parse("1.2.4").unwrap()));
    assert!(!exact.matches(&SemanticVersion::parse("1.3.3").unwrap()));
    assert!(!exact.matches(&SemanticVersion::parse("2.2.3").unwrap()));
    assert!(!exact.matches(&SemanticVersion::parse("1.2.3-alpha").unwrap()));
    assert!(exact.matches(&SemanticVersion::parse("1.2.3+build").unwrap()));
    let caret = VersionRequirement::parse("1.2.3").unwrap();
    assert!(caret.matches(&SemanticVersion::parse("1.2.4").unwrap()));
    assert!(VersionRequirement::parse("not a requirement").is_err());
    assert!(VersionRequirement::parse("=").is_err());
}

#[test]
fn ensure_compatible_wants_exactly_the_plan_version() {
    let engine = SemanticVersion::parse("1.2.3").unwrap();
    let same = ensure_compatible(SemanticVersion::parse("1.2.3").unwrap(), &engine).unwrap();
    assert_eq!(same.as_str(), "1.2.3");
    for other in ["1.2.4", "1.2.2", "1.3.0", "0.2.3", "2.0.0", "1.2.3-rc.1"] {
        let refused = ensure_compatible(SemanticVersion::parse(other).unwrap(), &engine);
        match refused {
            Err(VersionError::Incompatible { engine, plan }) => {
                assert_eq!(engine, "1.2.3");
                assert_eq!(plan, other);
            },
            _ => panic!("{} should have been refused", other),
        }
    }
}

#[test]
fn ensure_compatible_keeps_prereleases_apart() {
    let engine = SemanticVersion::parse("1.2.3-rc.1").unwrap();
    assert!(ensure_compatible(SemanticVersion::parse("1.2.3-rc.1").unwrap(), &engine).is_ok());
    assert!(ensure_compatible(SemanticVersion::parse("1.2.3-rc.2").unwrap(), &engine).is_err());
    assert!(ensure_compatible(SemanticVersion::parse("1.2.3").unwrap(), &engine).is_err());
}

#[test]
fn ensure_compatible_ignores_build_metadata() {
    let engine = SemanticVersion::parse("1.2.3+linux").unwrap();
    assert!(ensure_compatible(SemanticVersion::parse("1.2.3+darwin").unwrap(), &engine).is_ok());
    assert!(ensure_compatible(SemanticVersion::parse("1.2.3").unwrap(), &engine).is_ok());
}

#[test]
fn judge_answers_by_the_first_no() {
    assert!(judge("1.0.0", "2.0.0", true, true, true).is_ok());
    assert!(matches!(
        judge("1.0.0", "2.0.0", false, true, true),
        Err(VersionError::Requirement { plan }) if plan == "1.0.0"
    ));
    assert!(matches!(
        judge("1.0.0", "2.0.0", false, false, false),
        Err(VersionError::Requirement { .. })
    ));
    assert!(matches!(
        judge("1.0.0", "2.0.0", true, false, true),
        Err(VersionError::EngineVersion { engine, plan }) if engine == "2.0.0" && plan == "1.0.0"
    ));
    assert!(matches!(
        judge("1.0.0", "2.0.0", true, true, false),
        Err(VersionError::Incompatible { engine, plan }) if engine == "2.0.0" && plan == "1.0.0"
    ));
}

#[test]
fn messages_name_the_versions() {
    let requirement = VersionError::Requirement { plan: String::from("1.0.0") };
    assert_eq!(
        requirement.message(),
        "Could not parse version `1.0.0` as a version requirement, please report this"
    );
    let engine = VersionError::EngineVersion { engine: String::from("x"), plan: String::from("1.0.0") };
    assert_eq!(
        engine.message(),
        "Could not parse `nix-installer`'s version `x` as a valid version according to Semantic Versioning, therefore the plan version (1.0.0) compatibility cannot be checked"
    );
    let incompatible =
        VersionError::Incompatible { engine: String::from("2.0.0"), plan: String::from("1.0.0") };
    assert_eq!(
        incompatible.message(),
        "This version of `nix-installer` (2.0.0) is not compatible with this plan's version (1.0.0), you probably are trying to install with a new version of `nix-installer` which is not compatible with version 1.0.0 plans. To upgrade Nix, try `sudo -i nix upgrade-nix`. To reinstall Nix, try `/nix/nix-installer uninstall` then installing again from the instructions on https://github.com/DeterminateSystems/nix-installer. To continue using this plan, download the matching release from https://github.com/DeterminateSystems/nix-installer/releases."
    );
}
