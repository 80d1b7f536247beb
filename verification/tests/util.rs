use srd::rules::SRDRulesVersion;
use srd::skill::{srd_skill_string, SkillId};
use srd::util::{is_value_valid, PackageVersion};

#[test]
fn package_version_from_env() {
    let version = PackageVersion::from_env();
    assert_ne!(version, PackageVersion::new(0, 0, 0));
}

#[test]
fn util_package_version_from_env() {
    let version = PackageVersion::from_env();
    assert_ne!(version, PackageVersion::new(0, 0, 0));
}

#[test]
fn value_validation_is_inclusive() {
    assert!(is_value_valid(1, 1, 30));
    assert!(is_value_valid(30, 1, 30));
    assert!(!is_value_valid(0, 1, 30));
    assert!(!is_value_valid(31, 1, 30));
}

#[test]
fn skill_strings_for_srd_ids() {
    assert_eq!(srd_skill_string(SkillId(0)), "acrobatics");
    assert_eq!(srd_skill_string(SkillId(8)), "investigation");
    assert_eq!(srd_skill_string(SkillId(15)), "sleight of hand");
    assert_eq!(srd_skill_string(SkillId(17)), "survival");
}

#[test]
fn rules_version_combines_compendium_and_package() {
    let version = SRDRulesVersion::new(4, PackageVersion::new(0, 1, 0));
    assert_eq!(version, SRDRulesVersion::new(4, PackageVersion::from_env()));
}
