use decomp_settings::config::{Config, Version, VersionPaths};
use decomp_settings::error::DecompSettingsError;

fn version(name: &str, fullname: &str) -> Version {
    Version {
        name: name.to_string(),
        fullname: fullname.to_string(),
        sha1: None,
        paths: VersionPaths { entries: vec![("baserom".to_string(), format!("baserom.{}.z64", name))] },
    }
}

fn config(default_version: Option<&str>, versions: Vec<Version>) -> Config {
    Config {
        name: "project".to_string(),
        github: None,
        website: None,
        discord: None,
        platform: "n64".to_string(),
        build_system: None,
        default_version: default_version.map(|d| d.to_string()),
        versions,
        tools: None,
    }
}

#[test]
fn default_version_unset() {
    let c = config(None, vec![version("US", "USA")]);
    assert_eq!(c.get_default_version(), Err(DecompSettingsError::NoDefaultVersion));
}

#[test]
fn default_version_dangling() {
    let c = config(Some("xx"), vec![version("US", "USA")]);
    assert_eq!(c.get_default_version(), Err(DecompSettingsError::VersionNotFound("xx".to_string())));
}

#[test]
fn default_version_present() {
    let c = config(Some("US"), vec![version("JP", "Japan"), version("US", "USA")]);
    assert_eq!(c.get_default_version(), Ok(version("US", "USA")));
}

#[test]
fn version_lookup_is_exact_and_case_sensitive() {
    let c = config(None, vec![version("us", "lower"), version("US", "upper")]);
    assert_eq!(c.get_version_by_name("US").unwrap().fullname, "upper");
    assert_eq!(c.get_version_by_name("us").unwrap().fullname, "lower");
    assert!(c.get_version_by_name("Us").is_none());
    assert!(c.get_version_by_name("U").is_none());
    assert!(c.get_version_by_name("").is_none());
}

#[test]
fn version_lookup_returns_first_duplicate() {
    let c = config(None, vec![version("A", "first"), version("B", "b"), version("A", "second")]);
    assert_eq!(c.get_version_by_name("A").unwrap().fullname, "first");
}

#[test]
fn version_lookup_copies_everything() {
    let mut v = version("US", "USA");
    v.sha1 = Some("abc".to_string());
    let c = config(None, vec![v.clone()]);
    assert_eq!(c.get_version_by_name("US"), Some(v));
}

#[test]
fn version_lookup_in_empty_list() {
    let c = config(Some("US"), vec![]);
    assert!(c.get_version_by_name("US").is_none());
    assert_eq!(c.get_default_version(), Err(DecompSettingsError::VersionNotFound("US".to_string())));
}
