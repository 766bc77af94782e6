use decomp_settings::config::{Config, DecompmeOpts, ToolOpts};
use decomp_settings::error::DecompSettingsError;
use decomp_settings::loader::{load_config, parse_config, ConfigScan};
use decomp_settings::value::{GenericValue, Numeric};

const PROJECT: &str = "\
name: Dr. Mario 64
github: https://github.com/AngheloAlf/drmario64
platform: n64
build_system: make
versions:
  - name: us
    fullname: US
    sha1: 8f2fb4c7b1b4f4b4d1e8b4b3e5f3c6a1b2c3d4e5
    paths:
      target: config/us/baserom_decompressed.us.z64
      build_dir: build/us
      map: build/us/drmario64.us.map
      compiled_target: build/us/drmario64_uncompressed.us.z64
";

const ARBITRARY_TOOL: &str = "\
name: Arbitrary
platform: n64
versions:
  - name: us
    fullname: US
    paths:
      target: baserom.z64
tools:
  arbitrary_tool:
    meowp: 125
    others:
      - thing:
          stuff: 1
      - thing2:
          stuff: 2
";

fn number(v: &GenericValue) -> u64 {
    match v {
        GenericValue::Number(Numeric::PosInt(n)) => *n,
        other => panic!("not a non-negative integer: {:?}", other),
    }
}

fn item(v: &GenericValue, i: usize) -> &GenericValue {
    match v {
        GenericValue::List(l) => &l[i],
        other => panic!("not a list: {:?}", other),
    }
}

/// Drives a search from `start` where `files` are the regular files that exist.
fn run_scan(start: &str, start_is_dir: bool, files: &[&str]) -> Result<String, DecompSettingsError> {
    let mut scan = ConfigScan::begin(start, start_is_dir)?;
    for _ in 0..64 {
        let candidate = scan.candidate();
        let found = files.contains(&candidate.as_str());
        if let Some(outcome) = scan.step(found) {
            return outcome;
        }
    }
    panic!("the search did not end");
}

#[test]
fn test_read_config() {
    let config = load_config("test/decomp.yaml", Some(PROJECT)).unwrap();
    assert_eq!(config.platform, "n64");
}

#[test]
fn test_scan_for_config() {
    let result = run_scan("/home/user/project/src", true, &[]);
    assert!(result.is_err());
}

#[test]
fn test_scan_for_config_from() {
    let path = run_scan("test/subdir", true, &["test/decomp.yaml"]).unwrap();
    let config = load_config(&path, Some(PROJECT)).unwrap();
    assert!(config.platform == "n64");
}

#[test]
fn test_read_config_arbitrary_tool() {
    let config = load_config("test/arbitrary_tool.yaml", Some(ARBITRARY_TOOL)).unwrap();
    let arbitrary_tool_enum = config.get_tool("arbitrary_tool").unwrap();
    let ToolOpts::Other(tool_value) = arbitrary_tool_enum else {
        panic!("Expected ToolOpts::Other, got {:?}", arbitrary_tool_enum);
    };
    let v = &tool_value.0;
    assert_eq!(number(v.get("meowp").unwrap()), 125);
    let others = v.get("others").unwrap();
    assert_eq!(number(item(others, 0).get("thing").unwrap().get("stuff").unwrap()), 1);
    assert_eq!(number(item(others, 1).get("thing2").unwrap().get("stuff").unwrap()), 2);
}

#[test]
fn candidate_is_descriptor_inside_current_directory() {
    let scan = ConfigScan::begin("test/subdir", true).unwrap();
    assert_eq!(scan.candidate(), "test/subdir/decomp.yaml");
}

#[test]
fn scan_finds_descriptor_in_start_directory() {
    let path = run_scan("a/b/c", true, &["a/b/c/decomp.yaml", "a/decomp.yaml"]).unwrap();
    assert_eq!(path, "a/b/c/decomp.yaml");
}

#[test]
fn scan_finds_nearest_ancestor_two_levels_up() {
    let path = run_scan("/srv/game/src/code", true, &["/srv/game/decomp.yaml", "/srv/decomp.yaml"]).unwrap();
    assert_eq!(path, "/srv/game/decomp.yaml");
}

#[test]
fn scan_from_a_file_or_missing_start_fails() {
    assert_eq!(
        run_scan("project/decomp.yaml", false, &[]),
        Err(DecompSettingsError::ConfigScanError("project/decomp.yaml".to_string()))
    );
}

#[test]
fn scan_gives_up_at_root() {
    assert_eq!(
        run_scan("/var/lib/project", true, &["/var/lib/project/other.yaml"]),
        Err(DecompSettingsError::ConfigNotFound("/var/lib/project".to_string()))
    );
}

#[test]
fn scan_step_ascends_to_parent() {
    let mut scan = ConfigScan::begin("x/y", true).unwrap();
    assert!(scan.step(false).is_none());
    assert_eq!(scan.candidate(), "x/decomp.yaml");
    assert_eq!(scan.step(true), Some(Ok("x/decomp.yaml".to_string())));
}

#[test]
fn unreadable_file_is_read_error() {
    assert_eq!(
        load_config("missing/decomp.yaml", None).unwrap_err(),
        DecompSettingsError::ConfigReadError("missing/decomp.yaml".to_string())
    );
}

#[test]
fn project_fields_are_loaded() {
    let config: Config = parse_config(PROJECT).unwrap();
    assert_eq!(config.name, "Dr. Mario 64");
    assert_eq!(config.github.as_deref(), Some("https://github.com/AngheloAlf/drmario64"));
    assert_eq!(config.build_system.as_deref(), Some("make"));
    assert_eq!(config.versions.len(), 1);
    let us = &config.versions[0];
    assert_eq!(us.fullname, "US");
    assert_eq!(us.sha1.as_deref(), Some("8f2fb4c7b1b4f4b4d1e8b4b3e5f3c6a1b2c3d4e5"));
    assert_eq!(us.paths.entries.len(), 4);
    assert_eq!(us.paths.get("map").map(|p| p.as_str()), Some("build/us/drmario64.us.map"));
    assert_eq!(us.paths.get("elf"), None);
    assert!(config.tools.is_none());
}

#[test]
fn minimal_descriptor_has_no_optional_values() {
    let config = parse_config("name: m\nplatform: gc\nversions: []\n").unwrap();
    assert_eq!(config.name, "m");
    assert_eq!(config.platform, "gc");
    assert!(config.versions.is_empty());
    assert!(config.github.is_none());
    assert!(config.website.is_none());
    assert!(config.discord.is_none());
    assert!(config.build_system.is_none());
    assert!(config.default_version.is_none());
    assert!(config.tools.is_none());
}

#[test]
fn null_optional_field_has_no_value() {
    let config = parse_config("name: m\nplatform: gc\nwebsite: ~\ntools: ~\nversions: []\n").unwrap();
    assert!(config.website.is_none());
    assert!(config.tools.is_none());
}

#[test]
fn empty_tools_map_is_kept() {
    let config = parse_config("name: m\nplatform: gc\ntools: {}\nversions: []\n").unwrap();
    assert_eq!(config.tools.map(|t| t.len()), Some(0));
}

#[test]
fn end_to_end_default_version() {
    let text = "platform: n64\nname: p\ndefault_version: US\nversions:\n  - name: US\n    fullname: USA\n    paths:\n      baserom: a.z64\n";
    let config = parse_config(text).unwrap();
    assert_eq!(config.platform, "n64");
    assert_eq!(config.get_default_version().unwrap().name, "US");
}

fn is_format_error(r: Result<Config, DecompSettingsError>) -> bool {
    matches!(r, Err(DecompSettingsError::ConfigFormatError(_)))
}

#[test]
fn unknown_top_level_field_is_format_error() {
    assert!(is_format_error(parse_config("name: m\nplatform: gc\nversions: []\nplatfrom: n64\n")));
}

#[test]
fn unknown_version_field_is_format_error() {
    let text = "name: m\nplatform: gc\nversions:\n  - name: a\n    fullname: A\n    paths: {}\n    extra: 1\n";
    assert!(is_format_error(parse_config(text)));
}

#[test]
fn missing_required_field_is_format_error() {
    assert!(is_format_error(parse_config("name: m\nversions: []\n")));
    let text = "name: m\nplatform: gc\nversions:\n  - name: a\n    fullname: A\n";
    assert!(is_format_error(parse_config(text)));
}

#[test]
fn wrong_type_is_format_error() {
    assert!(is_format_error(parse_config("name: m\nplatform: 64\nversions: []\n")));
    assert!(is_format_error(parse_config("name: m\nplatform: gc\nversions: {}\n")));
    assert!(is_format_error(parse_config("name: m\nplatform: gc\ngithub: [1]\nversions: []\n")));
    assert!(is_format_error(parse_config("name: m\nplatform: gc\ntools: [1]\nversions: []\n")));
}

#[test]
fn malformed_yaml_is_format_error() {
    assert!(is_format_error(parse_config("name: [unclosed\n")));
    assert!(is_format_error(parse_config("- just\n- a list\n")));
    assert!(is_format_error(load_config("d.yaml", Some(""))));
}

const TOOLS: &str = "\
name: t
platform: n64
versions: []
tools:
  decompme:
    preset: 5
  permuter:
    decompme_compilers:
      ido7.1: ido7.1
      gcc2.7.2kmc: gcc2.7.2kmc
  frogress:
    project: drmario64
    versions:
      us:
        version: us
      jp:
        version: jp
  lookalike:
    preset: 9
  negative:
    preset: -1
  tagged:
    value: !custom 7
    ratio: 1.5
    flag: true
    none: ~
";

fn tool<'a>(config: &'a Config, name: &str) -> &'a ToolOpts {
    config.get_tool(name).unwrap()
}

#[test]
fn decompme_shape_is_decoded() {
    let config = parse_config(TOOLS).unwrap();
    match tool(&config, "decompme") {
        ToolOpts::Decompme(d) => assert_eq!(*d, DecompmeOpts { preset: 5 }),
        other => panic!("{:?}", other),
    }
    assert!(tool(&config, "decompme").raw().is_none());
}

#[test]
fn earlier_shape_wins_for_any_tool() {
    let config = parse_config(TOOLS).unwrap();
    assert!(matches!(tool(&config, "lookalike"), ToolOpts::Decompme(DecompmeOpts { preset: 9 })));
}

#[test]
fn negative_preset_is_kept_raw() {
    let config = parse_config(TOOLS).unwrap();
    let raw = tool(&config, "negative").raw().unwrap();
    assert!(matches!(raw.get("preset"), Some(GenericValue::Number(Numeric::NegInt(-1)))));
}

#[test]
fn permuter_shape_is_decoded() {
    let config = parse_config(TOOLS).unwrap();
    match tool(&config, "permuter") {
        ToolOpts::Permuter(p) => {
            assert_eq!(
                p.decompme_compilers,
                vec![
                    ("ido7.1".to_string(), "ido7.1".to_string()),
                    ("gcc2.7.2kmc".to_string(), "gcc2.7.2kmc".to_string())
                ]
            );
        },
        other => panic!("{:?}", other),
    }
}

#[test]
fn frogress_shape_is_decoded() {
    let config = parse_config(TOOLS).unwrap();
    match tool(&config, "frogress") {
        ToolOpts::Frogress(f) => {
            assert_eq!(f.project, "drmario64");
            assert_eq!(f.versions.len(), 2);
            assert_eq!(f.versions[0].0, "us");
            assert_eq!(f.versions[0].1.version, "us");
            assert_eq!(f.versions[1].0, "jp");
            assert_eq!(f.versions[1].1.version, "jp");
        },
        other => panic!("{:?}", other),
    }
}

#[test]
fn raw_settings_keep_every_scalar_and_unwrap_tags() {
    let config = parse_config(TOOLS).unwrap();
    let raw = tool(&config, "tagged").raw().unwrap();
    assert_eq!(number(raw.get("value").unwrap()), 7);
    assert!(matches!(raw.get("ratio"), Some(GenericValue::Number(Numeric::Float(s))) if s == "1.5"));
    assert!(matches!(raw.get("flag"), Some(GenericValue::Bool(true))));
    assert!(matches!(raw.get("none"), Some(GenericValue::Null)));
    assert!(raw.get("missing").is_none());
    match tool(&config, "tagged") {
        ToolOpts::Other(a) => match &a.0 {
            GenericValue::Mapping(e) => assert_eq!(e.len(), 4),
            other => panic!("{:?}", other),
        },
        other => panic!("{:?}", other),
    }
}

#[test]
fn unknown_tool_is_absent() {
    let config = parse_config(TOOLS).unwrap();
    assert!(config.get_tool("nope").is_none());
}

#[test]
fn cloned_settings_hold_the_same_data() {
    let config = parse_config(TOOLS).unwrap();
    let copy = tool(&config, "tagged").clone();
    let raw = copy.raw().unwrap();
    assert_eq!(number(raw.get("value").unwrap()), 7);
    assert!(matches!(raw.get("ratio"), Some(GenericValue::Number(Numeric::Float(s))) if s == "1.5"));
    match tool(&config, "permuter").clone() {
        ToolOpts::Permuter(p) => assert_eq!(p.decompme_compilers.len(), 2),
        other => panic!("{:?}", other),
    }
    match tool(&config, "frogress").clone() {
        ToolOpts::Frogress(f) => assert_eq!(f.versions[1].1.version, "jp"),
        other => panic!("{:?}", other),
    }
}

#[test]
fn cloned_arbitrary_tool_keeps_nested_lists() {
    let config = parse_config(ARBITRARY_TOOL).unwrap();
    let ToolOpts::Other(a) = config.get_tool("arbitrary_tool").unwrap() else {
        panic!("not kept raw");
    };
    let v = a.clone().into_inner();
    let others = v.get("others").unwrap();
    assert_eq!(number(item(others, 1).get("thing2").unwrap().get("stuff").unwrap()), 2);
}
