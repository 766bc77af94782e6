//! Decoding a generic value into the typed descriptor. Every record is strict:
//! a key that is not one of its fields, or a field given twice, fails the
//! decoding. Optional fields may be absent or null and then hold no value.
use vstd::prelude::*;
use crate::config::{Config, ToolOpts, Version, VersionPaths};
use crate::error::DecompSettingsError;
use crate::tools::{classify_tool, tool_decoded};
use crate::value::{
    GenericValue, all_distinct_keys, all_text_keys, distinct_keys, entries_of, field_text, find_entry, is_record,
    is_text_map, key_text, lemma_lookup_absent, lookup, names_view, opt_view, optional_text_field, optional_text_ok, record_shape,
    text_field, text_keys, text_map, text_of, text_pairs,
};

verus! {

pub open spec fn config_fields() -> Seq<Seq<char>> {
    seq![
        "name"@,
        "github"@,
        "website"@,
        "discord"@,
        "platform"@,
        "build_system"@,
        "default_version"@,
        "versions"@,
        "tools"@,
    ]
}

pub open spec fn version_fields() -> Seq<Seq<char>> {
    seq!["name"@, "fullname"@, "sha1"@, "paths"@]
}

/// The items of a list; none for any other value.
pub open spec fn items_of(v: GenericValue) -> Seq<GenericValue> {
    match v {
        GenericValue::List(l) => l@,
        _ => Seq::empty(),
    }
}

/// A value that decodes to a version: a record with the string fields `name`
/// and `fullname`, an optional string `sha1`, and `paths`, a mapping from
/// strings to strings.
pub open spec fn version_ok(v: GenericValue) -> bool {
    let e = entries_of(v);
    &&& v is Mapping
    &&& is_record(e, version_fields())
    &&& field_text(e, "name"@) is Some
    &&& field_text(e, "fullname"@) is Some
    &&& optional_text_ok(e, "sha1"@)
    &&& lookup(e, "paths"@) matches Some(p) && is_text_map(p)
}

/// `out` holds what the version record `v` holds.
pub open spec fn version_decoded(v: GenericValue, out: Version) -> bool {
    let e = entries_of(v);
    &&& Some(out.name@) == field_text(e, "name"@)
    &&& Some(out.fullname@) == field_text(e, "fullname"@)
    &&& opt_view(out.sha1) == field_text(e, "sha1"@)
    &&& text_pairs(entries_of(lookup(e, "paths"@)->0), out.paths.entries@)
}

/// The `tools` field is absent, null, or a mapping with distinct string keys;
/// any value is accepted as the settings of a tool.
pub open spec fn tools_ok(o: Option<GenericValue>) -> bool {
    match o {
        None => true,
        Some(GenericValue::Null) => true,
        Some(m) => m is Mapping && text_keys(entries_of(m)) && distinct_keys(entries_of(m)),
    }
}

/// `ts` holds each entry of the mapping `m` in order: its key, and its value
/// classified.
pub open spec fn tools_decoded(m: Seq<(GenericValue, GenericValue)>, ts: Seq<(String, ToolOpts)>) -> bool {
    &&& ts.len() == m.len()
    &&& forall|i: int|
        0 <= i < m.len() ==> Some((#[trigger] ts[i]).0@) == text_of(m[i].0) && tool_decoded(m[i].1, ts[i].1)
}

/// A value that decodes to a descriptor.
pub open spec fn config_ok(v: GenericValue) -> bool {
    let e = entries_of(v);
    &&& v is Mapping
    &&& is_record(e, config_fields())
    &&& field_text(e, "name"@) is Some
    &&& optional_text_ok(e, "github"@)
    &&& optional_text_ok(e, "website"@)
    &&& optional_text_ok(e, "discord"@)
    &&& field_text(e, "platform"@) is Some
    &&& optional_text_ok(e, "build_system"@)
    &&& optional_text_ok(e, "default_version"@)
    &&& lookup(e, "versions"@) matches Some(l) && l is List && forall|i: int|
        0 <= i < items_of(l).len() ==> version_ok(#[trigger] items_of(l)[i])
    &&& tools_ok(lookup(e, "tools"@))
}

/// `c` holds what the descriptor value `v` holds.
pub open spec fn config_decoded(v: GenericValue, c: Config) -> bool {
    let e = entries_of(v);
    let l = items_of(lookup(e, "versions"@)->0);
    &&& Some(c.name@) == field_text(e, "name"@)
    &&& opt_view(c.github) == field_text(e, "github"@)
    &&& opt_view(c.website) == field_text(e, "website"@)
    &&& opt_view(c.discord) == field_text(e, "discord"@)
    &&& Some(c.platform@) == field_text(e, "platform"@)
    &&& opt_view(c.build_system) == field_text(e, "build_system"@)
    &&& opt_view(c.default_version) == field_text(e, "default_version"@)
    &&& c.versions@.len() == l.len()
    &&& forall|i: int| 0 <= i < l.len() ==> version_decoded(l[i], #[trigger] c.versions@[i])
    &&& match lookup(e, "tools"@) {
        Some(GenericValue::Mapping(m)) => c.tools matches Some(ts) && tools_decoded(m@, ts@),
        _ => c.tools is None,
    }
}

pub open spec fn required_config_fields() -> Seq<Seq<char>> {
    seq!["name"@, "platform"@, "versions"@]
}

/// A descriptor that gives only the required fields (`name` and `platform`,
/// strings, and `versions`, a list of version records) decodes, and every
/// optional field of the result holds no value.
pub proof fn lemma_minimal_descriptor(v: GenericValue, c: Config)
    requires
        v is Mapping,
        is_record(entries_of(v), required_config_fields()),
        field_text(entries_of(v), "name"@) is Some,
        field_text(entries_of(v), "platform"@) is Some,
        lookup(entries_of(v), "versions"@) matches Some(l) && l is List && forall|i: int|
            0 <= i < items_of(l).len() ==> version_ok(#[trigger] items_of(l)[i]),
    ensures
        config_ok(v),
        config_decoded(v, c) ==> {
            &&& c.github is None
            &&& c.website is None
            &&& c.discord is None
            &&& c.build_system is None
            &&& c.default_version is None
            &&& c.tools is None
        },
{
    let e = entries_of(v);
    reveal_strlit("name");
    reveal_strlit("platform");
    reveal_strlit("versions");
    reveal_strlit("github");
    reveal_strlit("website");
    reveal_strlit("discord");
    reveal_strlit("build_system");
    reveal_strlit("default_version");
    reveal_strlit("tools");
    let optional = seq!["github"@, "website"@, "discord"@, "build_system"@, "default_version"@, "tools"@];
    assert forall|o: int| 0 <= o < optional.len() implies lookup(e, #[trigger] optional[o]) is None by {
        assert(optional[o].len() != 4 && optional[o].len() != 8);
        assert forall|i: int| 0 <= i < e.len() implies text_of(#[trigger] e[i].0) != Some(optional[o]) by {
            let k = text_of(e[i].0)->0;
            assert(required_config_fields().contains(k));
            let j = choose|j: int| 0 <= j < required_config_fields().len() && required_config_fields()[j] == k;
            assert(k.len() == 4 || k.len() == 8);
        }
        lemma_lookup_absent(e, optional[o]);
    }
    assert forall|i: int| 0 <= i < e.len() implies config_fields().contains(#[trigger] text_of(e[i].0)->0) by {
        assert(required_config_fields().contains(text_of(e[i].0)->0));
        let k = text_of(e[i].0)->0;
        let j = choose|j: int| 0 <= j < required_config_fields().len() && required_config_fields()[j] == k;
        if j == 0 {
            assert(config_fields()[0] == k);
        } else if j == 1 {
            assert(config_fields()[4] == k);
        } else {
            assert(config_fields()[7] == k);
        }
    }
}

/// A format error with the given detail.
fn format_error(detail: &str) -> (r: DecompSettingsError)
    ensures
        r matches DecompSettingsError::ConfigFormatError(d) && d@ == detail@,
{
    DecompSettingsError::ConfigFormatError(detail.to_owned())
}

/// The version that the record `v` holds, where it is one.
pub fn decode_version(v: &GenericValue) -> (r: Option<Version>)
    ensures
        r is Some <==> version_ok(*v),
        r matches Some(out) ==> version_decoded(*v, out),
{
    let entries = match v {
        GenericValue::Mapping(e) => e,
        _ => return None,
    };
    let names = vec!["name", "fullname", "sha1", "paths"];
    assert(names_view(names@) =~= version_fields());
    if !record_shape(entries, &names) {
        return None;
    }
    let name = match text_field(entries, "name") {
        Some(s) => s,
        None => return None,
    };
    let fullname = match text_field(entries, "fullname") {
        Some(s) => s,
        None => return None,
    };
    let sha1 = match optional_text_field(entries, "sha1") {
        Ok(o) => o,
        Err(()) => return None,
    };
    let paths = match find_entry(entries, "paths") {
        Some(i) => match text_map(&entries[i].1) {
            Some(p) => p,
            None => return None,
        },
        None => return None,
    };
    Some(Version { name, fullname, sha1, paths: VersionPaths { entries: paths } })
}

/// The versions that the list `v` holds, where it is a list of version
/// records.
pub fn decode_versions(v: &GenericValue) -> (r: Option<Vec<Version>>)
    ensures
        r is Some <==> (v is List && forall|i: int|
            0 <= i < items_of(*v).len() ==> version_ok(#[trigger] items_of(*v)[i])),
        r matches Some(out) ==> out@.len() == items_of(*v).len() && forall|i: int|
            0 <= i < out@.len() ==> version_decoded(items_of(*v)[i], #[trigger] out@[i]),
{
    let l = match v {
        GenericValue::List(l) => l,
        _ => return None,
    };
    let mut out: Vec<Version> = Vec::new();
    let mut i: usize = 0;
    while i < l.len()
        invariant
            *v == GenericValue::List(*l),
            i <= l@.len(),
            out@.len() == i,
            forall|k: int| 0 <= k < i ==> version_ok(#[trigger] l@[k]),
            forall|k: int| 0 <= k < i ==> version_decoded(l@[k], #[trigger] out@[k]),
        decreases l@.len() - i,
    {
        match decode_version(&l[i]) {
            Some(ver) => out.push(ver),
            None => {
                assert(!version_ok(items_of(*v)[i as int]));
                return None;
            },
        }
        i = i + 1;
    }
    Some(out)
}

/// Each entry of the tools mapping `m`, its value classified; none where a
/// key is not a string or two keys are the same.
pub fn decode_tools(m: Vec<(GenericValue, GenericValue)>) -> (r: Option<Vec<(String, ToolOpts)>>)
    ensures
        r is Some <==> text_keys(m@) && distinct_keys(m@),
        r matches Some(ts) ==> tools_decoded(m@, ts@),
{
    if !all_text_keys(&m) || !all_distinct_keys(&m) {
        return None;
    }
    let ghost whole = m@;
    let n = m.len();
    let mut rest = m;
    let mut out: Vec<(String, ToolOpts)> = Vec::new();
    let mut i: usize = 0;
    while rest.len() > 0
        invariant
            text_keys(whole),
            whole.len() == n,
            i + rest@.len() == whole.len(),
            rest@ == whole.skip(i as int),
            out@.len() == i,
            forall|k: int|
                0 <= k < i ==> Some((#[trigger] out@[k]).0@) == text_of(whole[k].0) && tool_decoded(
                    whole[k].1,
                    out@[k].1,
                ),
        decreases rest@.len(),
    {
        let (k, x) = rest.remove(0);
        assert(whole[i as int] == (k, x));
        let kt = key_text(&k);
        assert(text_of(whole[i as int].0) is Some);
        let kt = kt.unwrap();
        let name = kt.clone();
        let t = classify_tool(x);
        out.push((name, t));
        assert(rest@ =~= whole.skip(i + 1));
        i = i + 1;
    }
    Some(out)
}

/// The descriptor that the value `v` holds: a format error where `v` does
/// not follow the schema.
pub fn decode_config(v: GenericValue) -> (r: Result<Config, DecompSettingsError>)
    ensures
        r is Ok <==> config_ok(v),
        r matches Ok(c) ==> config_decoded(v, c),
        r matches Err(e) ==> e is ConfigFormatError,
{
    let mut entries = match v {
        GenericValue::Mapping(e) => e,
        _ => return Err(format_error("the descriptor is not a mapping")),
    };
    let names = vec![
        "name",
        "github",
        "website",
        "discord",
        "platform",
        "build_system",
        "default_version",
        "versions",
        "tools",
    ];
    assert(names_view(names@) =~= config_fields());
    if !record_shape(&entries, &names) {
        return Err(format_error("a key that is not a field, or a field given twice"));
    }
    let name = match text_field(&entries, "name") {
        Some(s) => s,
        None => return Err(format_error("name")),
    };
    let github = match optional_text_field(&entries, "github") {
        Ok(o) => o,
        Err(()) => return Err(format_error("github")),
    };
    let website = match optional_text_field(&entries, "website") {
        Ok(o) => o,
        Err(()) => return Err(format_error("website")),
    };
    let discord = match optional_text_field(&entries, "discord") {
        Ok(o) => o,
        Err(()) => return Err(format_error("discord")),
    };
    let platform = match text_field(&entries, "platform") {
        Some(s) => s,
        None => return Err(format_error("platform")),
    };
    let build_system = match optional_text_field(&entries, "build_system") {
        Ok(o) => o,
        Err(()) => return Err(format_error("build_system")),
    };
    let default_version = match optional_text_field(&entries, "default_version") {
        Ok(o) => o,
        Err(()) => return Err(format_error("default_version")),
    };
    let versions = match find_entry(&entries, "versions") {
        Some(i) => match decode_versions(&entries[i].1) {
            Some(vs) => vs,
            None => return Err(format_error("versions")),
        },
        None => return Err(format_error("versions")),
    };
    let tools = match find_entry(&entries, "tools") {
        None => None,
        Some(i) => {
            let (_, t) = entries.remove(i);
            match t {
                GenericValue::Null => None,
                GenericValue::Mapping(m) => match decode_tools(m) {
                    Some(ts) => Some(ts),
                    None => return Err(format_error("tools")),
                },
                _ => return Err(format_error("tools")),
            }
        },
    };
    Ok(Config { name, github, website, discord, platform, build_system, default_version, versions, tools })
}

} // verus!
