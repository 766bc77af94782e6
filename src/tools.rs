//! Classification of a tool's settings into one of the known shapes, tried in
//! a fixed order, or else kept as written. A value that happens to fit an
//! earlier shape is taken as that shape: a block whose only field is an
//! integer `preset` is read as decomp.me settings, whichever tool it is for.
use vstd::prelude::*;
use crate::config::{AnyOpts, DecompmeOpts, FrogressOpts, FrogressVersionOpts, PermuterOpts, ToolOpts};
use crate::value::{
    GenericValue, Numeric, all_distinct_keys, all_text_keys, distinct_keys, entries_of, field_text, find_entry,
    is_record, is_text_map, key_text, lookup, names_view, record_shape, text_field, text_keys, text_map, text_of,
    text_pairs,
};

verus! {

pub open spec fn decompme_fields() -> Seq<Seq<char>> {
    seq!["preset"@]
}

pub open spec fn permuter_fields() -> Seq<Seq<char>> {
    seq!["decompme_compilers"@]
}

pub open spec fn frogress_fields() -> Seq<Seq<char>> {
    seq!["project"@, "versions"@]
}

pub open spec fn frogress_version_fields() -> Seq<Seq<char>> {
    seq!["version"@]
}

/// The preset of a value of the decomp.me shape: a record whose one field,
/// `preset`, is a non-negative integer that fits a `usize`.
pub open spec fn decompme_preset(v: GenericValue) -> Option<usize> {
    if v is Mapping && is_record(entries_of(v), decompme_fields()) {
        match lookup(entries_of(v), "preset"@) {
            Some(GenericValue::Number(Numeric::PosInt(n))) => if n <= usize::MAX {
                Some(n as usize)
            } else {
                None
            },
            _ => None,
        }
    } else {
        None
    }
}

/// The permuter shape: a record whose one field, `decompme_compilers`, maps
/// strings to strings.
pub open spec fn permuter_shape(v: GenericValue) -> bool {
    &&& v is Mapping
    &&& is_record(entries_of(v), permuter_fields())
    &&& lookup(entries_of(v), "decompme_compilers"@) matches Some(m) && is_text_map(m)
}

/// The settings of one frogress version: a record whose one field,
/// `version`, is a string.
pub open spec fn frogress_version_shape(v: GenericValue) -> bool {
    &&& v is Mapping
    &&& is_record(entries_of(v), frogress_version_fields())
    &&& field_text(entries_of(v), "version"@) is Some
}

/// The frogress shape: a record of a string `project` and a mapping
/// `versions` from distinct strings to frogress version settings.
pub open spec fn frogress_shape(v: GenericValue) -> bool {
    &&& v is Mapping
    &&& is_record(entries_of(v), frogress_fields())
    &&& field_text(entries_of(v), "project"@) is Some
    &&& lookup(entries_of(v), "versions"@) matches Some(m) && {
        &&& m is Mapping
        &&& text_keys(entries_of(m))
        &&& distinct_keys(entries_of(m))
        &&& forall|i: int|
            0 <= i < entries_of(m).len() ==> frogress_version_shape(#[trigger] entries_of(m)[i].1)
    }
}

/// `p` holds the compilers of a value of the permuter shape, in order.
pub open spec fn permuter_decoded(v: GenericValue, p: PermuterOpts) -> bool {
    text_pairs(entries_of(lookup(entries_of(v), "decompme_compilers"@)->0), p.decompme_compilers@)
}

/// `f` holds the project and the versions of a value of the frogress shape,
/// the versions in order.
pub open spec fn frogress_decoded(v: GenericValue, f: FrogressOpts) -> bool {
    let ve = entries_of(lookup(entries_of(v), "versions"@)->0);
    &&& Some(f.project@) == field_text(entries_of(v), "project"@)
    &&& f.versions@.len() == ve.len()
    &&& forall|i: int|
        0 <= i < ve.len() ==> Some((#[trigger] f.versions@[i]).0@) == text_of(ve[i].0) && Some(
            f.versions@[i].1.version@,
        ) == field_text(entries_of(ve[i].1), "version"@)
}

/// `t` is what the settings value `v` is read as: the first known shape that
/// it fits, else the value itself.
pub open spec fn tool_decoded(v: GenericValue, t: ToolOpts) -> bool {
    if decompme_preset(v) is Some {
        t == ToolOpts::Decompme(DecompmeOpts { preset: decompme_preset(v)->0 })
    } else if permuter_shape(v) {
        t matches ToolOpts::Permuter(p) && permuter_decoded(v, p)
    } else if frogress_shape(v) {
        t matches ToolOpts::Frogress(f) && frogress_decoded(v, f)
    } else {
        t == ToolOpts::Other(AnyOpts(v))
    }
}

/// A mapping whose one entry is `preset`, a non-negative integer that fits a
/// `usize`, is read as decomp.me settings with that preset, whichever tool it
/// is given for.
pub proof fn lemma_preset_only_is_decompme(v: GenericValue, k: String, n: u64, t: ToolOpts)
    requires
        v matches GenericValue::Mapping(e) && e@ == seq![(GenericValue::String(k), GenericValue::Number(Numeric::PosInt(n)))],
        k@ == "preset"@,
        n <= usize::MAX,
        tool_decoded(v, t),
    ensures
        t == ToolOpts::Decompme(DecompmeOpts { preset: n as usize }),
{
    let e = entries_of(v);
    assert(text_of(e[0].0) == Some("preset"@));
    assert(decompme_fields()[0] == "preset"@);
    assert(is_record(e, decompme_fields()));
    assert(lookup(e, "preset"@) == Some(GenericValue::Number(Numeric::PosInt(n))));
}

/// Settings with a key that none of the known shapes declares (or a key that
/// is not a string) are kept as they were written: `raw` gives back that very
/// value.
pub proof fn lemma_foreign_key_kept(v: GenericValue, i: int, t: ToolOpts)
    requires
        v is Mapping,
        0 <= i < entries_of(v).len(),
        text_of(entries_of(v)[i].0) is None || {
            let k = text_of(entries_of(v)[i].0)->0;
            &&& k != "preset"@
            &&& k != "decompme_compilers"@
            &&& k != "project"@
            &&& k != "versions"@
        },
        tool_decoded(v, t),
    ensures
        t == ToolOpts::Other(AnyOpts(v)),
{
    let e = entries_of(v);
    if text_of(e[i].0) is Some {
        let k = text_of(e[i].0)->0;
        assert(!decompme_fields().contains(k)) by {
            assert(decompme_fields()[0] == "preset"@);
        }
        assert(!permuter_fields().contains(k)) by {
            assert(permuter_fields()[0] == "decompme_compilers"@);
        }
        assert(!frogress_fields().contains(k)) by {
            assert(frogress_fields()[0] == "project"@);
            assert(frogress_fields()[1] == "versions"@);
        }
    }
}

/// The decomp.me settings that `v` holds, where it has that shape.
pub fn as_decompme(v: &GenericValue) -> (r: Option<DecompmeOpts>)
    ensures
        r == (match decompme_preset(*v) {
            Some(n) => Some(DecompmeOpts { preset: n }),
            None => None,
        }),
{
    let entries = match v {
        GenericValue::Mapping(e) => e,
        _ => return None,
    };
    let names = vec!["preset"];
    assert(names_view(names@) =~= decompme_fields());
    if !record_shape(entries, &names) {
        return None;
    }
    match find_entry(entries, "preset") {
        Some(i) => match &entries[i].1 {
            GenericValue::Number(Numeric::PosInt(n)) => {
                if *n <= usize::MAX as u64 {
                    Some(DecompmeOpts { preset: *n as usize })
                } else {
                    None
                }
            },
            _ => None,
        },
        None => None,
    }
}

/// The permuter settings that `v` holds, where it has that shape.
pub fn as_permuter(v: &GenericValue) -> (r: Option<PermuterOpts>)
    ensures
        r is Some <==> permuter_shape(*v),
        r matches Some(p) ==> permuter_decoded(*v, p),
{
    let entries = match v {
        GenericValue::Mapping(e) => e,
        _ => return None,
    };
    let names = vec!["decompme_compilers"];
    assert(names_view(names@) =~= permuter_fields());
    if !record_shape(entries, &names) {
        return None;
    }
    match find_entry(entries, "decompme_compilers") {
        Some(i) => match text_map(&entries[i].1) {
            Some(m) => Some(PermuterOpts { decompme_compilers: m }),
            None => None,
        },
        None => None,
    }
}

/// The settings of one frogress version that `v` holds, where it has that
/// shape.
pub fn as_frogress_version(v: &GenericValue) -> (r: Option<FrogressVersionOpts>)
    ensures
        r is Some <==> frogress_version_shape(*v),
        r matches Some(o) ==> Some(o.version@) == field_text(entries_of(*v), "version"@),
{
    let entries = match v {
        GenericValue::Mapping(e) => e,
        _ => return None,
    };
    let names = vec!["version"];
    assert(names_view(names@) =~= frogress_version_fields());
    if !record_shape(entries, &names) {
        return None;
    }
    match text_field(entries, "version") {
        Some(version) => Some(FrogressVersionOpts { version }),
        None => None,
    }
}

/// The frogress settings that `v` holds, where it has that shape.
pub fn as_frogress(v: &GenericValue) -> (r: Option<FrogressOpts>)
    ensures
        r is Some <==> frogress_shape(*v),
        r matches Some(f) ==> frogress_decoded(*v, f),
{
    let entries = match v {
        GenericValue::Mapping(e) => e,
        _ => return None,
    };
    let names = vec!["project", "versions"];
    assert(names_view(names@) =~= frogress_fields());
    if !record_shape(entries, &names) {
        return None;
    }
    let project = match text_field(entries, "project") {
        Some(p) => p,
        None => return None,
    };
    let m = match find_entry(entries, "versions") {
        Some(i) => &entries[i].1,
        None => return None,
    };
    let ve = match m {
        GenericValue::Mapping(e) => e,
        _ => return None,
    };
    if !all_text_keys(ve) || !all_distinct_keys(ve) {
        return None;
    }
    let mut versions: Vec<(String, FrogressVersionOpts)> = Vec::new();
    let mut i: usize = 0;
    while i < ve.len()
        invariant
            *v == GenericValue::Mapping(*entries),
            lookup(entries@, "versions"@) == Some(*m),
            *m == GenericValue::Mapping(*ve),
            i <= ve@.len(),
            text_keys(ve@),
            versions@.len() == i,
            forall|k: int| 0 <= k < i ==> frogress_version_shape(#[trigger] ve@[k].1),
            forall|k: int|
                0 <= k < i ==> Some((#[trigger] versions@[k]).0@) == text_of(ve@[k].0) && Some(
                    versions@[k].1.version@,
                ) == field_text(entries_of(ve@[k].1), "version"@),
        decreases ve@.len() - i,
    {
        let (k, x) = &ve[i];
        let kt = key_text(k);
        assert(text_of(ve@[i as int].0) is Some);
        let kt = kt.unwrap();
        match as_frogress_version(x) {
            Some(o) => versions.push((kt.clone(), o)),
            None => {
                assert(!frogress_version_shape(entries_of(*m)[i as int].1));
                return None;
            },
        }
        i = i + 1;
    }
    Some(FrogressOpts { project, versions })
}

/// Reads the settings value of one tool: as decomp.me settings, else as
/// permuter settings, else as frogress settings, else kept as written.
pub fn classify_tool(v: GenericValue) -> (t: ToolOpts)
    ensures
        tool_decoded(v, t),
{
    if let Some(d) = as_decompme(&v) {
        return ToolOpts::Decompme(d);
    }
    if let Some(p) = as_permuter(&v) {
        return ToolOpts::Permuter(p);
    }
    if let Some(f) = as_frogress(&v) {
        return ToolOpts::Frogress(f);
    }
    ToolOpts::Other(AnyOpts(v))
}

} // verus!
