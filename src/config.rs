//! The typed records of the descriptor and the queries over a loaded one.
use vstd::prelude::*;
use crate::error::DecompSettingsError;
use crate::value::{GenericValue, same_value, text_eq};

verus! {

/// Settings for the decomp.me platform.
#[derive(Clone, Copy, Debug, PartialEq, Eq)]
pub struct DecompmeOpts {
    pub preset: usize,
}

/// A copy of a list of string pairs.
pub fn copy_pairs(v: &Vec<(String, String)>) -> (r: Vec<(String, String)>)
    ensures
        r@ == v@,
{
    let mut out: Vec<(String, String)> = Vec::new();
    let mut i: usize = 0;
    while i < v.len()
        invariant
            i <= v@.len(),
            out@ == v@.subrange(0, i as int),
        decreases v@.len() - i,
    {
        let (k, x) = &v[i];
        out.push((k.clone(), x.clone()));
        assert(out@ =~= v@.subrange(0, i + 1));
        i = i + 1;
    }
    assert(out@ =~= v@);
    out
}

/// Settings for decomp-permuter: compiler names as decomp.me knows them,
/// keyed by the project's own compiler names.
#[derive(Debug, PartialEq, Eq)]
pub struct PermuterOpts {
    pub decompme_compilers: Vec<(String, String)>,
}

impl Clone for PermuterOpts {
    fn clone(&self) -> (r: Self)
        ensures
            r.decompme_compilers@ == self.decompme_compilers@,
    {
        PermuterOpts { decompme_compilers: copy_pairs(&self.decompme_compilers) }
    }
}

/// The frogress settings of one version of the project.
#[derive(Debug, PartialEq, Eq)]
pub struct FrogressVersionOpts {
    pub version: String,
}

impl Clone for FrogressVersionOpts {
    fn clone(&self) -> (r: Self)
        ensures
            r == *self,
    {
        FrogressVersionOpts { version: self.version.clone() }
    }
}

/// Settings for frogress.
#[derive(Debug, PartialEq, Eq)]
pub struct FrogressOpts {
    /// The project slug as defined in the frogress database.
    pub project: String,
    /// The frogress settings for each version of the project, keyed by
    /// version name.
    pub versions: Vec<(String, FrogressVersionOpts)>,
}

impl Clone for FrogressOpts {
    fn clone(&self) -> (r: Self)
        ensures
            r.project == self.project,
            r.versions@ == self.versions@,
    {
        let mut versions: Vec<(String, FrogressVersionOpts)> = Vec::new();
        let mut i: usize = 0;
        while i < self.versions.len()
            invariant
                i <= self.versions@.len(),
                versions@ == self.versions@.subrange(0, i as int),
            decreases self.versions@.len() - i,
        {
            let (k, o) = &self.versions[i];
            versions.push((k.clone(), o.clone()));
            assert(versions@ =~= self.versions@.subrange(0, i + 1));
            i = i + 1;
        }
        assert(versions@ =~= self.versions@);
        FrogressOpts { project: self.project.clone(), versions }
    }
}

/// Settings of a tool that this library does not know, kept as they were
/// written.
#[derive(Debug)]
pub struct AnyOpts(pub GenericValue);

impl Clone for AnyOpts {
    fn clone(&self) -> (r: Self)
        ensures
            same_value(self.0, r.0),
    {
        AnyOpts(self.0.clone())
    }
}

impl AnyOpts {
    /// The settings as a generic value.
    pub fn into_inner(self) -> (r: GenericValue)
        ensures
            r == self.0,
    {
        self.0
    }
}

/// The settings of one tool.
#[derive(Debug)]
pub enum ToolOpts {
    Decompme(DecompmeOpts),
    Permuter(PermuterOpts),
    Frogress(FrogressOpts),
    Other(AnyOpts),
}

impl Clone for ToolOpts {
    fn clone(&self) -> (r: Self)
        ensures
            match *self {
                ToolOpts::Decompme(d) => r == ToolOpts::Decompme(d),
                ToolOpts::Permuter(p) => r matches ToolOpts::Permuter(q) && q.decompme_compilers@
                    == p.decompme_compilers@,
                ToolOpts::Frogress(f) => r matches ToolOpts::Frogress(g) && g.project == f.project
                    && g.versions@ == f.versions@,
                ToolOpts::Other(a) => r matches ToolOpts::Other(b) && same_value(a.0, b.0),
            },
    {
        match self {
            ToolOpts::Decompme(d) => ToolOpts::Decompme(*d),
            ToolOpts::Permuter(p) => ToolOpts::Permuter(p.clone()),
            ToolOpts::Frogress(f) => ToolOpts::Frogress(f.clone()),
            ToolOpts::Other(a) => ToolOpts::Other(a.clone()),
        }
    }
}

impl ToolOpts {
    /// The settings as written, for a tool that this library does not know;
    /// none for the known tools.
    pub fn raw(&self) -> (r: Option<&GenericValue>)
        ensures
            match *self {
                ToolOpts::Other(a) => r == Some(&a.0),
                _ => r is None,
            },
    {
        match self {
            ToolOpts::Other(a) => Some(&a.0),
            _ => None,
        }
    }
}

/// The position of the first entry keyed by `key`.
pub fn position_of<T>(entries: &Vec<(String, T)>, key: &str) -> (r: Option<usize>)
    ensures
        r matches Some(i) ==> i < entries@.len() && entries@[i as int].0@ == key@
            && forall|j: int| 0 <= j < i ==> (#[trigger] entries@[j]).0@ != key@,
        r is None ==> forall|j: int| 0 <= j < entries@.len() ==> (#[trigger] entries@[j]).0@ != key@,
{
    let mut i: usize = 0;
    while i < entries.len()
        invariant
            i <= entries@.len(),
            forall|j: int| 0 <= j < i ==> (#[trigger] entries@[j]).0@ != key@,
        decreases entries@.len() - i,
    {
        if text_eq(entries[i].0.as_str(), key) {
            return Some(i);
        }
        i = i + 1;
    }
    None
}

/// The filesystem paths of one version that tools care about, by name
/// (baserom, build, map, elf, ...), as written in the descriptor.
#[derive(Debug, PartialEq, Eq)]
pub struct VersionPaths {
    pub entries: Vec<(String, String)>,
}

impl Clone for VersionPaths {
    fn clone(&self) -> (r: Self)
        ensures
            r.entries@ == self.entries@,
    {
        VersionPaths { entries: copy_pairs(&self.entries) }
    }
}

impl VersionPaths {
    /// The path named `name`: the first entry of that name.
    pub fn get(&self, name: &str) -> (r: Option<&String>)
        ensures
            r matches Some(p) ==> exists|i: int|
                0 <= i < self.entries@.len() && self.entries@[i].0@ == name@ && *p == self.entries@[i].1
                    && forall|j: int| 0 <= j < i ==> (#[trigger] self.entries@[j]).0@ != name@,
            r is None <==> forall|j: int| 0 <= j < self.entries@.len() ==> (#[trigger] self.entries@[j]).0@ != name@,
    {
        match position_of(&self.entries, name) {
            Some(i) => Some(&self.entries[i].1),
            None => None,
        }
    }
}

/// One version of the project, such as a regional release of the target
/// binary.
#[derive(Debug, PartialEq, Eq)]
pub struct Version {
    /// The short identifier of the version, such as `us10`.
    pub name: String,
    /// The human-readable name of the version, such as `US 1.0`.
    pub fullname: String,
    /// The SHA-1 of the target binary.
    pub sha1: Option<String>,
    /// The paths that tools may care about.
    pub paths: VersionPaths,
}

/// Two versions hold the same names, hash and paths.
pub open spec fn same_version(a: Version, b: Version) -> bool {
    &&& a.name == b.name
    &&& a.fullname == b.fullname
    &&& a.sha1 == b.sha1
    &&& a.paths.entries@ == b.paths.entries@
}

impl Clone for Version {
    fn clone(&self) -> (r: Self)
        ensures
            same_version(r, *self),
    {
        let entries = copy_pairs(&self.paths.entries);
        let sha1 = match &self.sha1 {
            Some(h) => Some(h.clone()),
            None => None,
        };
        Version { name: self.name.clone(), fullname: self.fullname.clone(), sha1, paths: VersionPaths { entries } }
    }
}

/// Some version in `versions` is named `name`.
pub open spec fn has_version(versions: Seq<Version>, name: Seq<char>) -> bool {
    exists|i: int| 0 <= i < versions.len() && (#[trigger] versions[i]).name@ == name
}

/// `v` is a copy of the first version in `versions` that is named `name`.
pub open spec fn first_version(versions: Seq<Version>, name: Seq<char>, v: Version) -> bool {
    exists|i: int|
        0 <= i < versions.len() && versions[i].name@ == name && same_version(v, versions[i])
            && forall|j: int| 0 <= j < i ==> (#[trigger] versions[j]).name@ != name
}

/// The whole descriptor of a project.
#[derive(Debug)]
pub struct Config {
    /// Human-readable name of the project, such as `Paper Mario`.
    pub name: String,
    /// The repository URL of the project.
    pub github: Option<String>,
    /// The website of the project.
    pub website: Option<String>,
    /// An invite link to the project's Discord server.
    pub discord: Option<String>,
    /// The platform the project is for, such as `n64`.
    pub platform: String,
    /// The build system of the project, such as `ninja` or `make`.
    pub build_system: Option<String>,
    /// The name of the version that tools use when none is given.
    pub default_version: Option<String>,
    /// Every version of the project, in the order written.
    pub versions: Vec<Version>,
    /// Settings for various tools, keyed by tool name.
    pub tools: Option<Vec<(String, ToolOpts)>>,
}

impl Config {
    /// A copy of the first version named exactly `version`.
    pub fn get_version_by_name(&self, version: &str) -> (r: Option<Version>)
        ensures
            r is None <==> !has_version(self.versions@, version@),
            r matches Some(v) ==> first_version(self.versions@, version@, v),
    {
        let mut i: usize = 0;
        while i < self.versions.len()
            invariant
                i <= self.versions@.len(),
                forall|j: int| 0 <= j < i ==> (#[trigger] self.versions@[j]).name@ != version@,
            decreases self.versions@.len() - i,
        {
            if text_eq(self.versions[i].name.as_str(), version) {
                let v = self.versions[i].clone();
                assert(same_version(v, self.versions@[i as int]));
                return Some(v);
            }
            i = i + 1;
        }
        None
    }

    /// The version that `default_version` names.
    pub fn get_default_version(&self) -> (r: Result<Version, DecompSettingsError>)
        ensures
            self.default_version is None ==> r == Err::<Version, _>(DecompSettingsError::NoDefaultVersion),
            self.default_version matches Some(d) ==> {
                if has_version(self.versions@, d@) {
                    r matches Ok(v) && first_version(self.versions@, d@, v)
                } else {
                    r matches Err(DecompSettingsError::VersionNotFound(n)) && n@ == d@
                }
            },
    {
        match &self.default_version {
            None => Err(DecompSettingsError::NoDefaultVersion),
            Some(d) => match self.get_version_by_name(d.as_str()) {
                Some(v) => Ok(v),
                None => Err(DecompSettingsError::VersionNotFound(d.clone())),
            },
        }
    }

    /// The settings of the tool named `name`: those of the first entry of
    /// that name.
    pub fn get_tool(&self, name: &str) -> (r: Option<&ToolOpts>)
        ensures
            r matches Some(t) ==> self.tools matches Some(ts) && exists|i: int|
                0 <= i < ts@.len() && ts@[i].0@ == name@ && *t == ts@[i].1
                    && forall|j: int| 0 <= j < i ==> (#[trigger] ts@[j]).0@ != name@,
            r is None <==> match self.tools {
                None => true,
                Some(ts) => forall|j: int| 0 <= j < ts@.len() ==> (#[trigger] ts@[j]).0@ != name@,
            },
    {
        match &self.tools {
            None => None,
            Some(ts) => match position_of(ts, name) {
                Some(i) => Some(&ts[i].1),
                None => None,
            },
        }
    }
}

} // verus!
