//! Loading the descriptor from its text, and the ascending search for the
//! descriptor file. The search is a step machine: the caller probes the
//! filesystem and reports what it found, and each step says what to do next,
//! so the decisions stay free of I/O.
use vstd::prelude::*;
use crate::config::Config;
use crate::error::DecompSettingsError;
use crate::schema::{config_decoded, config_ok, decode_config};
use crate::yaml::{parse_yaml, yaml_document};

verus! {

/// The file name of the descriptor.
pub const DESCRIPTOR_FILE: &'static str = "decomp.yaml";

/// The descriptor that the YAML text holds: a format error where the text is
/// not one YAML document, or the document does not follow the schema.
pub fn parse_config(text: &str) -> (r: Result<Config, DecompSettingsError>)
    ensures
        match yaml_document(text@) {
            None => r matches Err(DecompSettingsError::ConfigFormatError(_)),
            Some(v) => {
                &&& r is Ok <==> config_ok(v)
                &&& r matches Ok(c) ==> config_decoded(v, c)
                &&& r matches Err(e) ==> e is ConfigFormatError
            },
        },
{
    match parse_yaml(text) {
        Ok(v) => decode_config(v),
        Err(message) => Err(DecompSettingsError::ConfigFormatError(message)),
    }
}

/// The descriptor at `path`, given the file's contents, or none where the
/// path is missing, is not a regular file, or could not be read.
pub fn load_config(path: &str, contents: Option<&str>) -> (r: Result<Config, DecompSettingsError>)
    ensures
        match contents {
            None => r matches Err(DecompSettingsError::ConfigReadError(p)) && p@ == path@,
            Some(text) => match yaml_document(text@) {
                None => r matches Err(DecompSettingsError::ConfigFormatError(_)),
                Some(v) => {
                    &&& r is Ok <==> config_ok(v)
                    &&& r matches Ok(c) ==> config_decoded(v, c)
                    &&& r matches Err(e) ==> e is ConfigFormatError
                },
            },
        },
{
    match contents {
        None => Err(DecompSettingsError::ConfigReadError(path.to_owned())),
        Some(text) => parse_config(text),
    }
}

/// The directory that holds `p`, by the path rules of the target platform;
/// none for a root or a path of no components.
pub uninterp spec fn parent_path(p: Seq<char>) -> Option<Seq<char>>;

/// The path of `name` inside the directory `dir`, by the path rules of the
/// target platform.
pub uninterp spec fn joined_path(dir: Seq<char>, name: Seq<char>) -> Seq<char>;

/// Relies on std::path::Path::parent, a function of the path's text.
#[verifier::external_body]
fn parent_dir(p: &str) -> (r: Option<String>)
    ensures
        r is Some <==> parent_path(p@) is Some,
        r matches Some(q) ==> parent_path(p@) == Some(q@),
{
    match std::path::Path::new(p).parent() {
        Some(q) => Some(q.to_string_lossy().into_owned()),
        None => None,
    }
}

/// Relies on std::path::Path::join, a function of the two paths' text.
#[verifier::external_body]
fn join_path(dir: &str, name: &str) -> (r: String)
    ensures
        r@ == joined_path(dir@, name@),
{
    std::path::Path::new(dir).join(name).to_string_lossy().into_owned()
}

/// The descriptor file that the search probes in the directory `dir`.
pub open spec fn candidate_of(dir: Seq<char>) -> Seq<char> {
    joined_path(dir, DESCRIPTOR_FILE@)
}

/// What the search does after probing one directory.
pub enum ScanMove {
    /// The descriptor file is there: load it from this path.
    Load(Seq<char>),
    /// It is not: go on in this parent directory.
    Ascend(Seq<char>),
    /// It is not, and the directory has no parent.
    GiveUp,
}

/// The move after probing `dir`, where `found` tells whether its descriptor
/// file exists and is a regular file.
pub open spec fn scan_move(dir: Seq<char>, found: bool) -> ScanMove {
    if found {
        ScanMove::Load(candidate_of(dir))
    } else {
        match parent_path(dir) {
            Some(p) => ScanMove::Ascend(p),
            None => ScanMove::GiveUp,
        }
    }
}

/// The ancestor `k` levels above `start`: `start` itself for 0.
pub open spec fn ancestor(start: Seq<char>, k: nat) -> Option<Seq<char>>
    decreases k,
{
    if k == 0 {
        Some(start)
    } else {
        match ancestor(start, (k - 1) as nat) {
            Some(d) => parent_path(d),
            None => None,
        }
    }
}

/// The move at which a search from `dir` stands after at most `n` probes,
/// where `is_file` tells which paths are regular files.
pub open spec fn scan_run(dir: Seq<char>, is_file: spec_fn(Seq<char>) -> bool, n: nat) -> ScanMove
    decreases n,
{
    let m = scan_move(dir, is_file(candidate_of(dir)));
    if n <= 1 {
        m
    } else {
        match m {
            ScanMove::Ascend(p) => scan_run(p, is_file, (n - 1) as nat),
            _ => m,
        }
    }
}

/// The ancestors of `start` one level up are those of its parent.
pub proof fn lemma_ancestor_of_parent(start: Seq<char>, j: nat)
    ensures
        ancestor(start, j + 1) == match parent_path(start) {
            Some(p) => ancestor(p, j),
            None => None,
        },
    decreases j,
{
    assert(ancestor(start, j + 1) == match ancestor(start, j) {
        Some(d) => parent_path(d),
        None => None,
    });
    if j > 0 {
        lemma_ancestor_of_parent(start, (j - 1) as nat);
        if let Some(p) = parent_path(start) {
            assert(ancestor(p, j) == match ancestor(p, (j - 1) as nat) {
                Some(d) => parent_path(d),
                None => None,
            });
        }
    }
}

/// A search from `start` that finds the descriptor file first in the
/// ancestor `k` levels up, for any `k`, stops after `k + 1` probes and loads
/// that ancestor's descriptor file: the very path that loading it directly
/// reads.
pub proof fn lemma_scan_finds_nearest(start: Seq<char>, is_file: spec_fn(Seq<char>) -> bool, k: nat)
    requires
        ancestor(start, k) is Some,
        is_file(candidate_of(ancestor(start, k)->0)),
        forall|j: nat| j < k ==> !is_file(candidate_of(#[trigger] ancestor(start, j)->0)),
    ensures
        scan_run(start, is_file, k + 1) == ScanMove::Load(candidate_of(ancestor(start, k)->0)),
    decreases k,
{
    assert(ancestor(start, 0) == Some(start));
    if k > 0 {
        lemma_ancestor_of_parent(start, (k - 1) as nat);
        assert(!is_file(candidate_of(ancestor(start, 0)->0)));
        let p = parent_path(start)->0;
        assert forall|j: nat| j < (k - 1) as nat implies !is_file(candidate_of(#[trigger] ancestor(p, j)->0)) by {
            lemma_ancestor_of_parent(start, j);
            assert(!is_file(candidate_of(ancestor(start, j + 1)->0)));
        }
        lemma_scan_finds_nearest(p, is_file, (k - 1) as nat);
    }
}

/// A search from `start` where neither `start` nor any of its ancestors, up
/// to the root `k` levels up, holds the descriptor file gives up after
/// `k + 1` probes.
pub proof fn lemma_scan_gives_up(start: Seq<char>, is_file: spec_fn(Seq<char>) -> bool, k: nat)
    requires
        ancestor(start, k) is Some,
        parent_path(ancestor(start, k)->0) is None,
        forall|j: nat| j <= k ==> !is_file(candidate_of(#[trigger] ancestor(start, j)->0)),
    ensures
        scan_run(start, is_file, k + 1) == ScanMove::GiveUp,
    decreases k,
{
    assert(ancestor(start, 0) == Some(start));
    assert(!is_file(candidate_of(ancestor(start, 0)->0)));
    if k > 0 {
        lemma_ancestor_of_parent(start, (k - 1) as nat);
        let p = parent_path(start)->0;
        assert forall|j: nat| j <= (k - 1) as nat implies !is_file(candidate_of(#[trigger] ancestor(p, j)->0)) by {
            lemma_ancestor_of_parent(start, j);
            assert(!is_file(candidate_of(ancestor(start, j + 1)->0)));
        }
        lemma_scan_gives_up(p, is_file, (k - 1) as nat);
    }
}

/// A search for the descriptor file, from a start directory upwards.
pub struct ConfigScan {
    start: String,
    current: String,
}

impl ConfigScan {
    /// The directory the search started from.
    pub closed spec fn start_dir(&self) -> Seq<char> {
        self.start@
    }

    /// The directory the search probes next.
    pub closed spec fn current_dir(&self) -> Seq<char> {
        self.current@
    }

    /// Begins a search at `start`, which must be a directory.
    pub fn begin(start: &str, start_is_dir: bool) -> (r: Result<ConfigScan, DecompSettingsError>)
        ensures
            !start_is_dir ==> (r matches Err(DecompSettingsError::ConfigScanError(s)) && s@ == start@),
            start_is_dir ==> (r matches Ok(scan) && scan.start_dir() == start@ && scan.current_dir() == start@),
    {
        if !start_is_dir {
            return Err(DecompSettingsError::ConfigScanError(start.to_owned()));
        }
        Ok(ConfigScan { start: start.to_owned(), current: start.to_owned() })
    }

    /// The path of the descriptor file to probe next.
    pub fn candidate(&self) -> (r: String)
        ensures
            r@ == candidate_of(self.current_dir()),
    {
        join_path(self.current.as_str(), DESCRIPTOR_FILE)
    }

    /// Takes whether the candidate exists and is a regular file. Gives the path
    /// to load, or the failure where the root was reached, or none where the
    /// search goes on in the parent directory.
    pub fn step(&mut self, found: bool) -> (r: Option<Result<String, DecompSettingsError>>)
        ensures
            final(self).start_dir() == old(self).start_dir(),
            match scan_move(old(self).current_dir(), found) {
                ScanMove::Load(p) => r matches Some(Ok(s)) && s@ == p && final(self).current_dir() == old(
                    self,
                ).current_dir(),
                ScanMove::Ascend(p) => r is None && final(self).current_dir() == p,
                ScanMove::GiveUp => r matches Some(Err(DecompSettingsError::ConfigNotFound(s))) && s@ == old(
                    self,
                ).start_dir(),
            },
    {
        if found {
            return Some(Ok(self.candidate()));
        }
        match parent_dir(self.current.as_str()) {
            Some(p) => {
                self.current = p;
                None
            },
            None => Some(Err(DecompSettingsError::ConfigNotFound(self.start.clone()))),
        }
    }
}

} // verus!
