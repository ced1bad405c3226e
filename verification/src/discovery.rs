//! Where the worker executable is looked for: a short, fixed, ordered list
//! of candidates, of which the first that exists is used.

use vstd::prelude::*;
use vstd::string::StringExecFns;
use crate::error::SidecarError;

verus! {

/// The directory that a candidate's path starts from.
#[derive(Debug, Clone, Copy, PartialEq, Eq, Structural)]
pub enum CandidateRoot {
    /// The directory of the packaged resources.
    ResourceDir,
    /// The working directory, for a development tree.
    CurrentDir,
}

/// One place where the worker executable may lie.
#[derive(Debug)]
pub struct Candidate {
    pub root: CandidateRoot,
    /// The name under which the candidate is reported.
    pub label: String,
    /// The path below the root, its parts separated by `/`.
    pub relative_path: String,
}

/// The mathematical model of a candidate.
pub ghost struct CandidateModel {
    pub root: CandidateRoot,
    pub label: Seq<char>,
    pub relative_path: Seq<char>,
}

impl View for Candidate {
    type V = CandidateModel;

    open spec fn view(&self) -> CandidateModel {
        CandidateModel { root: self.root, label: self.label@, relative_path: self.relative_path@ }
    }
}

/// The names under which the worker executable is shipped, most specific
/// first.
pub open spec fn candidate_names() -> Seq<Seq<char>> {
    seq![
        "cowork-sidecar-aarch64-apple-darwin"@,
        "cowork-sidecar-x86_64-apple-darwin"@,
        "cowork-sidecar"@,
    ]
}

/// The candidate for a name below a root.
pub open spec fn candidate_of(root: CandidateRoot, name: Seq<char>) -> CandidateModel {
    match root {
        CandidateRoot::ResourceDir => CandidateModel {
            root,
            label: "resource_binaries/"@ + name,
            relative_path: "binaries/"@ + name,
        },
        CandidateRoot::CurrentDir => CandidateModel {
            root,
            label: "cwd_src-tauri_binaries/"@ + name,
            relative_path: "src-tauri/binaries/"@ + name,
        },
    }
}

/// The candidates below one root, in the order of the names.
pub open spec fn candidates_below(root: CandidateRoot) -> Seq<CandidateModel> {
    Seq::new(3, |i: int| candidate_of(root, candidate_names()[i]))
}

/// The candidates in the order in which they are tried: those of the
/// packaged resources first, then those of the development tree; a root
/// that is not known has none.
pub open spec fn candidate_list(with_resource_dir: bool, with_current_dir: bool) -> Seq<CandidateModel> {
    (if with_resource_dir {
        candidates_below(CandidateRoot::ResourceDir)
    } else {
        Seq::empty()
    }) + (if with_current_dir {
        candidates_below(CandidateRoot::CurrentDir)
    } else {
        Seq::empty()
    })
}

/// The models of a run of candidates.
pub open spec fn candidate_models(candidates: Seq<Candidate>) -> Seq<CandidateModel> {
    Seq::new(candidates.len(), |i: int| candidates[i]@)
}

/// Builds the candidate for a name below a root.
pub fn candidate_for(root: CandidateRoot, name: &str) -> (r: Candidate)
    ensures
        r@ == candidate_of(root, name@),
{
    match root {
        CandidateRoot::ResourceDir => Candidate {
            root,
            label: String::from_str("resource_binaries/").concat(name),
            relative_path: String::from_str("binaries/").concat(name),
        },
        CandidateRoot::CurrentDir => Candidate {
            root,
            label: String::from_str("cwd_src-tauri_binaries/").concat(name),
            relative_path: String::from_str("src-tauri/binaries/").concat(name),
        },
    }
}

/// Appends the candidates below one root.
fn push_candidates_below(out: &mut Vec<Candidate>, root: CandidateRoot)
    ensures
        candidate_models(final(out)@) == candidate_models(old(out)@) + candidates_below(root),
{
    out.push(candidate_for(root, "cowork-sidecar-aarch64-apple-darwin"));
    out.push(candidate_for(root, "cowork-sidecar-x86_64-apple-darwin"));
    out.push(candidate_for(root, "cowork-sidecar"));
    assert(candidate_models(out@) =~= candidate_models(old(out)@) + candidates_below(root));
}

/// The candidates in the order in which they are tried.
pub fn candidates(with_resource_dir: bool, with_current_dir: bool) -> (out: Vec<Candidate>)
    ensures
        candidate_models(out@) == candidate_list(with_resource_dir, with_current_dir),
{
    let mut out: Vec<Candidate> = Vec::new();
    assert(candidate_models(out@) =~= Seq::empty());
    if with_resource_dir {
        push_candidates_below(&mut out, CandidateRoot::ResourceDir);
    }
    if with_current_dir {
        push_candidates_below(&mut out, CandidateRoot::CurrentDir);
    }
    assert(candidate_models(out@) =~= candidate_list(with_resource_dir, with_current_dir));
    out
}

/// Whether `index` is the first candidate that exists.
pub open spec fn is_first_existing(exists: Seq<bool>, index: int) -> bool {
    &&& 0 <= index < exists.len()
    &&& exists[index]
    &&& forall|j: int| 0 <= j < index ==> !exists[j]
}

/// The first candidate that exists, given for each candidate whether it
/// exists; `None` where none does.
pub fn first_existing(exists: &Vec<bool>) -> (r: Option<usize>)
    ensures
        match r {
            Some(index) => is_first_existing(exists@, index as int),
            None => forall|j: int| 0 <= j < exists.len() ==> !exists[j],
        },
{
    let mut i: usize = 0;
    while i < exists.len()
        invariant
            i <= exists.len(),
            forall|j: int| 0 <= j < i ==> !exists[j],
        decreases exists.len() - i,
    {
        if exists[i] {
            return Some(i);
        }
        i = i + 1;
    }
    None
}

/// The candidate to launch: the first that exists. Where none exists the
/// launch fails, and is not tried again.
pub fn locate_worker(exists: &Vec<bool>) -> (r: Result<usize, SidecarError>)
    ensures
        match r {
            Ok(index) => is_first_existing(exists@, index as int),
            Err(e) => {
                &&& e matches SidecarError::Spawn(why)
                &&& why@ == "worker executable not found"@
                &&& forall|j: int| 0 <= j < exists.len() ==> !exists[j]
            },
        },
{
    match first_existing(exists) {
        Some(index) => Ok(index),
        None => Err(SidecarError::Spawn(String::from_str("worker executable not found"))),
    }
}

} // verus!
