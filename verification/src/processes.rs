//! Choosing, among the running processes, the executables that can be
//! offered as new applications.

use vstd::prelude::*;
use vstd::string::StrSliceExecFns;
use crate::text::{contains, is_infix, lowercase_of, path_starts_with, to_lowercase};

verus! {

/// The folder of the system's own programs, which are never offered.
pub const SYSTEM_FOLDER: &'static str = "C:\\Windows\\System";

/// One running process, as the system lists it.
#[derive(Debug, PartialEq)]
pub struct RunningProcess {
    pub name: String,
    pub executable: Option<String>,
}

/// A running process after the tests on its name and on its place.
#[derive(Debug, PartialEq)]
pub struct Candidate {
    /// Its lowercase name holds the text that was asked for.
    pub matches: bool,
    /// Its executable lies in the system's folder.
    pub in_system_folder: bool,
    pub executable: Option<String>,
}

/// A canonical path without the verbatim prefix `\\?\` that the system may
/// put in front of it.
pub open spec fn without_verbatim_prefix(path: Seq<char>) -> Seq<char> {
    if path.len() >= 4 && path[0] == '\\' && path[1] == '\\' && path[2] == '?' && path[3]
        == '\\' {
        path.subrange(4, path.len() as int)
    } else {
        path
    }
}

/// True when some text of `texts` reads `text`.
pub open spec fn holds_text(texts: Seq<String>, text: Seq<char>) -> bool {
    exists|i: int| 0 <= i < texts.len() && (#[trigger] texts[i])@ == text
}

/// True when `candidate` passed both tests and has an executable.
pub open spec fn is_eligible(candidate: Candidate) -> bool {
    candidate.matches && candidate.executable is Some && !candidate.in_system_folder
}

/// The executables of the eligible candidates, each once, in the order in
/// which they first occur.
pub open spec fn selected(candidates: Seq<Candidate>) -> Seq<String>
    decreases candidates.len(),
{
    if candidates.len() == 0 {
        Seq::empty()
    } else {
        let earlier = selected(candidates.drop_last());
        let last = candidates.last();
        if is_eligible(last) && !holds_text(earlier, last.executable->Some_0@) {
            earlier.push(last.executable->Some_0)
        } else {
            earlier
        }
    }
}

/// True when `candidates` is `running` after the two tests: one candidate
/// for each process, with its executable, and with the answer of the test on
/// its name. The answer of the test on its place is the platform's.
pub open spec fn are_candidates(
    needle: Seq<char>,
    running: Seq<RunningProcess>,
    candidates: Seq<Candidate>,
) -> bool {
    &&& candidates.len() == running.len()
    &&& forall|i: int|
        0 <= i < running.len() ==> {
            &&& (#[trigger] candidates[i]).executable == running[i].executable
            &&& candidates[i].matches == is_infix(needle, lowercase_of(running[i].name@))
        }
}

/// Takes the verbatim prefix off a canonical path.
pub fn resolve_path(canonical: &str) -> (resolved: String)
    ensures
        resolved@ == without_verbatim_prefix(canonical@),
{
    let length = canonical.unicode_len();
    if length >= 4 && canonical.get_char(0) == '\\' && canonical.get_char(1) == '\\'
        && canonical.get_char(2) == '?' && canonical.get_char(3) == '\\' {
        String::from_str(canonical.substring_char(4, length))
    } else {
        String::from_str(canonical)
    }
}

/// Tells whether `texts` holds a text that reads as `text` does.
fn holds(texts: &Vec<String>, text: &String) -> (found: bool)
    ensures
        found == holds_text(texts@, text@),
{
    let mut i: usize = 0;
    while i < texts.len()
        invariant
            i <= texts.len(),
            forall|j: int| 0 <= j < i ==> (#[trigger] texts@[j])@ != text@,
        decreases texts.len() - i,
    {
        if texts[i] == *text {
            return true;
        }
        i += 1;
    }
    false
}

/// Returns the executables of the eligible candidates, each once, in the
/// order in which they first occur.
pub fn select_executables(candidates: &Vec<Candidate>) -> (executables: Vec<String>)
    ensures
        executables@ == selected(candidates@),
{
    let mut executables: Vec<String> = Vec::new();
    let mut i: usize = 0;
    while i < candidates.len()
        invariant
            i <= candidates.len(),
            executables@ == selected(candidates@.take(i as int)),
        decreases candidates.len() - i,
    {
        proof {
            assert(candidates@.take(i + 1).drop_last() == candidates@.take(i as int));
        }
        let candidate = &candidates[i];
        if candidate.matches && !candidate.in_system_folder {
            match &candidate.executable {
                Some(executable) => {
                    if !holds(&executables, executable) {
                        executables.push(executable.clone());
                    }
                },
                None => {},
            }
        }
        i += 1;
    }
    proof {
        assert(candidates@.take(candidates.len() as int) == candidates@);
    }
    executables
}

/// Returns the executables, each once, of the running processes whose
/// lowercase name holds `needle` and which do not lie in the system's folder.
pub fn get_processes(needle: &str, running: &Vec<RunningProcess>) -> (executables: Vec<String>)
    ensures
        exists|candidates: Seq<Candidate>| #[trigger]
            are_candidates(needle@, running@, candidates) && executables@ == selected(candidates),
{
    let mut candidates: Vec<Candidate> = Vec::new();
    let mut i: usize = 0;
    while i < running.len()
        invariant
            i <= running.len(),
            are_candidates(needle@, running@.take(i as int), candidates@),
        decreases running.len() - i,
    {
        let process = &running[i];
        let lower = to_lowercase(process.name.as_str());
        let matches = contains(lower.as_str(), needle);
        let candidate = match &process.executable {
            Some(executable) => Candidate {
                matches,
                in_system_folder: path_starts_with(executable.as_str(), SYSTEM_FOLDER),
                executable: Some(executable.clone()),
            },
            None => Candidate { matches, in_system_folder: false, executable: None },
        };
        candidates.push(candidate);
        i += 1;
    }
    proof {
        assert(running@.take(running.len() as int) == running@);
    }
    let executables = select_executables(&candidates);
    assert(are_candidates(needle@, running@, candidates@) && executables@ == selected(
        candidates@,
    ));
    executables
}

} // verus!
