//! Finding a file among search directories.
//!
//! The file system is not looked at here: the caller joins each directory with
//! the file's name and finds out whether that path exists.

use vstd::prelude::*;
use vstd::string::*;

verus! {

/// One candidate for a file: a search directory joined with the file's name,
/// and whether a file exists there.
#[derive(Debug, Clone, PartialEq, Eq)]
pub struct Candidate {
    pub path: String,
    pub exists: bool,
}

/// The index of the first candidate from `from` on that exists.
pub open spec fn first_existing(candidates: Seq<Candidate>, from: nat) -> Option<int>
    decreases candidates.len() - from,
{
    if from >= candidates.len() {
        None
    } else if candidates[from as int].exists {
        Some(from as int)
    } else {
        first_existing(candidates, from + 1)
    }
}

/// What is reported when none of the candidates exists: the last of them, or
/// nothing if there was none to try.
pub open spec fn not_found_message(candidates: Seq<Candidate>) -> Seq<char> {
    if candidates.len() == 0 {
        Seq::empty()
    } else {
        "file not exist "@ + candidates.last().path@ + ";"@
    }
}

/// Picks the file out of `candidates`, which stand in the order of the search
/// directories: the path of the first one that exists. If none exists, the
/// error is a message that names the path tried last.
pub fn find_file(candidates: &Vec<Candidate>) -> (r: Result<String, String>)
    ensures
        match first_existing(candidates@, 0) {
            Some(i) => r is Ok && r->Ok_0@ == candidates@[i].path@,
            None => r is Err && r->Err_0@ == not_found_message(candidates@),
        },
{
    let n = candidates.len();
    let mut i: usize = 0;
    while i < n
        invariant
            i <= n,
            n == candidates@.len(),
            first_existing(candidates@, 0) == first_existing(candidates@, i as nat),
        decreases n - i,
    {
        if candidates[i].exists {
            return Ok(candidates[i].path.clone());
        }
        i = i + 1;
    }
    let mut message = String::new();
    if n > 0 {
        message.append("file not exist ");
        message.append(candidates[n - 1].path.as_str());
        message.append(";");
        assert(message@ =~= not_found_message(candidates@));
    }
    Err(message)
}

/// The first candidate that exists is found, and no candidate before it
/// exists; nothing is found only if no candidate exists.
pub proof fn lemma_first_existing(candidates: Seq<Candidate>, from: nat)
    ensures
        match first_existing(candidates, from) {
            Some(i) => from <= i < candidates.len() && candidates[i].exists && forall|j: int|
                from <= j < i ==> !candidates[j].exists,
            None => forall|j: int| from <= j < candidates.len() ==> !candidates[j].exists,
        },
    decreases candidates.len() - from,
{
    if from < candidates.len() && !candidates[from as int].exists {
        lemma_first_existing(candidates, from + 1);
    }
}

} // verus!
