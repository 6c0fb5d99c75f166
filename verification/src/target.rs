//! Targets: the `project:task` identifiers naming one runnable unit of work.
//! A target identifier holds exactly one separating colon with a non-empty
//! project id before it and a non-empty task id after it.

use vstd::prelude::*;
use vstd::string::StrSliceExecFns;

verus! {

/// The index of the first colon in `s`, or `s.len()` if there is none.
pub open spec fn first_colon(s: Seq<char>) -> int
    decreases s.len(),
{
    if s.len() == 0 {
        0
    } else if s[0] == ':' {
        0
    } else {
        1 + first_colon(s.subrange(1, s.len() as int))
    }
}

/// Any index that is a colon with none before it is `first_colon`.
pub proof fn lemma_first_colon_unique(s: Seq<char>, i: int)
    requires
        0 <= i < s.len(),
        s[i] == ':',
        forall|j: int| 0 <= j < i ==> s[j] != ':',
    ensures
        first_colon(s) == i,
    decreases s.len(),
{
    if i > 0 {
        let t = s.subrange(1, s.len() as int);
        assert(forall|j: int| 0 <= j < i - 1 ==> t[j] == s[j + 1]);
        lemma_first_colon_unique(t, i - 1);
    }
}

/// If no index is a colon, `first_colon` is the length.
pub proof fn lemma_first_colon_none(s: Seq<char>)
    requires
        forall|j: int| 0 <= j < s.len() ==> s[j] != ':',
    ensures
        first_colon(s) == s.len(),
    decreases s.len(),
{
    if s.len() > 0 {
        let t = s.subrange(1, s.len() as int);
        assert(forall|j: int| 0 <= j < t.len() ==> t[j] == s[j + 1]);
        lemma_first_colon_none(t);
    }
}

/// A well-formed target identifier: one colon, non-empty on both sides.
pub open spec fn valid_target_id(s: Seq<char>) -> bool {
    &&& 0 < first_colon(s)
    &&& first_colon(s) + 1 < s.len()
    &&& forall|j: int| first_colon(s) < j < s.len() ==> s[j] != ':'
}

/// The project id: everything before the colon.
pub open spec fn project_part(s: Seq<char>) -> Seq<char> {
    s.subrange(0, first_colon(s))
}

/// The task id: everything after the colon.
pub open spec fn task_part(s: Seq<char>) -> Seq<char> {
    s.subrange(first_colon(s) + 1, s.len() as int)
}

/// A parsed target: the full identifier and its two halves.
pub struct Target {
    pub id: String,
    pub project_id: String,
    pub task_id: String,
}

/// Why an identifier is not a target.
#[derive(Clone, Copy, PartialEq, Eq, Structural, Debug)]
pub enum TargetError {
    InvalidFormat,
}

impl Target {
    /// Split `project:task`. Returns `Ok` exactly on well-formed identifiers.
    pub fn parse(target_id: &str) -> (r: Result<Target, TargetError>)
        ensures
            match r {
                Ok(t) => valid_target_id(target_id@) && t.id@ == target_id@ && t.project_id@
                    == project_part(target_id@) && t.task_id@ == task_part(target_id@),
                Err(_) => !valid_target_id(target_id@),
            },
    {
        let n = target_id.unicode_len();
        let mut i: usize = 0;
        let mut colon: usize = n;
        while i < n
            invariant
                0 <= i <= n,
                n == target_id@.len(),
                colon <= n,
                colon < n ==> i > colon && target_id@[colon as int] == ':' && (forall|j: int|
                    0 <= j < colon ==> target_id@[j] != ':') && (forall|j: int|
                    colon < j < i ==> target_id@[j] != ':'),
                colon == n ==> forall|j: int| 0 <= j < i ==> target_id@[j] != ':',
            decreases n - i,
        {
            let c = target_id.get_char(i);
            if c == ':' {
                if colon < n {
                    // a second colon: not a target
                    proof {
                        lemma_first_colon_unique(target_id@, colon as int);
                    }
                    return Err(TargetError::InvalidFormat);
                }
                colon = i;
            }
            i += 1;
        }
        proof {
            if colon < n {
                lemma_first_colon_unique(target_id@, colon as int);
            } else {
                lemma_first_colon_none(target_id@);
            }
        }
        if colon == n || colon == 0 || colon + 1 >= n {
            return Err(TargetError::InvalidFormat);
        }
        let project_id = target_id.substring_char(0, colon).to_owned();
        let task_id = target_id.substring_char(colon + 1, n).to_owned();
        Ok(Target { id: target_id.to_owned(), project_id, task_id })
    }
}

} // verus!
