//! The deno lockfile model: its map of remote module URLs to integrity
//! strings, and the dependency-version listing derived from it. Reading the
//! lockfile from disk is the unverified shell's work.

use crate::strmap::StringMap;
use vstd::prelude::*;

verus! {

/// A parsed deno lockfile.
pub struct DenoLock {
    /// Remote module URL to integrity hash.
    pub remote: StringMap<String>,
    /// Where the lockfile was read from.
    pub path: String,
}

/// The versions each locked dependency resolves to: every remote entry's
/// integrity hash, as that dependency's single version. An absent lockfile
/// yields no dependencies.
pub fn load_lockfile_dependencies(lockfile: Option<&DenoLock>) -> (r: StringMap<Vec<String>>)
    ensures
        match lockfile {
            Some(l) => (forall|k: Seq<char>|
                r@.contains_key(k) <==> l.remote@.contains_key(k)) && forall|k: Seq<char>|
                #[trigger] r@.contains_key(k) ==> r@[k] == seq![l.remote@[k]],
            None => r@ == Map::<Seq<char>, Seq<Seq<char>>>::empty(),
        },
{
    let mut deps: StringMap<Vec<String>> = StringMap::new();

    if let Some(lock) = lockfile {
        let pairs = lock.remote.pairs();
        let n = pairs.len();
        let mut i: usize = 0;
        while i < n
            invariant
                0 <= i <= n,
                n == pairs@.len(),
                forall|j: int|
                    0 <= j < n ==> lock.remote@.contains_key(#[trigger] pairs@[j].0@)
                        && lock.remote@[pairs@[j].0@] == pairs@[j].1@,
                forall|k: Seq<char>|
                    lock.remote@.contains_key(k) ==> exists|j: int|
                        0 <= j < n && pairs@[j].0@ == k,
                forall|k: Seq<char>|
                    deps@.contains_key(k) <==> exists|j: int| 0 <= j < i && pairs@[j].0@ == k,
                forall|j: int|
                    0 <= j < i ==> deps@.contains_key(#[trigger] pairs@[j].0@)
                        && deps@[pairs@[j].0@] == seq![pairs@[j].1@],
                crate::strmap::distinct_keys(pairs@),
            decreases n - i,
        {
            let key = pairs[i].0.clone();
            let value = pairs[i].1.clone();
            let mut versions: Vec<String> = Vec::new();
            versions.push(value);
            proof {
                assert(versions.deep_view() =~= seq![pairs@[i as int].1@]);
            }
            deps.insert(key, versions);
            proof {
                assert forall|k: Seq<char>| deps@.contains_key(k) implies exists|j: int|
                    0 <= j < i + 1 && pairs@[j].0@ == k by {
                    if k == pairs@[i as int].0@ {
                        assert(pairs@[i as int].0@ == k);
                    }
                }
            }
            i += 1;
        }
        proof {
            assert forall|k: Seq<char>| #[trigger] lock.remote@.contains_key(k) implies
                deps@.contains_key(k) && deps@[k] == seq![lock.remote@[k]] by {
                let j = choose|j: int| 0 <= j < n && pairs@[j].0@ == k;
                assert(deps@.contains_key(pairs@[j].0@));
            }
        }
    }

    deps
}

} // verus!
