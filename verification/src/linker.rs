//! The output linker: after a successful non-cached run, each declared output
//! path is published into a shared cache area addressed by the run's hash.
//! The link ledger here decides idempotently what is already published; the
//! copying and hard-linking of files is the shell's work.

use vstd::prelude::*;

verus! {

/// The pairs already published.
pub open spec fn linked_set(s: Seq<(String, String)>) -> Set<(Seq<char>, Seq<char>)>
    decreases s.len(),
{
    if s.len() == 0 {
        Set::empty()
    } else {
        linked_set(s.drop_last()).insert((s.last().0@, s.last().1@))
    }
}

/// A pair is in the set exactly when some entry holds it.
proof fn lemma_linked_set_contains(s: Seq<(String, String)>, p: (Seq<char>, Seq<char>))
    ensures
        linked_set(s).contains(p) <==> exists|i: int|
            0 <= i < s.len() && s[i].0@ == p.0 && s[i].1@ == p.1,
    decreases s.len(),
{
    if s.len() > 0 {
        lemma_linked_set_contains(s.drop_last(), p);
        if s.last().0@ == p.0 && s.last().1@ == p.1 {
            assert(s[s.len() - 1].0@ == p.0 && s[s.len() - 1].1@ == p.1);
        } else {
            if linked_set(s).contains(p) {
                let i = choose|i: int|
                    0 <= i < s.drop_last().len() && s.drop_last()[i].0@ == p.0
                        && s.drop_last()[i].1@ == p.1;
                assert(s[i].0@ == p.0 && s[i].1@ == p.1);
            }
            if exists|i: int| 0 <= i < s.len() && s[i].0@ == p.0 && s[i].1@ == p.1 {
                let i = choose|i: int| 0 <= i < s.len() && s[i].0@ == p.0 && s[i].1@ == p.1;
                assert(s.drop_last()[i].0@ == p.0 && s.drop_last()[i].1@ == p.1);
            }
        }
    }
}

/// The ledger of (hash, output path) pairs published into the shared cache
/// area, viewed as the set of published pairs.
pub struct OutputLedger {
    entries: Vec<(String, String)>,
}

impl View for OutputLedger {
    type V = Set<(Seq<char>, Seq<char>)>;

    closed spec fn view(&self) -> Set<(Seq<char>, Seq<char>)> {
        linked_set(self.entries@)
    }
}

impl OutputLedger {
    /// The empty ledger: nothing published yet.
    pub fn new() -> (r: Self)
        ensures
            r@ == Set::<(Seq<char>, Seq<char>)>::empty(),
    {
        OutputLedger { entries: Vec::new() }
    }

    /// Whether the pair is already published.
    pub fn contains(&self, hash: &String, output_path: &String) -> (r: bool)
        ensures
            r == self@.contains((hash@, output_path@)),
    {
        let n = self.entries.len();
        let mut i: usize = 0;
        while i < n
            invariant
                0 <= i <= n,
                n == self.entries@.len(),
                forall|j: int|
                    0 <= j < i ==> !(self.entries@[j].0@ == hash@ && self.entries@[j].1@
                        == output_path@),
            decreases n - i,
        {
            if self.entries[i].0 == *hash && self.entries[i].1 == *output_path {
                proof {
                    lemma_linked_set_contains(self.entries@, (hash@, output_path@));
                }
                return true;
            }
            i += 1;
        }
        proof {
            lemma_linked_set_contains(self.entries@, (hash@, output_path@));
        }
        false
    }

    /// Publish the output path under the hash. Linking is an idempotent
    /// upsert: a pair already published is left alone, with no error and no
    /// duplicate entry; the result says whether the pair was new.
    pub fn link(&mut self, hash: &String, output_path: &String) -> (fresh: bool)
        ensures
            final(self)@ == old(self)@.insert((hash@, output_path@)),
            fresh == !old(self)@.contains((hash@, output_path@)),
    {
        if self.contains(hash, output_path) {
            proof {
                assert(old(self)@.insert((hash@, output_path@)) =~= old(self)@);
            }
            return false;
        }
        self.entries.push((hash.clone(), output_path.clone()));
        proof {
            assert(self.entries@.drop_last() =~= old(self).entries@);
        }
        true
    }
}

/// Law: output linking is idempotent — publishing the same (hash, output
/// path) pair twice leaves exactly what publishing it once leaves.
pub proof fn lemma_link_idempotent(
    published: Set<(Seq<char>, Seq<char>)>,
    pair: (Seq<char>, Seq<char>),
)
    ensures
        published.insert(pair).insert(pair) == published.insert(pair),
{
    assert(published.insert(pair).insert(pair) =~= published.insert(pair));
}

} // verus!
