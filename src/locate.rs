use vstd::prelude::*;

verus! {

/// The directories to look in for a manifest, nearest first: the start
/// directory, then each parent in turn, up to `max_attempts` of them and
/// never above the root. A directory is the list of its components below
/// the root; the root itself is the empty list.
pub open spec fn search_dirs(start: Seq<String>, max_attempts: nat) -> Seq<Seq<String>> {
    let n = if max_attempts <= start.len() {
        max_attempts
    } else {
        start.len() + 1
    };
    Seq::new(n as nat, |k: int| start.subrange(0, start.len() - k))
}

fn prefix(v: &Vec<String>, len: usize) -> (r: Vec<String>)
    requires
        len <= v@.len(),
    ensures
        r@ == v@.subrange(0, len as int),
{
    let mut r: Vec<String> = Vec::new();
    let mut i: usize = 0;
    while i < len
        invariant
            len <= v@.len(),
            i <= len,
            r@ =~= v@.subrange(0, i as int),
        decreases len - i,
    {
        r.push(v[i].clone());
        i = i + 1;
        assert(r@ =~= v@.subrange(0, i as int));
    }
    r
}

/// Lists the directories in which to check for a manifest, in the order of
/// the checks; the first of them that holds one is where it is found.
pub fn candidate_dirs(start: &Vec<String>, max_attempts: usize) -> (r: Vec<Vec<String>>)
    ensures
        r@.len() == search_dirs(start@, max_attempts as nat).len(),
        forall|k: int|
            0 <= k < r@.len() ==> (#[trigger] r@[k])@ == search_dirs(start@, max_attempts as nat)[k],
{
    let len = start.len();
    let mut r: Vec<Vec<String>> = Vec::new();
    let mut k: usize = 0;
    while k < max_attempts && k <= len
        invariant
            len == start@.len(),
            k <= max_attempts,
            k <= len + 1,
            r@.len() == k,
            forall|j: int| 0 <= j < k ==> (#[trigger] r@[j])@ == start@.subrange(0, len - j),
        decreases len + 1 - k,
    {
        r.push(prefix(start, len - k));
        k = k + 1;
    }
    r
}

/// The search checks at most `max_attempts` directories, and at most one
/// per level from the start directory up to the root.
pub proof fn lemma_search_bounded(start: Seq<String>, max_attempts: nat)
    ensures
        search_dirs(start, max_attempts).len() <= max_attempts,
        search_dirs(start, max_attempts).len() <= start.len() + 1,
{
}

/// A manifest `up` levels above the start directory is among the
/// directories checked when `max_attempts` exceeds `up`.
pub proof fn lemma_search_reaches(start: Seq<String>, max_attempts: nat, up: nat)
    requires
        up <= start.len(),
        up < max_attempts,
    ensures
        search_dirs(start, max_attempts)[up as int] == start.subrange(0, start.len() - up),
        up < search_dirs(start, max_attempts).len(),
{
}

} // verus!
