use vstd::prelude::*;
use crate::text::same_text;

verus! {

/// The value of the first pair named `key`.
pub open spec fn pair_value(pairs: Seq<(String, String)>, key: Seq<char>) -> Option<String>
    decreases pairs.len(),
{
    if pairs.len() == 0 {
        None
    } else if pairs[0].0@ == key {
        Some(pairs[0].1)
    } else {
        pair_value(pairs.drop_first(), key)
    }
}

/// Looks up the value of the first pair named `key`.
pub fn find_pair<'a>(pairs: &'a Vec<(String, String)>, key: &str) -> (r: Option<&'a String>)
    ensures
        match r {
            Some(v) => pair_value(pairs@, key@) == Some(*v),
            None => pair_value(pairs@, key@) == None::<String>,
        },
{
    let n = pairs.len();
    let mut i: usize = 0;
    assert(pairs@.subrange(0, n as int) =~= pairs@);
    while i < n
        invariant
            n == pairs@.len(),
            i <= n,
            pair_value(pairs@, key@) == pair_value(pairs@.subrange(i as int, n as int), key@),
        decreases n - i,
    {
        assert(pairs@.subrange(i as int, n as int).drop_first() =~= pairs@.subrange(
            i as int + 1,
            n as int,
        ));
        if same_text(pairs[i].0.as_str(), key) {
            return Some(&pairs[i].1);
        }
        i = i + 1;
    }
    None
}

} // verus!
