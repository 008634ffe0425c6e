//! Container labels as a plain list of key/value pairs, with first-match
//! lookup.  The runtime hands labels over as a map with unique keys; the
//! engine only ever asks for the value under a given key.

use vstd::prelude::*;

verus! {

/// One label on a container's configuration.
pub struct Label {
    pub key: String,
    pub value: String,
}

/// The value under `key` in `labels`, taking the first match.
pub open spec fn spec_lookup(labels: Seq<Label>, key: Seq<char>) -> Option<Seq<char>>
    decreases labels.len(),
{
    if labels.len() == 0 {
        None
    } else if labels[0].key@ == key {
        Some(labels[0].value@)
    } else {
        spec_lookup(labels.drop_first(), key)
    }
}

/// Looking past a prefix that does not hold `key` changes nothing.
proof fn lemma_lookup_skip(labels: Seq<Label>, key: Seq<char>, i: int)
    requires
        0 <= i <= labels.len(),
        forall|j: int| 0 <= j < i ==> labels[j].key@ != key,
    ensures
        spec_lookup(labels, key) == spec_lookup(labels.skip(i), key),
    decreases i,
{
    if i > 0 {
        assert(labels.skip(i - 1).drop_first() =~= labels.skip(i));
        assert(labels.skip(i - 1)[0] == labels[i - 1]);
        lemma_lookup_skip(labels, key, i - 1);
    } else {
        assert(labels.skip(0) =~= labels);
    }
}

/// The value stored under `key`, or `None` if no label carries it.
pub fn lookup(labels: &Vec<Label>, key: &String) -> (r: Option<String>)
    ensures
        match r {
            Some(v) => spec_lookup(labels@, key@) == Some(v@),
            None => spec_lookup(labels@, key@) is None,
        },
{
    let n = labels.len();
    for i in 0..n
        invariant
            n == labels.len(),
            forall|j: int| 0 <= j < i ==> labels@[j].key@ != key@,
    {
        if labels[i].key == *key {
            proof {
                lemma_lookup_skip(labels@, key@, i as int);
                assert(labels@.skip(i as int)[0] == labels@[i as int]);
            }
            return Some(labels[i].value.clone());
        }
    }
    proof {
        lemma_lookup_skip(labels@, key@, n as int);
    }
    None
}

} // verus!
