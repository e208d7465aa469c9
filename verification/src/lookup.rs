//! Finding the first entry of a table that carries a given key.

use vstd::prelude::*;

verus! {

/// Index of the first element of `keys` that equals `key`, if there is one.
pub open spec fn first_index<A>(keys: Seq<A>, key: A) -> Option<int>
    decreases keys.len(),
{
    if keys.len() == 0 {
        None
    } else {
        match first_index(keys.drop_last(), key) {
            Some(i) => Some(i),
            None => if keys.last() == key {
                Some(keys.len() - 1)
            } else {
                None
            },
        }
    }
}

/// What `first_index` finds holds the key and nothing before it does; it
/// finds nothing only where no element holds the key.
pub proof fn lemma_first_index<A>(keys: Seq<A>, key: A)
    ensures
        match first_index(keys, key) {
            Some(i) => {
                &&& 0 <= i < keys.len()
                &&& keys[i] == key
                &&& forall|j: int| 0 <= j < i ==> keys[j] != key
            },
            None => forall|j: int| 0 <= j < keys.len() ==> keys[j] != key,
        },
    decreases keys.len(),
{
    if keys.len() > 0 {
        let front = keys.drop_last();
        lemma_first_index(front, key);
        assert forall|j: int| 0 <= j < front.len() implies front[j] == keys[j] by {}
        match first_index(front, key) {
            Some(i) => {
                assert(front[i] == keys[i]);
                assert forall|j: int| 0 <= j < i implies keys[j] != key by {
                    assert(front[j] == keys[j]);
                }
            },
            None => {
                assert forall|j: int| 0 <= j < keys.len() - 1 implies keys[j] != key by {
                    assert(front[j] == keys[j]);
                }
            },
        }
    }
}

/// The first position that holds the key is what `first_index` finds.
pub proof fn lemma_first_index_found<A>(keys: Seq<A>, key: A, i: int)
    requires
        0 <= i < keys.len(),
        keys[i] == key,
        forall|j: int| 0 <= j < i ==> keys[j] != key,
    ensures
        first_index(keys, key) == Some(i),
{
    lemma_first_index(keys, key);
}

/// Where no position holds the key, `first_index` finds nothing.
pub proof fn lemma_first_index_absent<A>(keys: Seq<A>, key: A)
    requires
        forall|j: int| 0 <= j < keys.len() ==> keys[j] != key,
    ensures
        first_index(keys, key) is None,
{
    lemma_first_index(keys, key);
}

} // verus!
