//! First-match search over key sequences.
//!
//! The registry, the repository table, the working-tree sets and the commit
//! history are all association lists searched by a string key. One spec
//! function, [`find_key`], gives the index of the first match in a sequence
//! of keys; the executable searchers for the concrete containers all relate
//! their result to it.

use vstd::prelude::*;

verus! {

/// The index of the first key equal to `key`, or `None` if no key matches.
pub open spec fn find_key(keys: Seq<Seq<char>>, key: Seq<char>) -> Option<int>
    decreases keys.len(),
{
    if keys.len() <= 0 {
        None
    } else if keys[0] == key {
        Some(0int)
    } else {
        match find_key(keys.drop_first(), key) {
            None => None,
            Some(i) => Some(i + 1),
        }
    }
}

/// What a found index means: it is in bounds, it matches, and nothing
/// before it matches; a miss means nothing matches at all.
pub proof fn lemma_find_key_props(keys: Seq<Seq<char>>, key: Seq<char>)
    ensures
        match find_key(keys, key) {
            Some(i) => 0 <= i < keys.len() && keys[i] == key && (forall|j: int|
                0 <= j < i ==> keys[j] != key),
            None => forall|j: int| 0 <= j < keys.len() ==> keys[j] != key,
        },
    decreases keys.len(),
{
    if keys.len() > 0 && keys[0] != key {
        lemma_find_key_props(keys.drop_first(), key);
        assert(forall|j: int| 0 <= j < keys.len() - 1 ==> keys.drop_first()[j] == keys[j + 1]);
        match find_key(keys.drop_first(), key) {
            Some(i) => {
                assert(keys[i + 1] == keys.drop_first()[i]);
                assert forall|j: int| 0 <= j < i + 1 implies keys[j] != key by {
                    if j > 0 {
                        assert(keys[j] == keys.drop_first()[j - 1]);
                    }
                }
            },
            None => {
                assert forall|j: int| 0 <= j < keys.len() implies keys[j] != key by {
                    if j > 0 {
                        assert(keys[j] == keys.drop_first()[j - 1]);
                    }
                }
            },
        }
    }
}

/// A witnessed first match pins `find_key` down.
pub proof fn lemma_find_key_first(keys: Seq<Seq<char>>, key: Seq<char>, i: int)
    requires
        0 <= i < keys.len(),
        keys[i] == key,
        forall|j: int| 0 <= j < i ==> keys[j] != key,
    ensures
        find_key(keys, key) == Some(i),
    decreases i,
{
    if i == 0 {
    } else {
        assert(keys[0] != key);
        assert forall|j: int| 0 <= j < i - 1 implies keys.drop_first()[j] != key by {
            assert(keys.drop_first()[j] == keys[j + 1]);
        }
        assert(keys.drop_first()[i - 1] == keys[i]);
        lemma_find_key_first(keys.drop_first(), key, i - 1);
    }
}

/// A clean scan pins `find_key` to a miss.
pub proof fn lemma_find_key_none(keys: Seq<Seq<char>>, key: Seq<char>)
    requires
        forall|j: int| 0 <= j < keys.len() ==> keys[j] != key,
    ensures
        find_key(keys, key) is None,
    decreases keys.len(),
{
    if keys.len() > 0 {
        assert forall|j: int| 0 <= j < keys.len() - 1 implies keys.drop_first()[j] != key by {
            assert(keys.drop_first()[j] == keys[j + 1]);
        }
        lemma_find_key_none(keys.drop_first(), key);
    }
}

/// The keys of an association list: the view of each entry's first field.
pub open spec fn pair_keys<T>(s: Seq<(String, T)>) -> Seq<Seq<char>> {
    s.map_values(|p: (String, T)| p.0@)
}

/// The view of each string in a sequence of strings.
pub open spec fn string_views(s: Seq<String>) -> Seq<Seq<char>> {
    s.map_values(|x: String| x@)
}

/// Finds the first entry of an association list whose key equals `key`.
pub fn assoc_position<T>(v: &Vec<(String, T)>, key: &String) -> (r: Option<usize>)
    ensures
        match r {
            Some(i) => find_key(pair_keys(v@), key@) == Some(i as int),
            None => find_key(pair_keys(v@), key@) is None,
        },
{
    let ghost keys = pair_keys(v@);
    let mut i: usize = 0;
    while i < v.len()
        invariant
            i <= v@.len(),
            keys == pair_keys(v@),
            keys.len() == v@.len(),
            forall|j: int| 0 <= j < i ==> keys[j] != key@,
        decreases v@.len() - i,
    {
        if v[i].0 == *key {
            proof {
                assert(keys[i as int] == v@[i as int].0@);
                lemma_find_key_first(keys, key@, i as int);
            }
            return Some(i);
        }
        proof {
            assert(keys[i as int] == v@[i as int].0@);
        }
        i = i + 1;
    }
    proof {
        lemma_find_key_none(keys, key@);
    }
    None
}

/// Finds the first string in `v` equal to `key`.
pub fn string_position(v: &Vec<String>, key: &String) -> (r: Option<usize>)
    ensures
        match r {
            Some(i) => find_key(string_views(v@), key@) == Some(i as int),
            None => find_key(string_views(v@), key@) is None,
        },
{
    let ghost keys = string_views(v@);
    let mut i: usize = 0;
    while i < v.len()
        invariant
            i <= v@.len(),
            keys == string_views(v@),
            keys.len() == v@.len(),
            forall|j: int| 0 <= j < i ==> keys[j] != key@,
        decreases v@.len() - i,
    {
        if v[i] == *key {
            proof {
                assert(keys[i as int] == v@[i as int]@);
                lemma_find_key_first(keys, key@, i as int);
            }
            return Some(i);
        }
        proof {
            assert(keys[i as int] == v@[i as int]@);
        }
        i = i + 1;
    }
    proof {
        lemma_find_key_none(keys, key@);
    }
    None
}

} // verus!
