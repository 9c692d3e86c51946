//! Records that are found by a text key, kept in a sequence.
//!
//! Every store of the three participants is a sequence of records in which no
//! key occurs twice. The functions here say where a key stands in such a
//! sequence, and find it.

use vstd::prelude::*;

verus! {

/// A record that is filed under a text key.
pub trait Keyed {
    /// The key under which the record is filed.
    spec fn key_view(&self) -> Seq<char>;

    fn key(&self) -> (k: &String)
        ensures
            k@ == self.key_view(),
    ;
}

/// The keys of the records of `s`, in order.
pub open spec fn keys_of<T: Keyed>(s: Seq<T>) -> Seq<Seq<char>> {
    s.map_values(|x: T| x.key_view())
}

/// The last place at which `k` stands in `keys`, if it stands anywhere.
pub open spec fn find(keys: Seq<Seq<char>>, k: Seq<char>) -> Option<int>
    decreases keys.len(),
{
    if keys.len() == 0 {
        None
    } else if keys.last() == k {
        Some(keys.len() - 1)
    } else {
        find(keys.drop_last(), k)
    }
}

/// Whether `k` stands in `keys`.
pub open spec fn present(keys: Seq<Seq<char>>, k: Seq<char>) -> bool {
    find(keys, k) is Some
}

/// Whether no key stands twice in `keys`.
pub open spec fn distinct(keys: Seq<Seq<char>>) -> bool {
    forall|i: int, j: int| 0 <= i < j < keys.len() ==> keys[i] != keys[j]
}

/// What `find` gives: a place that holds `k` with no later place that does,
/// or `None` where no place holds `k`.
pub proof fn lemma_find(keys: Seq<Seq<char>>, k: Seq<char>)
    ensures
        match find(keys, k) {
            Some(i) => {
                &&& 0 <= i < keys.len()
                &&& keys[i] == k
                &&& forall|j: int| i < j < keys.len() ==> keys[j] != k
            },
            None => forall|j: int| 0 <= j < keys.len() ==> keys[j] != k,
        },
    decreases keys.len(),
{
    if keys.len() > 0 && keys.last() != k {
        let front = keys.drop_last();
        lemma_find(front, k);
        assert(forall|j: int| 0 <= j < front.len() ==> front[j] == keys[j]);
    }
}

/// Among distinct keys, any place that holds `k` is the one `find` gives.
pub proof fn lemma_find_distinct(keys: Seq<Seq<char>>, k: Seq<char>, i: int)
    requires
        distinct(keys),
        0 <= i < keys.len(),
        keys[i] == k,
    ensures
        find(keys, k) == Some(i),
{
    lemma_find(keys, k);
}

/// Adding a key that is not yet there keeps the keys distinct, and changes
/// what is found for that key only.
pub proof fn lemma_push_key(keys: Seq<Seq<char>>, k: Seq<char>)
    requires
        distinct(keys),
        !present(keys, k),
    ensures
        distinct(keys.push(k)),
        find(keys.push(k), k) == Some(keys.len() as int),
        forall|p: Seq<char>| p != k ==> #[trigger] find(keys.push(k), p) == find(keys, p),
{
    lemma_find(keys, k);
    let after = keys.push(k);
    assert(after.drop_last() =~= keys);
    assert(after.last() == k);
}

/// Finds the record filed under `k`.
pub fn position<T: Keyed>(v: &Vec<T>, k: &String) -> (r: Option<usize>)
    ensures
        match r {
            Some(i) => find(keys_of(v@), k@) == Some(i as int) && i < v.len() && v[i as int].key_view()
                == k@,
            None => !present(keys_of(v@), k@),
        },
{
    let ghost keys = keys_of(v@);
    let mut i: usize = v.len();
    assert(keys.take(i as int) =~= keys);
    while i > 0
        invariant
            i <= v.len(),
            keys == keys_of(v@),
            find(keys, k@) == find(keys.take(i as int), k@),
        decreases i,
    {
        i = i - 1;
        let ghost prefix = keys.take(i + 1);
        assert(prefix.last() == keys[i as int]);
        assert(prefix.drop_last() =~= keys.take(i as int));
        if *v[i].key() == *k {
            return Some(i);
        }
    }
    None
}

} // verus!
