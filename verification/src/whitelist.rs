//! The mint whitelist of a collection: addresses kept in order, each once,
//! added at the end and removed by moving the last address into its place.

use vstd::prelude::*;

use crate::store::{KeySet, StorageKey};

verus! {

/// `x` added at the end, unless it is already there.
pub open spec fn list_insert(l: Seq<Seq<u8>>, x: Seq<u8>) -> Seq<Seq<u8>> {
    if l.contains(x) {
        l
    } else {
        l.push(x)
    }
}

/// `x` removed by moving the last entry into its place.
pub open spec fn list_swap_remove(l: Seq<Seq<u8>>, x: Seq<u8>) -> Seq<Seq<u8>> {
    if l.contains(x) {
        l.update(l.index_of(x), l.last()).drop_last()
    } else {
        l
    }
}

/// Each of `users` added in turn.
pub open spec fn list_add_all(l: Seq<Seq<u8>>, users: Seq<Vec<u8>>) -> Seq<Seq<u8>>
    decreases users.len(),
{
    if users.len() == 0 {
        l
    } else {
        list_insert(list_add_all(l, users.drop_last()), users.last()@)
    }
}

/// Each of `users` removed in turn.
pub open spec fn list_remove_all(l: Seq<Seq<u8>>, users: Seq<Vec<u8>>) -> Seq<Seq<u8>>
    decreases users.len(),
{
    if users.len() == 0 {
        l
    } else {
        list_swap_remove(list_remove_all(l, users.drop_last()), users.last()@)
    }
}

/// `x` is one of `users`.
pub open spec fn is_listed(users: Seq<Vec<u8>>, x: Seq<u8>) -> bool {
    exists|i: int| 0 <= i < users.len() && #[trigger] users[i]@ == x
}

/// Adds each of `users` in turn.
pub fn add_all(list: &mut KeySet<Vec<u8>>, users: &Vec<Vec<u8>>)
    requires
        old(list).wf(),
    ensures
        final(list).wf(),
        final(list).seq() == list_add_all(old(list).seq(), users@),
{
    let ghost start = list.seq();
    let mut i: usize = 0;
    assert(users@.take(0) =~= Seq::<Vec<u8>>::empty());
    while i < users.len()
        invariant
            list.wf(),
            i <= users.len(),
            list.seq() == list_add_all(start, users@.take(i as int)),
        decreases users.len() - i,
    {
        proof {
            list.lemma_seq();
        }
        let u = users[i].copy_key();
        let _ = list.insert(u);
        assert(users@.take(i + 1).drop_last() =~= users@.take(i as int));
        i += 1;
    }
    assert(users@.take(users.len() as int) =~= users@);
}

/// Removes each of `users` in turn.
pub fn remove_all(list: &mut KeySet<Vec<u8>>, users: &Vec<Vec<u8>>)
    requires
        old(list).wf(),
    ensures
        final(list).wf(),
        final(list).seq() == list_remove_all(old(list).seq(), users@),
{
    let ghost start = list.seq();
    let mut i: usize = 0;
    assert(users@.take(0) =~= Seq::<Vec<u8>>::empty());
    while i < users.len()
        invariant
            list.wf(),
            i <= users.len(),
            list.seq() == list_remove_all(start, users@.take(i as int)),
        decreases users.len() - i,
    {
        proof {
            list.lemma_seq();
        }
        let _ = list.remove(&users[i]);
        assert(users@.take(i + 1).drop_last() =~= users@.take(i as int));
        i += 1;
    }
    assert(users@.take(users.len() as int) =~= users@);
}

/// After adding `users`, the list holds what it held and each of `users`,
/// and nothing else, each once.
pub proof fn lemma_add_all(l: Seq<Seq<u8>>, users: Seq<Vec<u8>>)
    requires
        l.no_duplicates(),
    ensures
        list_add_all(l, users).no_duplicates(),
        forall|x: Seq<u8>| #[trigger] list_add_all(l, users).contains(x) == (l.contains(x) || is_listed(users, x)),
    decreases users.len(),
{
    if users.len() > 0 {
        let prefix = users.drop_last();
        lemma_add_all(l, prefix);
        let m = list_add_all(l, prefix);
        let x = users.last()@;
        if !m.contains(x) {
            assert forall|i: int, j: int| 0 <= i < m.push(x).len() && 0 <= j < m.push(x).len() && i != j implies m.push(x)[i]
                != m.push(x)[j] by {
                if i < m.len() && j < m.len() {
                } else if i == m.len() {
                    assert(m[j] == m.push(x)[j]);
                } else {
                    assert(m[i] == m.push(x)[i]);
                }
            }
        }
        assert forall|y: Seq<u8>| #[trigger] list_add_all(l, users).contains(y) == (l.contains(y) || is_listed(users, y)) by {
            if is_listed(users, y) {
                let i = choose|i: int| 0 <= i < users.len() && #[trigger] users[i]@ == y;
                if i < users.len() - 1 {
                    assert(prefix[i]@ == y);
                }
            }
            if is_listed(prefix, y) {
                let i = choose|i: int| 0 <= i < prefix.len() && #[trigger] prefix[i]@ == y;
                assert(users[i]@ == y);
            }
            if !m.contains(x) && y == x {
                assert(m.push(x)[m.len() as int] == x);
            }
            if !m.contains(x) && m.push(x).contains(y) && y != x {
                let k = choose|k: int| 0 <= k < m.push(x).len() && m.push(x)[k] == y;
                assert(m[k] == y);
            }
            if !m.contains(x) && m.contains(y) {
                let k = choose|k: int| 0 <= k < m.len() && m[k] == y;
                assert(m.push(x)[k] == y);
            }
        }
    }
}

/// Adding users that are all listed already changes nothing.
pub proof fn lemma_add_all_listed(l: Seq<Seq<u8>>, users: Seq<Vec<u8>>)
    requires
        forall|i: int| 0 <= i < users.len() ==> l.contains(#[trigger] users[i]@),
    ensures
        list_add_all(l, users) == l,
    decreases users.len(),
{
    if users.len() > 0 {
        let prefix = users.drop_last();
        assert forall|i: int| 0 <= i < prefix.len() implies l.contains(#[trigger] prefix[i]@) by {
            assert(prefix[i] == users[i]);
        }
        lemma_add_all_listed(l, prefix);
        assert(l.contains(users[users.len() - 1]@));
    }
}

/// Removing `x` keeps every other entry, each once.
pub proof fn lemma_swap_remove(l: Seq<Seq<u8>>, x: Seq<u8>)
    requires
        l.no_duplicates(),
    ensures
        list_swap_remove(l, x).no_duplicates(),
        forall|y: Seq<u8>| #[trigger] list_swap_remove(l, x).contains(y) == (l.contains(y) && y != x),
{
    if l.contains(x) {
        let i = l.index_of(x);
        let n = l.len() - 1;
        let r = l.update(i, l.last()).drop_last();
        assert(l[i] == x);
        assert forall|a: int, b: int| 0 <= a < r.len() && 0 <= b < r.len() && a != b implies r[a] != r[b] by {
            let a0 = if a == i { n } else { a };
            let b0 = if b == i { n } else { b };
            assert(r[a] == l[a0]);
            assert(r[b] == l[b0]);
        }
        assert forall|y: Seq<u8>| #[trigger] r.contains(y) == (l.contains(y) && y != x) by {
            if r.contains(y) {
                let a = choose|a: int| 0 <= a < r.len() && r[a] == y;
                let a0 = if a == i { n } else { a };
                assert(l[a0] == y);
                assert(a0 != i);
            }
            if l.contains(y) && y != x {
                let a = choose|a: int| 0 <= a < l.len() && l[a] == y;
                assert(a != i);
                if a == n {
                    assert(r[i] == y);
                } else {
                    assert(r[a] == y);
                }
            }
        }
    }
}

/// After removing `users`, the list holds what it held except `users`,
/// each once.
pub proof fn lemma_remove_all(l: Seq<Seq<u8>>, users: Seq<Vec<u8>>)
    requires
        l.no_duplicates(),
    ensures
        list_remove_all(l, users).no_duplicates(),
        forall|x: Seq<u8>| #[trigger] list_remove_all(l, users).contains(x) == (l.contains(x) && !is_listed(users, x)),
    decreases users.len(),
{
    if users.len() > 0 {
        let prefix = users.drop_last();
        lemma_remove_all(l, prefix);
        let m = list_remove_all(l, prefix);
        lemma_swap_remove(m, users.last()@);
        assert forall|y: Seq<u8>| #[trigger] list_remove_all(l, users).contains(y) == (l.contains(y) && !is_listed(users, y)) by {
            if is_listed(users, y) {
                let i = choose|i: int| 0 <= i < users.len() && #[trigger] users[i]@ == y;
                if i < users.len() - 1 {
                    assert(prefix[i]@ == y);
                }
            }
            if is_listed(prefix, y) {
                let i = choose|i: int| 0 <= i < prefix.len() && #[trigger] prefix[i]@ == y;
                assert(users[i]@ == y);
            }
        }
    }
}

} // verus!
