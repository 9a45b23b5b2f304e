//! The store's laws, stated over its abstract view: the map from key to
//! value that the contracts in [`crate::db`] and [`crate::handlers`] speak
//! of. Each law is a public proof function; its doc comment states the law
//! in words.

use vstd::prelude::*;

verus! {

/// The store's view after the values of `vs` are written under `k` in turn,
/// each write replacing the one before.
pub open spec fn written(
    m: Map<Seq<char>, Seq<char>>,
    k: Seq<char>,
    vs: Seq<Seq<char>>,
) -> Map<Seq<char>, Seq<char>>
    decreases vs.len(),
{
    if vs.len() == 0 {
        m
    } else {
        written(m, k, vs.drop_last()).insert(k, vs.last())
    }
}

/// Round trip: after a successful put of `v` under `k`, the store holds a
/// value for `k` and that value is exactly `v`.
pub proof fn lemma_put_get_round_trip(m: Map<Seq<char>, Seq<char>>, k: Seq<char>, v: Seq<char>)
    ensures
        m.insert(k, v).contains_key(k),
        m.insert(k, v)[k] == v,
{
}

/// Last write wins: after values are written under one key in order, the
/// store holds exactly the last of them for that key, and every other key is
/// as it was.
pub proof fn lemma_last_write_wins(m: Map<Seq<char>, Seq<char>>, k: Seq<char>, vs: Seq<Seq<char>>)
    requires
        vs.len() > 0,
    ensures
        written(m, k, vs).contains_key(k),
        written(m, k, vs)[k] == vs.last(),
        written(m, k, vs).remove(k) == m.remove(k),
    decreases vs.len(),
{
    if vs.len() > 1 {
        lemma_last_write_wins(m, k, vs.drop_last());
    } else {
        assert(written(m, k, vs.drop_last()) == m);
    }
    assert(written(m, k, vs).remove(k) =~= m.remove(k));
}

/// Writing a key the store does not hold grows the count of stored keys by
/// exactly one.
pub proof fn lemma_count_fresh_key(m: Map<Seq<char>, Seq<char>>, k: Seq<char>, v: Seq<char>)
    requires
        m.dom().finite(),
        !m.contains_key(k),
    ensures
        m.insert(k, v).dom().len() == m.dom().len() + 1,
{
    assert(m.insert(k, v).dom() =~= m.dom().insert(k));
}

/// Rewriting a key the store already holds leaves the count of stored keys
/// unchanged.
pub proof fn lemma_count_rewrite(m: Map<Seq<char>, Seq<char>>, k: Seq<char>, v: Seq<char>)
    requires
        m.dom().finite(),
        m.contains_key(k),
    ensures
        m.insert(k, v).dom().len() == m.dom().len(),
{
    assert(m.insert(k, v).dom() =~= m.dom());
}

/// The store's view after each listed (key, value) pair is written in turn.
pub open spec fn written_pairs(
    m: Map<Seq<char>, Seq<char>>,
    kvs: Seq<(Seq<char>, Seq<char>)>,
) -> Map<Seq<char>, Seq<char>>
    decreases kvs.len(),
{
    if kvs.len() == 0 {
        m
    } else {
        written_pairs(m, kvs.drop_last()).insert(kvs.last().0, kvs.last().1)
    }
}

/// Whether some pair of the run writes the key `k`.
pub open spec fn writes_key(kvs: Seq<(Seq<char>, Seq<char>)>, k: Seq<char>) -> bool {
    exists|i: int| 0 <= i < kvs.len() && (#[trigger] kvs[i]).0 == k
}

/// A key is held after a run of writes exactly when the store held it before
/// or the run writes it.
pub proof fn lemma_written_pairs_domain(
    m: Map<Seq<char>, Seq<char>>,
    kvs: Seq<(Seq<char>, Seq<char>)>,
    k: Seq<char>,
)
    ensures
        written_pairs(m, kvs).contains_key(k) <==> (m.contains_key(k) || writes_key(kvs, k)),
    decreases kvs.len(),
{
    if kvs.len() > 0 {
        let rest = kvs.drop_last();
        let last = kvs.last();
        lemma_written_pairs_domain(m, rest, k);
        assert(forall|i: int| 0 <= i < rest.len() ==> rest[i] == kvs[i]);
        if writes_key(rest, k) {
            let i = choose|i: int| 0 <= i < rest.len() && (#[trigger] rest[i]).0 == k;
            assert(kvs[i].0 == k);
        }
        if writes_key(kvs, k) {
            let i = choose|i: int| 0 <= i < kvs.len() && (#[trigger] kvs[i]).0 == k;
            if i < kvs.len() - 1 {
                assert(rest[i].0 == k);
            } else {
                assert(last.0 == k);
            }
        }
    }
}

/// Writing `n` pairwise distinct keys that the store does not yet hold
/// raises the count of stored keys by exactly `n`; in particular, `n` such
/// writes against an empty store leave it counting exactly `n` keys.
pub proof fn lemma_count_distinct_writes(
    m: Map<Seq<char>, Seq<char>>,
    kvs: Seq<(Seq<char>, Seq<char>)>,
)
    requires
        m.dom().finite(),
        forall|i: int, j: int| 0 <= i < j < kvs.len() ==> kvs[i].0 != kvs[j].0,
        forall|i: int| 0 <= i < kvs.len() ==> !m.contains_key(#[trigger] kvs[i].0),
    ensures
        written_pairs(m, kvs).dom().finite(),
        written_pairs(m, kvs).dom().len() == m.dom().len() + kvs.len(),
    decreases kvs.len(),
{
    if kvs.len() > 0 {
        let rest = kvs.drop_last();
        let last = kvs.last();
        assert(forall|i: int| 0 <= i < rest.len() ==> rest[i] == kvs[i]);
        lemma_count_distinct_writes(m, rest);
        lemma_written_pairs_domain(m, rest, last.0);
        assert(!written_pairs(m, rest).contains_key(last.0)) by {
            assert(!m.contains_key(kvs[kvs.len() - 1].0));
            assert(forall|i: int| 0 <= i < rest.len() ==> (#[trigger] rest[i]).0 != last.0) by {
                assert(forall|i: int| 0 <= i < rest.len() ==> rest[i] == kvs[i]);
            }
        }
        lemma_count_fresh_key(written_pairs(m, rest), last.0, last.1);
    }
}

} // verus!
