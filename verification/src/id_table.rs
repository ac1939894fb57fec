//! Identifiers paired with values, position by position, read as a map.

use vstd::prelude::*;

verus! {

/// Whether `id` is among `ids`.
pub open spec fn holds(ids: Seq<String>, id: Seq<char>) -> bool {
    exists|i: int| 0 <= i < ids.len() && (#[trigger] ids[i])@ == id
}

/// A position of `id` among `ids`.
pub open spec fn slot(ids: Seq<String>, id: Seq<char>) -> int {
    choose|i: int| 0 <= i < ids.len() && (#[trigger] ids[i])@ == id
}

/// Whether no identifier occurs at two positions.
pub open spec fn distinct(ids: Seq<String>) -> bool {
    forall|i: int, j: int|
        0 <= i < ids.len() && 0 <= j < ids.len() && i != j ==> (#[trigger] ids[i])@ != (
        #[trigger] ids[j])@
}

/// The map that pairs each identifier with the value at its position.
pub open spec fn table<V>(ids: Seq<String>, vals: Seq<V>) -> Map<Seq<char>, V> {
    Map::new(|id: Seq<char>| holds(ids, id), |id: Seq<char>| vals[slot(ids, id)])
}

/// Among distinct identifiers each has its position alone.
pub proof fn lemma_slot(ids: Seq<String>, i: int)
    requires
        distinct(ids),
        0 <= i < ids.len(),
    ensures
        holds(ids, ids[i]@),
        slot(ids, ids[i]@) == i,
{
    let id = ids[i]@;
    assert(holds(ids, id));
    let k = slot(ids, id);
    assert(0 <= k < ids.len() && ids[k]@ == id);
}

/// Appending a new identifier with a value inserts the pair into the map.
pub proof fn lemma_table_push<V>(
    ids: Seq<String>,
    vals: Seq<V>,
    id: String,
    val: V,
)
    requires
        distinct(ids),
        ids.len() == vals.len(),
        !holds(ids, id@),
    ensures
        distinct(ids.push(id)),
        table(ids.push(id), vals.push(val)) == table(ids, vals).insert(id@, val),
{
    let ids2 = ids.push(id);
    let vals2 = vals.push(val);
    assert forall|i: int, j: int|
        0 <= i < ids2.len() && 0 <= j < ids2.len() && i != j implies (#[trigger] ids2[i])@ != (
    #[trigger] ids2[j])@ by {
        if i < ids.len() {
            assert(ids2[i] == ids[i]);
        }
        if j < ids.len() {
            assert(ids2[j] == ids[j]);
        }
    }
    assert forall|key: Seq<char>| holds(ids2, key) <==> (key == id@ || holds(ids, key)) by {
        if holds(ids2, key) {
            let k = slot(ids2, key);
            if k < ids.len() {
                assert(ids[k]@ == key);
            }
        }
        if holds(ids, key) {
            let k = slot(ids, key);
            assert(ids2[k]@ == key);
        }
        if key == id@ {
            assert(ids2[ids.len() as int]@ == key);
        }
    }
    assert forall|key: Seq<char>| holds(ids2, key) implies vals2[slot(ids2, key)] == (if key
        == id@ {
        val
    } else {
        vals[slot(ids, key)]
    }) by {
        let k = slot(ids2, key);
        lemma_slot(ids2, k);
        if key == id@ {
            lemma_slot(ids2, ids.len() as int);
        } else {
            let k0 = slot(ids, key);
            assert(ids2[k0]@ == key);
            lemma_slot(ids2, k0);
        }
    }
    assert(table(ids2, vals2) =~= table(ids, vals).insert(id@, val));
}

/// Moving the last pair into position `i` removes the identifier that
/// stood there from the map.
pub proof fn lemma_table_swap_remove<V>(
    ids: Seq<String>,
    vals: Seq<V>,
    i: int,
)
    requires
        distinct(ids),
        ids.len() == vals.len(),
        0 <= i < ids.len(),
    ensures
        distinct(ids.update(i, ids.last()).drop_last()),
        !holds(ids.update(i, ids.last()).drop_last(), ids[i]@),
        table(
            ids.update(i, ids.last()).drop_last(),
            vals.update(i, vals.last()).drop_last(),
        ) == table(ids, vals).remove(ids[i]@),
{
    let ids2 = ids.update(i, ids.last()).drop_last();
    let vals2 = vals.update(i, vals.last()).drop_last();
    let last = ids.len() - 1;
    let origin = |k: int| if k == i { last } else { k };
    assert forall|k: int| 0 <= k < ids2.len() implies (#[trigger] ids2[k]) == ids[origin(k)]
        && vals2[k] == vals[origin(k)] by {}
    assert forall|a: int, b: int|
        0 <= a < ids2.len() && 0 <= b < ids2.len() && a != b implies (#[trigger] ids2[a])@ != (
    #[trigger] ids2[b])@ by {
        assert(ids2[a] == ids[origin(a)]);
        assert(ids2[b] == ids[origin(b)]);
        assert(origin(a) != origin(b));
    }
    if holds(ids2, ids[i]@) {
        let k = slot(ids2, ids[i]@);
        assert(ids2[k] == ids[origin(k)]);
        assert(origin(k) != i);
    }
    assert forall|key: Seq<char>| holds(ids2, key) <==> (key != ids[i]@ && holds(ids, key)) by {
        if holds(ids2, key) {
            let k = slot(ids2, key);
            assert(ids2[k] == ids[origin(k)]);
            assert(ids[origin(k)]@ == key);
        }
        if key != ids[i]@ && holds(ids, key) {
            let k = slot(ids, key);
            if k == last {
                assert(ids2[i]@ == key);
            } else {
                assert(ids2[k]@ == key);
            }
        }
    }
    assert forall|key: Seq<char>| holds(ids2, key) implies vals2[slot(ids2, key)]
        == vals[slot(ids, key)] by {
        let k = slot(ids2, key);
        assert(ids2[k] == ids[origin(k)]);
        lemma_slot(ids, origin(k));
    }
    assert(table(ids2, vals2) =~= table(ids, vals).remove(ids[i]@));
}

/// Replacing the value at position `i` replaces the value of the identifier
/// that stands there.
pub proof fn lemma_table_update<V>(ids: Seq<String>, vals: Seq<V>, i: int, val: V)
    requires
        distinct(ids),
        ids.len() == vals.len(),
        0 <= i < ids.len(),
    ensures
        table(ids, vals.update(i, val)) == table(ids, vals).insert(ids[i]@, val),
{
    lemma_slot(ids, i);
    assert forall|key: Seq<char>| holds(ids, key) implies vals.update(i, val)[slot(ids, key)] == (
    if key == ids[i]@ {
        val
    } else {
        vals[slot(ids, key)]
    }) by {
        let k = slot(ids, key);
        lemma_slot(ids, k);
    }
    assert(table(ids, vals.update(i, val)) =~= table(ids, vals).insert(ids[i]@, val));
}

} // verus!
