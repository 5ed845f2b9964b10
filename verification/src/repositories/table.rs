//! Rows kept in a vector and read as a map from key to value.

use crate::models::{EmailVerificationToken, PasswordResetToken, RefreshToken, User};
use vstd::prelude::*;

verus! {

/// A row with a key under which it is found.
pub trait Keyed: View {
    type Key;

    /// The key of the row.
    spec fn key(&self) -> Self::Key;
}

impl Keyed for User {
    type Key = u128;

    open spec fn key(&self) -> u128 {
        self.id
    }
}

impl Keyed for RefreshToken {
    type Key = Seq<char>;

    open spec fn key(&self) -> Seq<char> {
        self.token@
    }
}

impl Keyed for EmailVerificationToken {
    type Key = Seq<char>;

    open spec fn key(&self) -> Seq<char> {
        self.token@
    }
}

impl Keyed for PasswordResetToken {
    type Key = Seq<char>;

    open spec fn key(&self) -> Seq<char> {
        self.token@
    }
}

/// The id that a counter hands out after `id`: the next number, and 1 after
/// the last.
pub open spec fn following_id(id: u128) -> u128 {
    if id == u128::MAX {
        1
    } else {
        (id + 1) as u128
    }
}

/// No two rows share a key.
pub open spec fn distinct_keys<R: Keyed>(rows: Seq<R>) -> bool {
    forall|i: int, j: int| 0 <= i < j < rows.len() ==> rows[i].key() != rows[j].key()
}

/// Whether some row has the key `k`.
pub open spec fn has_key<R: Keyed>(rows: Seq<R>, k: R::Key) -> bool {
    exists|i: int| 0 <= i < rows.len() && #[trigger] rows[i].key() == k
}

/// The map from each row's key to its value; of rows that share a key the
/// last one counts.
pub open spec fn index<R: Keyed>(rows: Seq<R>) -> Map<R::Key, R::V>
    decreases rows.len(),
{
    if rows.len() == 0 {
        Map::empty()
    } else {
        index(rows.drop_last()).insert(rows.last().key(), rows.last()@)
    }
}

/// A key is in the map exactly if some row has it.
pub proof fn lemma_index_dom<R: Keyed>(rows: Seq<R>, k: R::Key)
    ensures
        index(rows).contains_key(k) <==> has_key(rows, k),
    decreases rows.len(),
{
    if rows.len() > 0 {
        let init = rows.drop_last();
        lemma_index_dom(init, k);
        if has_key(rows, k) {
            let i = choose|i: int| 0 <= i < rows.len() && #[trigger] rows[i].key() == k;
            if i < rows.len() - 1 {
                assert(init[i].key() == k);
            }
        }
        if has_key(init, k) {
            let i = choose|i: int| 0 <= i < init.len() && #[trigger] init[i].key() == k;
            assert(rows[i].key() == k);
        }
        if rows.last().key() == k {
            assert(rows[rows.len() - 1].key() == k);
        }
    }
}

/// With distinct keys, the map holds at each row's key that row's value.
pub proof fn lemma_index_at<R: Keyed>(rows: Seq<R>, i: int)
    requires
        distinct_keys(rows),
        0 <= i < rows.len(),
    ensures
        index(rows).contains_key(rows[i].key()),
        index(rows)[rows[i].key()] == rows[i]@,
    decreases rows.len(),
{
    let init = rows.drop_last();
    if i < rows.len() - 1 {
        assert(distinct_keys(init)) by {
            assert forall|a: int, b: int| 0 <= a < b < init.len() implies init[a].key()
                != init[b].key() by {
                assert(rows[a].key() != rows[b].key());
            }
        }
        lemma_index_at(init, i);
        assert(rows[i].key() != rows[rows.len() - 1].key());
    }
}

/// With distinct keys, what the map holds at a key is the value of a row
/// with that key.
pub proof fn lemma_index_witness<R: Keyed>(rows: Seq<R>, k: R::Key) -> (i: int)
    requires
        distinct_keys(rows),
        index(rows).contains_key(k),
    ensures
        0 <= i < rows.len(),
        rows[i].key() == k,
        index(rows)[k] == rows[i]@,
{
    lemma_index_dom(rows, k);
    let i = choose|i: int| 0 <= i < rows.len() && #[trigger] rows[i].key() == k;
    lemma_index_at(rows, i);
    i
}

/// A row appended adds its key and value to the map.
pub proof fn lemma_index_push<R: Keyed>(rows: Seq<R>, row: R)
    ensures
        index(rows.push(row)) == index(rows).insert(row.key(), row@),
        distinct_keys(rows) && !has_key(rows, row.key()) ==> distinct_keys(rows.push(row)),
{
    let next = rows.push(row);
    assert(next.drop_last() =~= rows);
    if distinct_keys(rows) && !has_key(rows, row.key()) {
        assert forall|i: int, j: int| 0 <= i < j < next.len() implies next[i].key()
            != next[j].key() by {
            if j == rows.len() {
                assert(rows[i].key() == next[i].key());
            } else {
                assert(rows[i].key() != rows[j].key());
            }
        }
    }
}

/// A row replaced by one of the same key replaces its value in the map.
pub proof fn lemma_index_update<R: Keyed>(rows: Seq<R>, i: int, row: R)
    requires
        distinct_keys(rows),
        0 <= i < rows.len(),
        row.key() == rows[i].key(),
    ensures
        index(rows.update(i, row)) == index(rows).insert(row.key(), row@),
        distinct_keys(rows.update(i, row)),
    decreases rows.len(),
{
    let next = rows.update(i, row);
    assert(distinct_keys(next)) by {
        assert forall|a: int, b: int| 0 <= a < b < next.len() implies next[a].key()
            != next[b].key() by {
            assert(rows[a].key() != rows[b].key());
        }
    }
    let init = rows.drop_last();
    assert(distinct_keys(init)) by {
        assert forall|a: int, b: int| 0 <= a < b < init.len() implies init[a].key()
            != init[b].key() by {
            assert(rows[a].key() != rows[b].key());
        }
    }
    if i == rows.len() - 1 {
        assert(next.drop_last() =~= init);
        assert(index(next) =~= index(rows).insert(row.key(), row@));
    } else {
        lemma_index_update(init, i, row);
        assert(next.drop_last() =~= init.update(i, row));
        assert(rows[i].key() != rows[rows.len() - 1].key());
        assert(index(next) =~= index(rows).insert(row.key(), row@));
    }
}

/// A row taken out takes its key out of the map.
pub proof fn lemma_index_remove<R: Keyed>(rows: Seq<R>, i: int)
    requires
        distinct_keys(rows),
        0 <= i < rows.len(),
    ensures
        index(rows.remove(i)) == index(rows).remove(rows[i].key()),
        distinct_keys(rows.remove(i)),
    decreases rows.len(),
{
    let next = rows.remove(i);
    assert(distinct_keys(next)) by {
        assert forall|a: int, b: int| 0 <= a < b < next.len() implies next[a].key()
            != next[b].key() by {
            let a0 = if a < i { a } else { a + 1 };
            let b0 = if b < i { b } else { b + 1 };
            assert(rows[a0].key() != rows[b0].key());
        }
    }
    let init = rows.drop_last();
    assert(distinct_keys(init)) by {
        assert forall|a: int, b: int| 0 <= a < b < init.len() implies init[a].key()
            != init[b].key() by {
            assert(rows[a].key() != rows[b].key());
        }
    }
    if i == rows.len() - 1 {
        assert(next =~= init);
        lemma_index_dom(init, rows[i].key());
        if has_key(init, rows[i].key()) {
            let j = choose|j: int| 0 <= j < init.len() && #[trigger] init[j].key() == rows[i].key();
            assert(rows[j].key() != rows[i].key());
        }
        assert(index(next) =~= index(rows).remove(rows[i].key()));
    } else {
        lemma_index_remove(init, i);
        assert(next.drop_last() =~= init.remove(i));
        assert(next.last() == rows.last());
        assert(rows[i].key() != rows[rows.len() - 1].key());
        assert(index(next) =~= index(rows).remove(rows[i].key()));
    }
}

/// With distinct keys, the map has as many keys as there are rows.
pub proof fn lemma_index_len<R: Keyed>(rows: Seq<R>)
    requires
        distinct_keys(rows),
    ensures
        index(rows).dom().finite(),
        index(rows).dom().len() == rows.len(),
    decreases rows.len(),
{
    if rows.len() > 0 {
        let init = rows.drop_last();
        assert(distinct_keys(init)) by {
            assert forall|a: int, b: int| 0 <= a < b < init.len() implies init[a].key()
                != init[b].key() by {
                assert(rows[a].key() != rows[b].key());
            }
        }
        lemma_index_len(init);
        lemma_index_dom(init, rows.last().key());
        if has_key(init, rows.last().key()) {
            let j = choose|j: int|
                0 <= j < init.len() && #[trigger] init[j].key() == rows.last().key();
            assert(rows[j].key() != rows[rows.len() - 1].key());
        }
        assert(index(rows).dom() =~= index(init).dom().insert(rows.last().key()));
    } else {
        assert(index(rows).dom() =~= Set::<R::Key>::empty());
    }
}

} // verus!
