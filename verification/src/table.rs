//! Reading rows: what "the first row that ..." and "the rows that ..." mean.

use vstd::prelude::*;

verus! {

/// The first row that is wanted, or `None` if no row is.
pub open spec fn first_where<T>(rows: Seq<T>, wanted: spec_fn(T) -> bool) -> Option<T>
    decreases rows.len(),
{
    if rows.len() == 0 {
        None
    } else if wanted(rows[0]) {
        Some(rows[0])
    } else {
        first_where(rows.drop_first(), wanted)
    }
}

/// A first wanted row exists exactly if some row is wanted, and it is a wanted
/// row of the table.
pub proof fn lemma_first_where<T>(rows: Seq<T>, wanted: spec_fn(T) -> bool)
    ensures
        first_where(rows, wanted) is Some <==> exists|i: int|
            0 <= i < rows.len() && wanted(#[trigger] rows[i]),
        first_where(rows, wanted) matches Some(row) ==> wanted(row) && rows.contains(row),
    decreases rows.len(),
{
    if rows.len() > 0 {
        if wanted(rows[0]) {
        } else {
            let rest = rows.drop_first();
            lemma_first_where(rest, wanted);
            if first_where(rest, wanted) is Some {
                let i = choose|i: int| 0 <= i < rest.len() && wanted(#[trigger] rest[i]);
                assert(wanted(rows[i + 1]));
                let row = first_where(rest, wanted).unwrap();
                let j = choose|j: int| 0 <= j < rest.len() && rest[j] == row;
                assert(rows[j + 1] == row);
            }
            if exists|i: int| 0 <= i < rows.len() && wanted(#[trigger] rows[i]) {
                let i = choose|i: int| 0 <= i < rows.len() && wanted(#[trigger] rows[i]);
                assert(wanted(rest[i - 1]));
            }
        }
    }
}

/// A wanted row before which no row is wanted is the first wanted row.
pub proof fn lemma_first_where_at<T>(rows: Seq<T>, wanted: spec_fn(T) -> bool, at: int)
    requires
        0 <= at < rows.len(),
        wanted(rows[at]),
        forall|j: int| 0 <= j < at ==> !wanted(#[trigger] rows[j]),
    ensures
        first_where(rows, wanted) == Some(rows[at]),
    decreases at,
{
    if at > 0 {
        let rest = rows.drop_first();
        assert forall|j: int| 0 <= j < at - 1 implies !wanted(#[trigger] rest[j]) by {
            assert(rest[j] == rows[j + 1]);
        }
        assert(rest[at - 1] == rows[at]);
        lemma_first_where_at(rest, wanted, at - 1);
    }
}

/// Searching a table from row `from` on: a row that is not wanted can be
/// passed over.
pub proof fn lemma_first_where_skip<T>(rows: Seq<T>, wanted: spec_fn(T) -> bool, from: int)
    requires
        0 <= from < rows.len(),
        !wanted(rows[from]),
    ensures
        first_where(rows.subrange(from, rows.len() as int), wanted) == first_where(
            rows.subrange(from + 1, rows.len() as int),
            wanted,
        ),
{
    let tail = rows.subrange(from, rows.len() as int);
    assert(tail.drop_first() == rows.subrange(from + 1, rows.len() as int));
}

/// Filtering the first `upto + 1` rows: the rows wanted among the first `upto`,
/// and then row `upto` if it is wanted.
pub proof fn lemma_filter_step<T>(rows: Seq<T>, wanted: spec_fn(T) -> bool, upto: int)
    requires
        0 <= upto < rows.len(),
    ensures
        rows.subrange(0, upto + 1).filter(wanted) == (if wanted(rows[upto]) {
            rows.subrange(0, upto).filter(wanted).push(rows[upto])
        } else {
            rows.subrange(0, upto).filter(wanted)
        }),
{
    reveal(Seq::filter);
    let head = rows.subrange(0, upto + 1);
    assert(head.drop_last() == rows.subrange(0, upto));
}

/// Filtering no rows gives no rows.
pub proof fn lemma_filter_none<T>(rows: Seq<T>, wanted: spec_fn(T) -> bool)
    ensures
        rows.subrange(0, 0).filter(wanted) == Seq::<T>::empty(),
{
    reveal(Seq::filter);
}

/// A row is among the filtered rows exactly if it is a wanted row of the
/// table, and the filtered rows are not more than the rows.
pub proof fn lemma_filter_members<T>(rows: Seq<T>, wanted: spec_fn(T) -> bool)
    ensures
        forall|row: T| #[trigger]
            rows.filter(wanted).contains(row) <==> rows.contains(row) && wanted(row),
        rows.filter(wanted).len() <= rows.len(),
    decreases rows.len(),
{
    reveal(Seq::filter);
    if rows.len() > 0 {
        let rest = rows.drop_last();
        let last = rows.last();
        lemma_filter_members(rest, wanted);
        let kept = rest.filter(wanted);
        assert forall|row: T| #[trigger]
            rows.filter(wanted).contains(row) <==> rows.contains(row) && wanted(row) by {
            if rows.filter(wanted).contains(row) {
                let i = choose|i: int|
                    0 <= i < rows.filter(wanted).len() && rows.filter(wanted)[i] == row;
                if wanted(last) && i == kept.len() {
                    assert(rows[rows.len() - 1] == row);
                } else {
                    assert(kept[i] == row);
                    assert(kept.contains(row));
                    let j = choose|j: int| 0 <= j < rest.len() && rest[j] == row;
                    assert(rows[j] == row);
                }
            }
            if rows.contains(row) && wanted(row) {
                let j = choose|j: int| 0 <= j < rows.len() && rows[j] == row;
                if j == rows.len() - 1 {
                    assert(rows.filter(wanted)[kept.len() as int] == row);
                } else {
                    assert(rest[j] == row);
                    assert(rest.contains(row));
                    assert(kept.contains(row));
                    let i = choose|i: int| 0 <= i < kept.len() && kept[i] == row;
                    assert(rows.filter(wanted)[i] == row);
                }
            }
        }
    }
}

/// Whether a row behind row `at` has the key of row `at`.
pub open spec fn keyed_later<T>(rows: Seq<T>, key: spec_fn(T) -> Seq<char>, at: int) -> bool {
    exists|j: int| at < j < rows.len() && key(#[trigger] rows[j]) == key(rows[at])
}

/// The rows that are the last of their key, in the order of the table: what a
/// dictionary by that key holds when the rows are entered one after another.
pub open spec fn last_of_keys<T>(rows: Seq<T>, key: spec_fn(T) -> Seq<char>) -> Seq<T>
    decreases rows.len(),
{
    if rows.len() == 0 {
        Seq::empty()
    } else if keyed_later(rows, key, 0) {
        last_of_keys(rows.drop_first(), key)
    } else {
        seq![rows[0]] + last_of_keys(rows.drop_first(), key)
    }
}

/// The rows that are the last of their key among the rows from `from` on:
/// row `from` if no row behind it has its key, and then those among the rows
/// behind it.
pub proof fn lemma_last_of_keys_step<T>(rows: Seq<T>, key: spec_fn(T) -> Seq<char>, from: int)
    requires
        0 <= from < rows.len(),
    ensures
        last_of_keys(rows.subrange(from, rows.len() as int), key) == (if keyed_later(
            rows,
            key,
            from,
        ) {
            last_of_keys(rows.subrange(from + 1, rows.len() as int), key)
        } else {
            seq![rows[from]] + last_of_keys(rows.subrange(from + 1, rows.len() as int), key)
        }),
{
    let tail = rows.subrange(from, rows.len() as int);
    assert(tail.drop_first() == rows.subrange(from + 1, rows.len() as int));
    assert(tail[0] == rows[from]);
    if keyed_later(rows, key, from) {
        let j = choose|j: int| from < j < rows.len() && key(#[trigger] rows[j]) == key(rows[from]);
        assert(tail[j - from] == rows[j]);
    }
    if keyed_later(tail, key, 0) {
        let j = choose|j: int| 0 < j < tail.len() && key(#[trigger] tail[j]) == key(tail[0]);
        assert(rows[from + j] == tail[j]);
    }
}

/// What the rows that are the last of their key are: each is a row of the
/// table behind which no row has its key; every such row of the table is
/// among them; and no two of them have one key. So every key of the table
/// stands among them once, with the last row of that key.
pub proof fn law_last_of_keys<T>(rows: Seq<T>, key: spec_fn(T) -> Seq<char>)
    ensures
        forall|k: int|
            0 <= k < last_of_keys(rows, key).len() ==> exists|i: int|
                0 <= i < rows.len() && rows[i] == #[trigger] last_of_keys(rows, key)[k]
                    && !keyed_later(rows, key, i),
        forall|i: int|
            0 <= i < rows.len() && !keyed_later(rows, key, i) ==> last_of_keys(rows, key).contains(
                #[trigger] rows[i],
            ),
        forall|a: int, b: int|
            0 <= a < last_of_keys(rows, key).len() && 0 <= b < last_of_keys(rows, key).len() && a
                != b ==> key(#[trigger] last_of_keys(rows, key)[a]) != key(
                #[trigger] last_of_keys(rows, key)[b],
            ),
    decreases rows.len(),
{
    if rows.len() > 0 {
        let rest = rows.drop_first();
        let kept = last_of_keys(rest, key);
        let all = last_of_keys(rows, key);
        law_last_of_keys(rest, key);
        assert forall|i: int| 0 <= i < rest.len() implies keyed_later(rest, key, i) == keyed_later(
            rows,
            key,
            i + 1,
        ) by {
            if keyed_later(rest, key, i) {
                let j = choose|j: int| i < j < rest.len() && key(#[trigger] rest[j]) == key(rest[i]);
                assert(rows[j + 1] == rest[j]);
            }
            if keyed_later(rows, key, i + 1) {
                let j = choose|j: int|
                    i + 1 < j < rows.len() && key(#[trigger] rows[j]) == key(rows[i + 1]);
                assert(rest[j - 1] == rows[j]);
            }
        }
        let shift: int = if keyed_later(rows, key, 0) {
            0
        } else {
            1
        };
        assert forall|k: int| 0 <= k < all.len() implies exists|i: int|
            0 <= i < rows.len() && rows[i] == #[trigger] all[k] && !keyed_later(rows, key, i) by {
            if k < shift {
                assert(rows[0] == all[k]);
            } else {
                assert(all[k] == kept[k - shift]);
                let i = choose|i: int|
                    0 <= i < rest.len() && rest[i] == kept[k - shift] && !keyed_later(rest, key, i);
                assert(rows[i + 1] == all[k]);
            }
        }
        assert forall|i: int| 0 <= i < rows.len() && !keyed_later(rows, key, i) implies all.contains(
            #[trigger] rows[i],
        ) by {
            if i == 0 {
                assert(all[0] == rows[0]);
            } else {
                assert(rest[i - 1] == rows[i]);
                assert(!keyed_later(rest, key, i - 1));
                assert(kept.contains(rest[i - 1]));
                let k = choose|k: int| 0 <= k < kept.len() && kept[k] == rest[i - 1];
                assert(all[k + shift] == rows[i]);
            }
        }
        assert forall|a: int, b: int| 0 <= a < all.len() && 0 <= b < all.len() && a != b implies key(
            #[trigger] all[a],
        ) != key(#[trigger] all[b]) by {
            if a >= shift && b >= shift {
                assert(all[a] == kept[a - shift]);
                assert(all[b] == kept[b - shift]);
            } else {
                let other = if a < shift {
                    b
                } else {
                    a
                };
                assert(all[other] == kept[other - 1]);
                let i = choose|i: int|
                    0 <= i < rest.len() && rest[i] == kept[other - 1] && !keyed_later(rest, key, i);
                assert(rows[i + 1] == rest[i]);
                assert(!keyed_later(rows, key, 0));
            }
        }
    }
}

} // verus!
