//! Collections as rows of a table, one kind on one day in each row.

use crate::data_grabber::{
    group_by_day, grouped, kinds_by_day, kinds_on, lemma_kinds_on_push, Pickup, TrashType,
};
use std::collections::HashMap;
use vstd::prelude::*;
use vstd::std_specs::hash::*;

verus! {

/// The kinds that `trashes` lists for `day`: none where the day is missing.
pub open spec fn kinds_listed(trashes: Map<i32, Vec<TrashType>>, day: i32) -> Seq<TrashType> {
    if trashes.contains_key(day) {
        trashes[day]@
    } else {
        Seq::empty()
    }
}

/// The rows that hold `trashes`: for each day its kinds in their order. The
/// order in which the days follow one another is left open.
pub fn set_trashes(trashes: &HashMap<i32, Vec<TrashType>>) -> (rows: Vec<Pickup>)
    ensures
        forall|day: i32| #[trigger] kinds_on(rows@, day) == kinds_listed(trashes@, day),
{
    broadcast use group_hash_axioms;

    let mut rows: Vec<Pickup> = Vec::new();
    for day in it: trashes.keys()
        invariant
            forall|other: i32| #[trigger]
                kinds_on(rows@, other) == if exists|k: int|
                    0 <= k < it.index() && *it.seq()[k] == other {
                    kinds_listed(trashes@, other)
                } else {
                    Seq::empty()
                },
            it.index() == it.seq().len() ==> forall|other: i32| #[trigger]
                kinds_on(rows@, other) == kinds_listed(trashes@, other),
    {
        let ghost before = rows@;
        let ghost position = it.index() as int;
        assert(it.seq()[position] == day);
        assert(it.seq().no_duplicates());
        assert(kinds_on(before, *day) == Seq::<TrashType>::empty()) by {
            if exists|k: int| 0 <= k < position && *it.seq()[k] == *day {
                let k = choose|k: int| 0 <= k < position && *it.seq()[k] == *day;
                assert(it.seq()[k] == it.seq()[position]);
            }
        }
        let kinds = trashes.get(day).unwrap();
        let mut j: usize = 0;
        while j < kinds.len()
            invariant
                j <= kinds.len(),
                kinds@ == trashes@[*day]@,
                kinds_on(rows@, *day) == kinds@.take(j as int),
                forall|other: i32|
                    other != *day ==> #[trigger] kinds_on(rows@, other) == kinds_on(before, other),
            decreases kinds.len() - j,
        {
            proof {
                assert forall|other: i32| #[trigger]
                    kinds_on(rows@.push(Pickup { day: *day, kind: kinds[j as int] }), other)
                        == if other == *day {
                        kinds_on(rows@, other).push(kinds[j as int])
                    } else {
                        kinds_on(rows@, other)
                    } by {
                    lemma_kinds_on_push(rows@, Pickup { day: *day, kind: kinds[j as int] }, other);
                }
                assert(kinds@.take(j + 1) == kinds@.take(j as int).push(kinds@[j as int]));
            }
            rows.push(Pickup { day: *day, kind: kinds[j] });
            j += 1;
        }
        proof {
            assert(kinds@.take(j as int) == kinds@);
            assert forall|other: i32| #[trigger]
                kinds_on(rows@, other) == if exists|k: int|
                    0 <= k < position + 1 && *it.seq()[k] == other {
                    kinds_listed(trashes@, other)
                } else {
                    Seq::empty()
                } by {
                if other == *day {
                    assert(*it.seq()[position] == other);
                } else {
                    assert(kinds_on(rows@, other) == kinds_on(before, other));
                    if exists|k: int| 0 <= k < position + 1 && *it.seq()[k] == other {
                        let k = choose|k: int| 0 <= k < position + 1 && *it.seq()[k] == other;
                        assert(k < position);
                    }
                }
            }
            assert forall|other: i32| position + 1 == it.seq().len() implies #[trigger] kinds_on(
                rows@,
                other,
            ) == kinds_listed(trashes@, other) by {
                if trashes@.contains_key(other) {
                    assert(it.seq().unref().to_set().contains(other));
                    let k = choose|k: int|
                        0 <= k < it.seq().unref().len() && it.seq().unref()[k] == other;
                    assert(*it.seq()[k] == other);
                }
            }
        }
    }
    rows
}

/// The days of all the rows, each with its kinds in the order of the rows.
pub fn get_all_trashes(rows: &Vec<Pickup>) -> (trashes: HashMap<i32, Vec<TrashType>>)
    ensures
        kinds_by_day(trashes@) == grouped(rows@),
{
    group_by_day(rows)
}

/// The days from `from` to `to`, both included, each with its kinds in the
/// order of the rows.
pub fn get_trashes(rows: &Vec<Pickup>, from: i32, to: i32) -> (trashes: HashMap<
    i32,
    Vec<TrashType>,
>)
    ensures
        kinds_by_day(trashes@) == grouped(rows@.filter(|row: Pickup| from <= row.day <= to)),
{
    let ghost between = |row: Pickup| from <= row.day <= to;
    let mut chosen: Vec<Pickup> = Vec::new();
    let mut i: usize = 0;
    while i < rows.len()
        invariant
            i <= rows.len(),
            between == |row: Pickup| from <= row.day <= to,
            chosen@ == rows@.take(i as int).filter(between),
        decreases rows.len() - i,
    {
        proof {
            reveal(Seq::filter);
            assert(rows@.take(i + 1).drop_last() == rows@.take(i as int));
        }
        if from <= rows[i].day && rows[i].day <= to {
            chosen.push(rows[i]);
        }
        i += 1;
    }
    proof {
        assert(rows@.take(i as int) == rows@);
    }
    group_by_day(&chosen)
}

/// Rows that list for every day what a table lists for it hold the table:
/// put together by day they give it back, as long as the table has no day
/// without a kind.
pub proof fn lemma_rows_hold_the_table(trashes: Map<i32, Vec<TrashType>>, rows: Seq<Pickup>)
    requires
        forall|day: i32| #[trigger] kinds_on(rows, day) == kinds_listed(trashes, day),
        forall|day: i32| #[trigger] trashes.contains_key(day) ==> trashes[day]@.len() > 0,
    ensures
        grouped(rows) == kinds_by_day(trashes),
{
    assert forall|day: i32| #[trigger]
        grouped(rows).contains_key(day) == kinds_by_day(trashes).contains_key(day) by {
        assert(kinds_on(rows, day) == kinds_listed(trashes, day));
    }
    assert forall|day: i32| #[trigger] grouped(rows).contains_key(day) implies grouped(rows)[day]
        == kinds_by_day(trashes)[day] by {
        assert(kinds_on(rows, day) == kinds_listed(trashes, day));
    }
    assert(grouped(rows) =~= kinds_by_day(trashes));
}

} // verus!
