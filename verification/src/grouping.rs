//! Grouping of flat (dish id, weighted item) rows — the shape in which
//! the persistence collaborator reports dish compositions — into one item
//! list per dish, ready for the density calculator.
//!
//! Groups appear in the order each dish id is first seen, and within a
//! group the items keep the row order; no row is dropped or invented.

use vstd::prelude::*;

use crate::density::WeightedItem;

verus! {

/// One dish's collected items.
#[derive(Debug)]
pub struct DishItems {
    pub dish_id: i64,
    pub items: Vec<WeightedItem>,
}

/// The items of the rows that carry the given dish id, in row order.
pub open spec fn items_of(rows: Seq<(i64, WeightedItem)>, id: i64) -> Seq<WeightedItem>
    decreases rows.len(),
{
    if rows.len() == 0 {
        Seq::empty()
    } else {
        let prefix = items_of(rows.drop_last(), id);
        if rows.last().0 == id {
            prefix.push(rows.last().1)
        } else {
            prefix
        }
    }
}

/// The distinct dish ids of the rows, in order of first appearance.
pub open spec fn group_ids(rows: Seq<(i64, WeightedItem)>) -> Seq<i64>
    decreases rows.len(),
{
    if rows.len() == 0 {
        Seq::empty()
    } else {
        let prefix = group_ids(rows.drop_last());
        if prefix.contains(rows.last().0) {
            prefix
        } else {
            prefix.push(rows.last().0)
        }
    }
}

/// The ids `group_ids` yields are distinct.
pub proof fn lemma_group_ids_distinct(rows: Seq<(i64, WeightedItem)>)
    ensures
        forall|k1: int, k2: int|
            0 <= k1 < k2 < group_ids(rows).len() ==> group_ids(rows)[k1] != group_ids(rows)[k2],
    decreases rows.len(),
{
    if rows.len() == 0 {
    } else {
        lemma_group_ids_distinct(rows.drop_last());
        let prefix = group_ids(rows.drop_last());
        let full = group_ids(rows);
        if !prefix.contains(rows.last().0) {
            assert forall|k1: int, k2: int| 0 <= k1 < k2 < full.len() implies full[k1]
                != full[k2] by {
                if k2 == full.len() - 1 {
                    assert(prefix.contains(prefix[k1]));
                }
            }
        }
    }
}

/// Every row's dish id occurs among the group ids.
proof fn lemma_group_ids_cover(rows: Seq<(i64, WeightedItem)>)
    ensures
        forall|j: int| 0 <= j < rows.len() ==> group_ids(rows).contains(#[trigger] rows[j].0),
    decreases rows.len(),
{
    if rows.len() == 0 {
    } else {
        lemma_group_ids_cover(rows.drop_last());
        let prefix = group_ids(rows.drop_last());
        let full = group_ids(rows);
        assert forall|j: int| 0 <= j < rows.len() implies full.contains(
            #[trigger] rows[j].0,
        ) by {
            if j < rows.len() - 1 {
                assert(rows.drop_last()[j] == rows[j]);
                assert(prefix.contains(rows[j].0));
                let w = choose|w: int| 0 <= w < prefix.len() && prefix[w] == rows[j].0;
                assert(full[w] == rows[j].0);
            } else {
                if prefix.contains(rows.last().0) {
                    let w = choose|w: int| 0 <= w < prefix.len() && prefix[w] == rows.last().0;
                    assert(full[w] == rows.last().0);
                } else {
                    assert(full[full.len() - 1] == rows.last().0);
                }
            }
        }
    }
}

/// A dish id no row carries collects no items.
proof fn lemma_items_of_unseen_id(rows: Seq<(i64, WeightedItem)>, id: i64)
    requires
        forall|j: int| 0 <= j < rows.len() ==> (#[trigger] rows[j]).0 != id,
    ensures
        items_of(rows, id) == Seq::<WeightedItem>::empty(),
    decreases rows.len(),
{
    if rows.len() == 0 {
    } else {
        assert(forall|j: int| 0 <= j < rows.drop_last().len() ==> rows.drop_last()[j] == rows[j]);
        lemma_items_of_unseen_id(rows.drop_last(), id);
        assert(rows[rows.len() - 1].0 != id);
    }
}

/// A dish id outside the group ids collects no items.
proof fn lemma_items_of_ungrouped_id(rows: Seq<(i64, WeightedItem)>, id: i64)
    requires
        !group_ids(rows).contains(id),
    ensures
        items_of(rows, id) == Seq::<WeightedItem>::empty(),
{
    lemma_group_ids_cover(rows);
    assert forall|j: int| 0 <= j < rows.len() implies (#[trigger] rows[j]).0 != id by {
        assert(group_ids(rows).contains(rows[j].0));
    }
    lemma_items_of_unseen_id(rows, id);
}

/// The index of the group that already carries the given id, if any.
fn find_group(groups: &Vec<DishItems>, id: i64) -> (r: Option<usize>)
    ensures
        match r {
            Option::Some(k) => 0 <= k < groups@.len() && groups@[k as int].dish_id == id,
            Option::None => forall|k: int| 0 <= k < groups@.len() ==> groups@[k].dish_id != id,
        },
{
    let n = groups.len();
    for k in 0..n
        invariant
            n == groups@.len(),
            forall|j: int| 0 <= j < k ==> groups@[j].dish_id != id,
    {
        if groups[k].dish_id == id {
            return Some(k);
        }
    }
    None
}

/// Groups flat composition rows by dish id: one group per distinct id in
/// order of first appearance, each holding exactly that dish's items in
/// row order.
pub fn group_items_by_dish(rows: &Vec<(i64, WeightedItem)>) -> (groups: Vec<DishItems>)
    ensures
        groups@.len() == group_ids(rows@).len(),
        forall|k: int|
            0 <= k < groups@.len() ==> (#[trigger] groups@[k]).dish_id == group_ids(rows@)[k]
                && groups@[k].items@ == items_of(rows@, group_ids(rows@)[k]),
{
    let n = rows.len();
    let mut groups: Vec<DishItems> = Vec::new();
    proof {
        assert(rows@.take(0) =~= Seq::<(i64, WeightedItem)>::empty());
    }
    for i in 0..n
        invariant
            n == rows@.len(),
            groups@.len() == group_ids(rows@.take(i as int)).len(),
            forall|k: int|
                0 <= k < groups@.len() ==> (#[trigger] groups@[k]).dish_id == group_ids(
                    rows@.take(i as int),
                )[k] && groups@[k].items@ == items_of(rows@.take(i as int), groups@[k].dish_id),
    {
        let ghost prefix = rows@.take(i as int);
        let ghost ids = group_ids(prefix);
        proof {
            assert(rows@.take(i + 1).drop_last() =~= prefix);
            assert(rows@.take(i + 1).last() == rows@[i as int]);
            lemma_group_ids_distinct(prefix);
        }
        let (id, item) = rows[i];
        match find_group(&groups, id) {
            Some(k) => {
                proof {
                    assert(ids[k as int] == id);
                    assert(ids.contains(id));
                    assert(group_ids(rows@.take(i + 1)) == ids);
                }
                let mut g = groups.remove(k);
                g.items.push(item);
                let ghost updated = g;
                groups.insert(k, g);
                proof {
                    assert forall|j: int| 0 <= j < groups@.len() implies (#[trigger] groups@[j]).dish_id
                        == ids[j] && groups@[j].items@ == items_of(
                        rows@.take(i + 1),
                        groups@[j].dish_id,
                    ) by {
                        if j == k {
                            assert(groups@[j] == updated);
                            assert(items_of(rows@.take(i + 1), id) == items_of(prefix, id).push(
                                item,
                            ));
                        } else {
                            assert(ids[j] != id);
                            assert(items_of(rows@.take(i + 1), ids[j]) == items_of(prefix, ids[j]));
                        }
                    }
                }
            },
            None => {
                proof {
                    assert forall|j: int| 0 <= j < ids.len() implies ids[j] != id by {
                        assert(groups@[j].dish_id == ids[j]);
                    }
                    assert(!ids.contains(id));
                    assert(group_ids(rows@.take(i + 1)) == ids.push(id));
                    lemma_items_of_ungrouped_id(prefix, id);
                    assert(items_of(rows@.take(i + 1), id) == items_of(prefix, id).push(item));
                }
                let mut items: Vec<WeightedItem> = Vec::new();
                items.push(item);
                proof {
                    assert(items@ =~= Seq::<WeightedItem>::empty().push(item));
                }
                groups.push(DishItems { dish_id: id, items });
                proof {
                    let ids2 = ids.push(id);
                    assert forall|j: int| 0 <= j < groups@.len() implies (#[trigger] groups@[j]).dish_id
                        == ids2[j] && groups@[j].items@ == items_of(
                        rows@.take(i + 1),
                        groups@[j].dish_id,
                    ) by {
                        if j < groups@.len() - 1 {
                            assert(ids2[j] == ids[j]);
                            assert(ids[j] != id);
                            assert(items_of(rows@.take(i + 1), ids[j]) == items_of(prefix, ids[j]));
                        } else {
                            assert(groups@[j].dish_id == id);
                        }
                    }
                }
            },
        }
    }
    proof {
        assert(rows@.take(n as int) =~= rows@);
    }
    groups
}

} // verus!
