//! The documented ordering of meal listings: newest eat date first, and
//! meals without an eat date after every dated meal. The persisted data
//! leaves the placement of unknown dates ambiguous, so the library fixes
//! one explicit rule here and guarantees it.

use vstd::prelude::*;
use vstd::multiset::Multiset;
use vstd::seq_lib::to_multiset_insert;

use crate::models::Meal;

verus! {

/// The range order: a meal comes no later than another when its eat date
/// is at least as recent, a dated meal always precedes an undated one,
/// and two undated meals tie.
pub open spec fn eat_date_before(a: Meal, b: Meal) -> bool {
    match (a.eat_date, b.eat_date) {
        (Option::Some(x), Option::Some(y)) => x >= y,
        (Option::Some(_), Option::None) => true,
        (Option::None, Option::Some(_)) => false,
        (Option::None, Option::None) => true,
    }
}

/// A listing is ordered when every earlier entry may stand before every
/// later one.
pub open spec fn meals_ordered(s: Seq<Meal>) -> bool {
    forall|i: int, j: int| 0 <= i < j < s.len() ==> #[trigger] eat_date_before(s[i], s[j])
}

/// Any two meals are comparable: the order has no gaps.
pub proof fn lemma_eat_date_order_total(a: Meal, b: Meal)
    ensures
        eat_date_before(a, b) || eat_date_before(b, a),
{
}

/// The order is transitive.
pub proof fn lemma_eat_date_order_transitive(a: Meal, b: Meal, c: Meal)
    requires
        eat_date_before(a, b),
        eat_date_before(b, c),
    ensures
        eat_date_before(a, c),
{
}

/// Whether `a` may stand before `b` in a listing.
fn comes_before(a: &Meal, b: &Meal) -> (r: bool)
    ensures
        r == eat_date_before(*a, *b),
{
    match (a.eat_date, b.eat_date) {
        (Some(x), Some(y)) => x >= y,
        (Some(_), None) => true,
        (None, Some(_)) => false,
        (None, None) => true,
    }
}

/// Sorts meals for a listing: newest eat date first, undated meals last.
/// The result is ordered and holds exactly the input meals (as a
/// multiset; the order among equal dates is not specified).
pub fn sort_meals_by_eat_date(meals: Vec<Meal>) -> (r: Vec<Meal>)
    ensures
        meals_ordered(r@),
        r@.to_multiset() == meals@.to_multiset(),
        r@.len() == meals@.len(),
{
    let ghost original = meals@;
    let mut rest = meals;
    let mut out: Vec<Meal> = Vec::new();
    proof {
        vstd::seq_lib::lemma_multiset_commutative(out@, rest@);
        assert(out@ + rest@ =~= rest@);
    }
    while rest.len() > 0
        invariant
            meals_ordered(out@),
            out@.to_multiset().add(rest@.to_multiset()) == original.to_multiset(),
            out@.len() + rest@.len() == original.len(),
        decreases rest.len(),
    {
        let ghost rest_before = rest@;
        let m = rest.pop().unwrap();
        proof {
            assert(rest_before =~= rest@.push(m));
            rest@.to_multiset_ensures();
            assert(rest_before.to_multiset() =~= rest@.to_multiset().insert(m));
        }
        let n = out.len();
        let mut k: usize = 0;
        while k < n
            invariant
                k <= n,
                n == out@.len(),
                forall|j: int| 0 <= j < k ==> eat_date_before(#[trigger] out@[j], m),
            ensures
                k <= n,
                forall|j: int| 0 <= j < k ==> eat_date_before(#[trigger] out@[j], m),
                k < n ==> !eat_date_before(out@[k as int], m),
            decreases n - k,
        {
            if !comes_before(&out[k], &m) {
                break;
            }
            k = k + 1;
        }
        proof {
            let before = out@;
            assert forall|j: int| k <= j < before.len() implies eat_date_before(
                m,
                #[trigger] before[j],
            ) by {
                lemma_eat_date_order_total(before[k as int], m);
                if j > k {
                    assert(eat_date_before(before[k as int], before[j]));
                    lemma_eat_date_order_transitive(m, before[k as int], before[j]);
                }
            }
            before.insert_ensures(k as int, m);
            let after = before.insert(k as int, m);
            assert forall|i: int, j: int| 0 <= i < j < after.len() implies eat_date_before(
                #[trigger] after[i],
                #[trigger] after[j],
            ) by {
                if j < k {
                    assert(after[i] == before[i] && after[j] == before[j]);
                } else if j == k {
                    assert(after[j] == m && after[i] == before[i]);
                } else {
                    assert(after[j] == before[j - 1] && k <= j - 1);
                    if i < k {
                        assert(after[i] == before[i] && i < j - 1);
                        assert(eat_date_before(before[i], before[j - 1]));
                    } else if i == k {
                        assert(after[i] == m);
                        assert(eat_date_before(m, before[j - 1]));
                    } else {
                        assert(after[i] == before[i - 1]);
                        assert(eat_date_before(before[i - 1], before[j - 1]));
                    }
                }
            }
            to_multiset_insert(before, k as int, m);
        }
        out.insert(k, m);
    }
    proof {
        assert(rest@.to_multiset() =~= Multiset::<Meal>::empty()) by {
            assert(rest@ =~= Seq::<Meal>::empty());
            rest@.to_multiset_ensures();
        }
        assert(out@.to_multiset() =~= out@.to_multiset().add(rest@.to_multiset()));
    }
    out
}

} // verus!
