use vstd::prelude::*;
use vstd::relations::{sorted_by, total_ordering};
use vstd::seq_lib::lemma_sorted_unique;

verus! {

/// One preparation step of a recipe.
#[derive(Debug, Clone)]
pub struct RecipeStep {
    pub step_id: i32,
    pub recipe_id: i32,
    pub step_number: i32,
    pub instruction: String,
}

/// The order in which step numbers are sorted.
pub open spec fn step_number_leq() -> spec_fn(i32, i32) -> bool {
    |a: i32, b: i32| a <= b
}

/// The step numbers of `steps`, in the order given.
pub open spec fn step_numbers(steps: Seq<RecipeStep>) -> Seq<i32> {
    steps.map_values(|s: RecipeStep| s.step_number)
}

/// The step numbers of `steps` in ascending order.
pub open spec fn sorted_step_numbers(steps: Seq<RecipeStep>) -> Seq<i32> {
    step_numbers(steps).sort_by(step_number_leq())
}

/// `s` is exactly `1, 2, ..., s.len()`.
pub open spec fn counts_from_one(s: Seq<i32>) -> bool {
    forall|i: int| 0 <= i < s.len() ==> #[trigger] s[i] == i + 1
}

/// There is at least one step, and once sorted the step numbers are
/// `1, 2, ..., n` with no gap and no repetition.
pub open spec fn steps_contiguous(steps: Seq<RecipeStep>) -> bool {
    steps.len() > 0 && counts_from_one(sorted_step_numbers(steps))
}

proof fn lemma_step_number_leq_total()
    ensures
        total_ordering(step_number_leq()),
{
}

/// Sorting keeps the number of elements.
proof fn lemma_sorted_step_numbers_len(steps: Seq<RecipeStep>)
    ensures
        sorted_step_numbers(steps).len() == steps.len(),
{
    broadcast use vstd::seq_lib::group_to_multiset_ensures;

    lemma_step_number_leq_total();
    step_numbers(steps).lemma_sort_by_ensures(step_number_leq());
    assert(step_numbers(steps).to_multiset().len() == steps.len());
}

/// The step numbers of `steps`, sorted ascending.
pub fn sort_step_numbers(steps: &Vec<RecipeStep>) -> (r: Vec<i32>)
    ensures
        r@ == sorted_step_numbers(steps@),
{
    broadcast use vstd::seq_lib::group_to_multiset_ensures;

    let mut sorted: Vec<i32> = Vec::new();
    let mut i: usize = 0;
    while i < steps.len()
        invariant
            i <= steps.len(),
            sorted@.len() == i,
            forall|a: int, b: int| 0 <= a < b < sorted@.len() ==> sorted@[a] <= sorted@[b],
            sorted@.to_multiset() == step_numbers(steps@.take(i as int)).to_multiset(),
        decreases steps.len() - i,
    {
        let x = steps[i].step_number;
        let mut pos: usize = 0;
        while pos < sorted.len() && sorted[pos] <= x
            invariant
                pos <= sorted@.len(),
                forall|k: int| 0 <= k < pos ==> sorted@[k] <= x,
            decreases sorted@.len() - pos,
        {
            pos = pos + 1;
        }
        proof {
            assert(pos < sorted@.len() ==> x < sorted@[pos as int]);
            assert(step_numbers(steps@.take(i + 1)) =~= step_numbers(steps@.take(i as int)).push(
                x,
            ));
            vstd::seq_lib::to_multiset_insert(sorted@, pos as int, x);
            vstd::seq_lib::to_multiset_build(step_numbers(steps@.take(i as int)), x);
        }
        let ghost before = sorted@;
        sorted.insert(pos, x);
        proof {
            assert(sorted@ == before.insert(pos as int, x));
            assert forall|a: int, b: int| 0 <= a < b < sorted@.len() implies sorted@[a]
                <= sorted@[b] by {
                if a < pos && b == pos {
                } else if a == pos && b > pos {
                    assert(before[b - 1] >= before[pos as int]);
                } else if a < pos && b > pos {
                    assert(before[a] <= before[b - 1]);
                }
            }
        }
        i = i + 1;
    }
    proof {
        assert(steps@.take(steps@.len() as int) =~= steps@);
        lemma_step_number_leq_total();
        step_numbers(steps@).lemma_sort_by_ensures(step_number_leq());
        assert(sorted_by(sorted@, step_number_leq()));
        lemma_sorted_unique(sorted@, sorted_step_numbers(steps@), step_number_leq());
    }
    sorted
}

/// Whether the steps are numbered `1..=n` once sorted, with at least one step.
pub fn check_step_numbers(steps: &Vec<RecipeStep>) -> (r: bool)
    ensures
        r == steps_contiguous(steps@),
{
    let sorted = sort_step_numbers(steps);
    proof {
        lemma_sorted_step_numbers_len(steps@);
    }
    if sorted.len() == 0 {
        return false;
    }
    if sorted[0] != 1 {
        return false;
    }
    let mut k: usize = 0;
    while k < sorted.len() - 1
        invariant
            sorted@ == sorted_step_numbers(steps@),
            sorted@.len() > 0,
            k < sorted@.len(),
            forall|j: int| 0 <= j <= k ==> #[trigger] sorted@[j] == j + 1,
        decreases sorted@.len() - k,
    {
        if sorted[k] >= sorted[k + 1] || sorted[k] as i64 + 1 != sorted[k + 1] as i64 {
            return false;
        }
        k = k + 1;
    }
    true
}

proof fn lemma_count_repeated(s: Seq<i32>, i: int, j: int)
    requires
        0 <= i < s.len(),
        0 <= j < s.len(),
        i != j,
        s[i] == s[j],
    ensures
        s.to_multiset().count(s[i]) >= 2,
{
    broadcast use vstd::seq_lib::group_to_multiset_ensures;
    broadcast use vstd::multiset::group_multiset_axioms;

    let r = s.remove(i);
    let jj = if j < i {
        j
    } else {
        j - 1
    };
    assert(r[jj] == s[i]);
    assert(r.contains(s[i]));
    vstd::seq_lib::to_multiset_remove(s, i);
    vstd::seq_lib::to_multiset_contains(r, s[i]);
    vstd::seq_lib::to_multiset_contains(s, s[i]);
}

proof fn lemma_count_unique(s: Seq<i32>, k: int)
    requires
        0 <= k < s.len(),
        forall|m: int| 0 <= m < s.len() && m != k ==> s[m] != s[k],
    ensures
        s.to_multiset().count(s[k]) == 1,
{
    broadcast use vstd::seq_lib::group_to_multiset_ensures;
    broadcast use vstd::multiset::group_multiset_axioms;

    let r = s.remove(k);
    if r.contains(s[k]) {
        let m = choose|m: int| 0 <= m < r.len() && r[m] == s[k];
        if m < k {
            assert(s[m] == s[k]);
        } else {
            assert(s[m + 1] == s[k]);
        }
    }
    vstd::seq_lib::to_multiset_remove(s, k);
    vstd::seq_lib::to_multiset_contains(r, s[k]);
    vstd::seq_lib::to_multiset_contains(s, s[k]);
}

proof fn lemma_ascending_spread(s: Seq<i32>, a: int, b: int)
    requires
        forall|x: int, y: int| 0 <= x < y < s.len() ==> s[x] < s[y],
        0 <= a <= b < s.len(),
    ensures
        s[b] - s[a] >= b - a,
    decreases b - a,
{
    if a < b {
        lemma_ascending_spread(s, a, b - 1);
    }
}

/// Contiguity without sorting: the step numbers, once sorted, are
/// `1, 2, ..., n` exactly when there is at least one step, every number is
/// between 1 and `n`, and no number repeats. So a duplicate, a number below
/// 1 (a minimum other than 1) or a number above `n` (which a gap forces)
/// each make validation fail.
pub proof fn lemma_step_contiguity(steps: Seq<RecipeStep>)
    ensures
        steps_contiguous(steps) <==> {
            &&& steps.len() > 0
            &&& forall|i: int|
                0 <= i < steps.len() ==> 1 <= #[trigger] steps[i].step_number <= steps.len()
            &&& forall|i: int, j: int|
                0 <= i < j < steps.len() ==> steps[i].step_number != steps[j].step_number
        },
{
    broadcast use vstd::seq_lib::group_to_multiset_ensures;

    let nums = step_numbers(steps);
    let s = sorted_step_numbers(steps);
    let n = steps.len() as int;
    lemma_step_number_leq_total();
    nums.lemma_sort_by_ensures(step_number_leq());
    lemma_sorted_step_numbers_len(steps);
    assert(nums.len() == n);
    assert forall|i: int| 0 <= i < n implies #[trigger] nums[i] == steps[i].step_number by {}
    if steps_contiguous(steps) {
        assert forall|i: int| 0 <= i < n implies 1 <= #[trigger] steps[i].step_number <= n by {
            assert(nums.contains(nums[i]));
            vstd::seq_lib::to_multiset_contains(nums, nums[i]);
            vstd::seq_lib::to_multiset_contains(s, nums[i]);
            let k = choose|k: int| 0 <= k < s.len() && s[k] == nums[i];
            assert(s[k] == k + 1);
        }
        assert forall|i: int, j: int| 0 <= i < j < n implies steps[i].step_number
            != steps[j].step_number by {
            if nums[i] == nums[j] {
                lemma_count_repeated(nums, i, j);
                assert(nums.contains(nums[i]));
                vstd::seq_lib::to_multiset_contains(s, nums[i]);
                let k = choose|k: int| 0 <= k < s.len() && s[k] == nums[i];
                assert forall|m: int| 0 <= m < s.len() && m != k implies s[m] != s[k] by {
                    assert(s[m] == m + 1);
                    assert(s[k] == k + 1);
                }
                lemma_count_unique(s, k);
            }
        }
    }
    if n > 0 && (forall|i: int| 0 <= i < n ==> 1 <= #[trigger] steps[i].step_number <= n) && (
    forall|i: int, j: int| 0 <= i < j < n ==> steps[i].step_number != steps[j].step_number) {
        assert forall|k: int| 0 <= k < n implies 1 <= #[trigger] s[k] <= n by {
            assert(s.contains(s[k]));
            vstd::seq_lib::to_multiset_contains(s, s[k]);
            vstd::seq_lib::to_multiset_contains(nums, s[k]);
            let i = choose|i: int| 0 <= i < nums.len() && nums[i] == s[k];
            assert(nums[i] == steps[i].step_number);
        }
        assert forall|a: int, b: int| 0 <= a < b < n implies s[a] < s[b] by {
            assert(step_number_leq()(s[a], s[b]));
            if s[a] == s[b] {
                lemma_count_repeated(s, a, b);
                assert(s.contains(s[a]));
                vstd::seq_lib::to_multiset_contains(s, s[a]);
                vstd::seq_lib::to_multiset_contains(nums, s[a]);
                let i = choose|i: int| 0 <= i < nums.len() && nums[i] == s[a];
                assert forall|m: int| 0 <= m < n && m != i implies nums[m] != nums[i] by {
                    assert(nums[m] == steps[m].step_number);
                    assert(nums[i] == steps[i].step_number);
                }
                lemma_count_unique(nums, i);
            }
        }
        assert forall|k: int| 0 <= k < s.len() implies #[trigger] s[k] == k + 1 by {
            lemma_ascending_spread(s, 0, k);
            lemma_ascending_spread(s, k, n - 1);
            assert(1 <= s[0]);
            assert(s[n - 1] <= n);
        }
    }
}

} // verus!
