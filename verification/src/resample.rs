use vstd::prelude::*;

verus! {

/// The sum of the first `k` weights.
pub open spec fn prefix_sum(ws: Seq<u64>, k: int) -> int
    decreases k,
{
    if k <= 0 {
        0
    } else {
        prefix_sum(ws, k - 1) + ws[k - 1]
    }
}

/// The total weight mass of `ws`.
pub open spec fn total_weight(ws: Seq<u64>) -> int {
    prefix_sum(ws, ws.len() as int)
}

/// The least index at or past `from` whose cumulative-weight bracket contains
/// the position `t`; `ws.len()` when no bracket past `from` contains it.
pub open spec fn select_from(ws: Seq<u64>, t: int, from: int) -> int
    decreases ws.len() - from,
{
    if from < 0 || from >= ws.len() {
        ws.len() as int
    } else if prefix_sum(ws, from + 1) > t {
        from
    } else {
        select_from(ws, t, from + 1)
    }
}

/// The source index that a sample position `t` selects: the least `k` with
/// `prefix_sum(ws, k + 1) > t`, i.e. the `k` whose half-open bracket
/// `[prefix_sum(ws, k), prefix_sum(ws, k + 1))` contains `t`.
pub open spec fn select_index(ws: Seq<u64>, t: int) -> int {
    select_from(ws, t, 0)
}

/// Weights are non-negative, so cumulative sums are monotone.
pub proof fn lemma_prefix_sum_mono(ws: Seq<u64>, a: int, b: int)
    requires
        0 <= a <= b <= ws.len(),
    ensures
        prefix_sum(ws, a) <= prefix_sum(ws, b),
    decreases b - a,
{
    if a < b {
        lemma_prefix_sum_mono(ws, a, b - 1);
    }
}

/// A position below the total mass, at or past the cumulative sum at `from`,
/// selects a valid index whose bracket contains it; the selected item's own
/// weight is positive.
pub proof fn lemma_select_from_props(ws: Seq<u64>, t: int, from: int)
    requires
        0 <= from <= ws.len(),
        prefix_sum(ws, from) <= t < total_weight(ws),
    ensures
        from <= select_from(ws, t, from) < ws.len(),
        prefix_sum(ws, select_from(ws, t, from)) <= t,
        t < prefix_sum(ws, select_from(ws, t, from) + 1),
        ws[select_from(ws, t, from)] > 0,
    decreases ws.len() - from,
{
    if from == ws.len() {
        assert(false);
    } else if prefix_sum(ws, from + 1) > t {
    } else {
        lemma_select_from_props(ws, t, from + 1);
    }
}

/// Every position below the total mass selects a valid index with a positive
/// weight, and lies inside that index's bracket.
pub proof fn lemma_select_index_props(ws: Seq<u64>, t: int)
    requires
        0 <= t < total_weight(ws),
    ensures
        0 <= select_index(ws, t) < ws.len(),
        prefix_sum(ws, select_index(ws, t)) <= t,
        t < prefix_sum(ws, select_index(ws, t) + 1),
        ws[select_index(ws, t)] > 0,
{
    lemma_select_from_props(ws, t, 0);
}

/// A position inside item `k`'s bracket selects exactly `k`, from any
/// starting index at or below `k`.
pub proof fn lemma_select_unique(ws: Seq<u64>, t: int, k: int, from: int)
    requires
        0 <= from <= k < ws.len(),
        prefix_sum(ws, k) <= t,
        t < prefix_sum(ws, k + 1),
    ensures
        select_from(ws, t, from) == k,
    decreases k - from,
{
    if from < k {
        lemma_prefix_sum_mono(ws, from + 1, k);
        lemma_select_unique(ws, t, k, from + 1);
    }
}

/// Exact-normalization law: each point of the total weight mass lies in the
/// bracket of exactly one item. The brackets `[prefix_sum(ws, k),
/// prefix_sum(ws, k + 1))` tile `[0, total_weight(ws))` with no gap and no
/// overlap, so the weights, taken as fractions of the total, sum to exactly
/// one whole mass.
pub proof fn lemma_brackets_partition(ws: Seq<u64>, t: int)
    requires
        0 <= t < total_weight(ws),
    ensures
        0 <= select_index(ws, t) < ws.len(),
        prefix_sum(ws, select_index(ws, t)) <= t < prefix_sum(ws, select_index(ws, t) + 1),
        forall|k: int|
            0 <= k < ws.len() && #[trigger] prefix_sum(ws, k) <= t && t < prefix_sum(ws, k + 1)
                ==> k == select_index(ws, t),
{
    lemma_select_index_props(ws, t);
    assert forall|k: int|
        0 <= k < ws.len() && #[trigger] prefix_sum(ws, k) <= t && t < prefix_sum(ws, k + 1)
            implies k == select_index(ws, t) by {
        lemma_select_unique(ws, t, k, 0);
    }
}

/// The cumulative sums of a weight vector with a single supported item: zero
/// up to and including that item, the item's weight past it.
proof fn lemma_single_support_prefix(ws: Seq<u64>, k: int, m: int)
    requires
        0 <= k < ws.len(),
        forall|j: int| 0 <= j < ws.len() && j != k ==> ws[j] == 0,
        0 <= m <= ws.len(),
    ensures
        prefix_sum(ws, m) == if m <= k { 0int } else { ws[k] as int },
    decreases m,
{
    if m > 0 {
        lemma_single_support_prefix(ws, k, m - 1);
    }
}

/// Degenerate-selection law: when exactly one item carries positive weight,
/// every sample position below the total mass selects that item, whatever
/// randomness produced the position.
pub proof fn lemma_single_support_selects(ws: Seq<u64>, t: int, k: int)
    requires
        0 <= k < ws.len(),
        ws[k] > 0,
        forall|m: int| 0 <= m < ws.len() && m != k ==> ws[m] == 0,
        0 <= t < total_weight(ws),
    ensures
        select_index(ws, t) == k,
{
    lemma_single_support_prefix(ws, k, k);
    lemma_single_support_prefix(ws, k, k + 1);
    lemma_single_support_prefix(ws, k, ws.len() as int);
    lemma_select_unique(ws, t, k, 0);
}

/// Systematic weighted resampling: for each of the caller-supplied sorted
/// sample positions, emits the source item whose cumulative-weight bracket
/// contains that position. With the positions distributed as sorted uniform
/// samples over the total weight mass (their generation by exponential
/// spacings is the caller's), this walk is the inverse-CDF lookup of the
/// improved particle filter of Carpenter, Clifford and Fernhead (1997): the
/// output has exactly the input's length, and items of zero weight are never
/// selected.
pub fn resample<T: Copy>(values: &Vec<T>, weights: &Vec<u64>, positions: &Vec<u64>) -> (out: Vec<
    T,
>)
    requires
        values@.len() == weights@.len(),
        positions@.len() == values@.len(),
        total_weight(weights@) <= u64::MAX,
        forall|a: int, b: int| 0 <= a <= b < positions@.len() ==> positions@[a] <= positions@[b],
        forall|a: int|
            0 <= a < positions@.len() ==> (positions@[a] as int) < total_weight(weights@),
    ensures
        out@.len() == values@.len(),
        forall|a: int|
            0 <= a < out@.len() ==> out@[a] == values@[select_index(
                weights@,
                positions@[a] as int,
            )],
        forall|a: int|
            0 <= a < out@.len() ==> weights@[select_index(weights@, positions@[a] as int)] > 0,
        forall|a: int|
            0 <= a < out@.len() ==> 0 <= #[trigger] select_index(weights@, positions@[a] as int)
                < values@.len(),
{
    let n: usize = values.len();
    // cumulative weights: cum[k] == prefix_sum(weights, k) for k in 0..=n
    let mut cum: Vec<u64> = Vec::new();
    cum.push(0u64);
    let mut k: usize = 0;
    while k < n
        invariant
            n == weights@.len(),
            total_weight(weights@) <= u64::MAX,
            k <= n,
            cum@.len() == k + 1,
            forall|m: int| 0 <= m <= k ==> cum@[m] == prefix_sum(weights@, m),
        decreases n - k,
    {
        proof {
            lemma_prefix_sum_mono(weights@, k as int + 1, n as int);
        }
        let next: u64 = cum[k] + weights[k];
        cum.push(next);
        k = k + 1;
    }
    let mut i: usize = 0;
    let mut j: usize = 1;
    let mut out: Vec<T> = Vec::new();
    while i < n
        invariant
            n == values@.len(),
            n == weights@.len(),
            n == positions@.len(),
            total_weight(weights@) <= u64::MAX,
            forall|a: int, b: int| 0 <= a <= b < positions@.len() ==> positions@[a] <= positions@[b],
            forall|a: int|
                0 <= a < positions@.len() ==> (positions@[a] as int) < total_weight(weights@),
            cum@.len() == n + 1,
            forall|m: int| 0 <= m <= n ==> cum@[m] == prefix_sum(weights@, m),
            i <= n,
            1 <= j,
            i < n ==> j <= n,
            i < n ==> prefix_sum(weights@, j - 1) <= positions@[i as int],
            out@.len() == i,
            forall|a: int|
                0 <= a < i ==> out@[a] == values@[select_index(weights@, positions@[a] as int)],
            forall|a: int|
                0 <= a < i ==> weights@[select_index(weights@, positions@[a] as int)] > 0,
            forall|a: int|
                0 <= a < i ==> 0 <= #[trigger] select_index(weights@, positions@[a] as int) < n,
        decreases 2 * n - i - j,
    {
        if cum[j] > positions[i] {
            proof {
                lemma_select_unique(weights@, positions@[i as int] as int, j as int - 1, 0);
            }
            out.push(values[j - 1]);
            i = i + 1;
        } else {
            proof {
                if j == n {
                    assert(false);
                }
            }
            j = j + 1;
        }
    }
    out
}

} // verus!
