//! Counting combinations and locating the combination that stands at a given
//! position of the descending lexicographic list of all combinations.
use vstd::arithmetic::div_mod::lemma_div_by_multiple;
use vstd::arithmetic::mul::lemma_mul_inequality;
use vstd::prelude::*;

verus! {

/// The binomial coefficient, by Pascal's rule.
pub open spec fn binom(n: nat, k: nat) -> nat
    decreases n,
{
    if k == 0 {
        1
    } else if n == 0 {
        0
    } else {
        binom((n - 1) as nat, (k - 1) as nat) + binom((n - 1) as nat, k)
    }
}

/// The number of combinations of size `r` out of `n` items: the binomial
/// coefficient, and none when `r` is negative or larger than `n`.
pub open spec fn count_spec(n: int, r: int) -> int {
    if r < 0 || r > n {
        0
    } else {
        binom(n as nat, r as nat) as int
    }
}

pub open spec fn min_int(a: int, b: int) -> int {
    if a < b {
        a
    } else {
        b
    }
}

/// The inputs on which `count_combinations` computes without leaving `i64`:
/// `n - r` fits, and every running product `j * binom(n, j)` of the
/// multiplicative formula fits.
pub open spec fn count_fits(n: int, r: int) -> bool {
    0 <= r <= n ==> forall|j: int|
        1 <= j <= min_int(r, n - r) ==> #[trigger] (j * binom(n as nat, j as nat)) <= i64::MAX
}

/// The position of the descending combination `s` (of `r` items) in the
/// descending lexicographic order: the sum of `binom(s[i], r - i)`.
pub open spec fn rank(s: Seq<i64>, r: int) -> int
    decreases s.len(),
{
    if s.len() == 0 {
        0
    } else {
        binom(s[0] as nat, r as nat) + rank(s.drop_first(), r - 1)
    }
}

/// `s` is a combination of `r` items out of `[0, n)`, listed in strictly
/// descending order.
pub open spec fn is_descending_combination(s: Seq<i64>, n: int, r: int) -> bool {
    &&& r >= 0
    &&& s.len() == r
    &&& forall|i: int| 0 <= i < s.len() ==> 0 <= #[trigger] s[i] < n
    &&& forall|i: int, j: int| 0 <= i < j < s.len() ==> #[trigger] s[i] > #[trigger] s[j]
}

/// The position of `s` written as the combinadic sum of counts:
/// `count_spec(s[0], r) + count_spec(s[1], r - 1) + ...`.
pub open spec fn count_rank(s: Seq<i64>, r: int) -> int
    decreases s.len(),
{
    if s.len() == 0 {
        0
    } else {
        count_spec(s[0] as int, r) + count_rank(s.drop_first(), r - 1)
    }
}

/// `a` comes before `b` in lexicographic order.
pub open spec fn lex_less(a: Seq<i64>, b: Seq<i64>) -> bool
    decreases a.len(),
{
    if a.len() == 0 {
        b.len() > 0
    } else if b.len() == 0 {
        false
    } else if a[0] < b[0] {
        true
    } else if a[0] > b[0] {
        false
    } else {
        lex_less(a.drop_first(), b.drop_first())
    }
}

/// `s` is the combination at position `index` of the descending
/// lexicographic list of combinations of `r` items out of `[0, n)`.
pub open spec fn is_combination_at(s: Seq<i64>, index: int, n: int, r: int) -> bool {
    is_descending_combination(s, n, r) && rank(s, r) == index
}

pub proof fn lemma_binom_above(n: nat, k: nat)
    requires
        k > n,
    ensures
        binom(n, k) == 0,
    decreases n,
{
    if n > 0 {
        lemma_binom_above((n - 1) as nat, (k - 1) as nat);
        lemma_binom_above((n - 1) as nat, k);
    }
}

pub proof fn lemma_binom_diag(n: nat)
    ensures
        binom(n, n) == 1,
    decreases n,
{
    if n > 0 {
        lemma_binom_diag((n - 1) as nat);
        lemma_binom_above((n - 1) as nat, n);
    }
}

pub proof fn lemma_binom_positive(n: nat, k: nat)
    requires
        k <= n,
    ensures
        binom(n, k) >= 1,
    decreases n,
{
    if k > 0 && n > 0 {
        lemma_binom_positive((n - 1) as nat, (k - 1) as nat);
    }
}

proof fn lemma_binom_one(n: nat)
    ensures
        binom(n, 1) == n,
    decreases n,
{
    if n > 0 {
        lemma_binom_one((n - 1) as nat);
        assert(binom((n - 1) as nat, 0) == 1);
    }
}

/// `k * C(n, k) == n * C(n - 1, k - 1)`.
proof fn lemma_binom_absorb(n: nat, k: nat)
    requires
        n >= 1,
        k >= 1,
    ensures
        k * binom(n, k) == n * binom((n - 1) as nat, (k - 1) as nat),
    decreases n,
{
    if k == 1 {
        lemma_binom_one(n);
        assert(binom((n - 1) as nat, 0) == 1);
    } else if n == 1 {
        assert(binom(0, (k - 1) as nat) == 0);
        assert(binom(0, k) == 0);
        assert(binom(1, k) == binom(0, (k - 1) as nat) + binom(0, k));
    } else {
        lemma_binom_absorb((n - 1) as nat, (k - 1) as nat);
        lemma_binom_absorb((n - 1) as nat, k);
        let a = binom((n - 2) as nat, (k - 2) as nat);
        let b = binom((n - 2) as nat, (k - 1) as nat);
        let c = binom((n - 1) as nat, (k - 1) as nat);
        let d = binom((n - 1) as nat, k);
        let e = binom(n, k);
        assert(c == a + b);
        assert(e == c + d);
        assert(k * e == n * c) by (nonlinear_arith)
            requires
                c == a + b,
                e == c + d,
                (k - 1) * c == (n - 1) * a,
                k * d == (n - 1) * b,
        ;
    }
}

/// One step of the multiplicative formula: `(n - k) * C(n, k) == (k + 1) * C(n, k + 1)`.
pub proof fn lemma_binom_step(n: nat, k: nat)
    requires
        k <= n,
    ensures
        (n - k) * binom(n, k) == (k + 1) * binom(n, k + 1),
{
    if n == 0 {
        lemma_binom_above(0, 1);
    } else {
        lemma_binom_absorb(n, k + 1);
        if k == 0 {
            lemma_binom_one(n);
        } else {
            lemma_binom_absorb(n, k);
            let p = binom((n - 1) as nat, (k - 1) as nat);
            let q = binom((n - 1) as nat, k);
            let e = binom(n, k);
            assert(e == p + q);
            assert((n - k) * e == n * q) by (nonlinear_arith)
                requires
                    e == p + q,
                    k * e == n * p,
                    k <= n,
            ;
        }
    }
}

/// `C(n, k) == C(n, n - k)`.
pub proof fn lemma_binom_symmetric(n: nat, k: nat)
    requires
        k <= n,
    ensures
        binom(n, k) == binom(n, (n - k) as nat),
    decreases n,
{
    if k == 0 {
        lemma_binom_diag(n);
    } else if k == n {
        lemma_binom_diag(n);
    } else {
        lemma_binom_symmetric((n - 1) as nat, (k - 1) as nat);
        lemma_binom_symmetric((n - 1) as nat, k);
        assert(((n - 1) - (k - 1)) as nat == (n - k) as nat);
        assert(binom(n, (n - k) as nat) == binom((n - 1) as nat, (n - k - 1) as nat) + binom(
            (n - 1) as nat,
            (n - k) as nat,
        ));
    }
}

/// `C(n, k)` grows with `n`.
pub proof fn lemma_binom_monotone(n1: nat, n2: nat, k: nat)
    requires
        n1 <= n2,
    ensures
        binom(n1, k) <= binom(n2, k),
    decreases n2 - n1,
{
    if n1 < n2 {
        lemma_binom_monotone(n1, (n2 - 1) as nat, k);
    }
}

/// The requirement of `count_combinations` carries over to smaller arguments.
proof fn lemma_count_fits_smaller(n0: int, r0: int, n: int, r: int)
    requires
        count_fits(n0, r0),
        0 <= r0 <= n0,
        0 <= r <= r0,
        0 <= n <= n0,
        n - r <= n0 - r0,
    ensures
        count_fits(n, r),
{
    assert forall|j: int| 1 <= j <= min_int(r, n - r) implies #[trigger] (j * binom(
        n as nat,
        j as nat,
    )) <= i64::MAX by {
        lemma_binom_monotone(n as nat, n0 as nat, j as nat);
        lemma_mul_inequality(binom(n as nat, j as nat) as int, binom(n0 as nat, j as nat) as int, j);
        assert(j * binom(n as nat, j as nat) == binom(n as nat, j as nat) * j) by (nonlinear_arith);
        assert(j * binom(n0 as nat, j as nat) == binom(n0 as nat, j as nat) * j) by (nonlinear_arith);
        assert(1 <= j <= min_int(r0, n0 - r0));
    }
}

/// Counts the combinations of `r` items out of `n` with the multiplicative
/// formula, over the smaller of `r` and `n - r` factors.
pub fn count_combinations(n: i64, r: i64) -> (count: i64)
    requires
        count_fits(n as int, r as int),
    ensures
        count == count_spec(n as int, r as int),
{
    if r < 0 || r > n {
        return 0;
    }
    let k: i64 = if r < n - r {
        r
    } else {
        n - r
    };
    let mut acc: i64 = 1;
    let mut val: i64 = 1;
    while val <= k
        invariant
            0 <= r <= n,
            k == min_int(r as int, n - r),
            forall|j: int|
                1 <= j <= min_int(r as int, n - r) ==> #[trigger] (j * binom(n as nat, j as nat))
                    <= i64::MAX,
            1 <= val,
            k >= 1 ==> val <= k + 1,
            k >= 1 ==> acc == binom(n as nat, (val - 1) as nat),
            k < 1 ==> acc == 1,
        decreases k + 1 - val,
    {
        proof {
            lemma_binom_step(n as nat, (val - 1) as nat);
            assert(1 <= val <= min_int(r as int, n - r));
            assert(val * binom(n as nat, val as nat) <= i64::MAX);
            assert(acc * (n - val + 1) == binom(n as nat, val as nat) * val) by (nonlinear_arith)
                requires
                    acc == binom(n as nat, (val - 1) as nat),
                    (n - (val - 1)) * binom(n as nat, (val - 1) as nat) == val * binom(
                        n as nat,
                        val as nat,
                    ),
            ;
            lemma_div_by_multiple(binom(n as nat, val as nat) as int, val as int);
            assert(binom(n as nat, val as nat) * val == val * binom(n as nat, val as nat))
                by (nonlinear_arith);
        }
        let prod: i64 = acc * (n - val + 1);
        acc = prod / val;
        val = val + 1;
    }
    proof {
        if k <= 0 {
            if r == 0 {
            } else {
                assert(r == n);
                lemma_binom_diag(n as nat);
            }
        } else {
            assert(acc == binom(n as nat, k as nat));
            if k != r {
                lemma_binom_symmetric(n as nat, r as nat);
            }
        }
    }
    acc
}

/// Counts the combinations of `r` items out of `n` where the count can be
/// computed in `i64` (see `count_fits`), and says `None` where it cannot.
pub fn count_combinations_checked(n: i64, r: i64) -> (res: Option<i64>)
    ensures
        res is Some <==> count_fits(n as int, r as int),
        res matches Some(c) ==> c == count_spec(n as int, r as int),
{
    if r < 0 || r > n {
        return Some(count_combinations(n, r));
    }
    let diff = n - r;
    let k: i64 = if r < diff {
        r
    } else {
        diff
    };
    let mut acc: i64 = 1;
    let mut val: i64 = 1;
    while val <= k
        invariant
            0 <= r <= n,
            diff == n - r,
            k == min_int(r as int, n - r),
            1 <= val,
            k >= 1 ==> val <= k + 1,
            acc == binom(n as nat, (val - 1) as nat),
            forall|j: int| 1 <= j < val ==> #[trigger] (j * binom(n as nat, j as nat)) <= i64::MAX,
        decreases k + 1 - val,
    {
        proof {
            lemma_binom_step(n as nat, (val - 1) as nat);
            assert(acc * (n - val + 1) == val * binom(n as nat, val as nat)) by (nonlinear_arith)
                requires
                    acc == binom(n as nat, (val - 1) as nat),
                    (n - (val - 1)) * binom(n as nat, (val - 1) as nat) == val * binom(
                        n as nat,
                        val as nat,
                    ),
            ;
            assert(acc * (n - val + 1) >= 0) by (nonlinear_arith)
                requires
                    acc >= 0,
                    n - val + 1 >= 1,
            ;
        }
        match acc.checked_mul(n - val + 1) {
            Some(prod) => {
                proof {
                    lemma_div_by_multiple(binom(n as nat, val as nat) as int, val as int);
                    assert(binom(n as nat, val as nat) * val == val * binom(n as nat, val as nat))
                        by (nonlinear_arith);
                }
                acc = prod / val;
                val = val + 1;
            },
            None => {
                proof {
                    assert(1 <= val <= min_int(r as int, n - r));
                }
                return None;
            },
        }
    }
    proof {
        assert(count_fits(n as int, r as int));
    }
    Some(count_combinations(n, r))
}

proof fn lemma_rank_push(s: Seq<i64>, x: i64, r: int)
    ensures
        rank(s.push(x), r) == rank(s, r) + binom(x as nat, (r - s.len()) as nat),
    decreases s.len(),
{
    if s.len() == 0 {
        assert(s.push(x).drop_first() =~= Seq::<i64>::empty());
        assert(rank(s.push(x), r) == binom(x as nat, r as nat) + rank(Seq::<i64>::empty(), r - 1));
    } else {
        assert(s.push(x).drop_first() =~= s.drop_first().push(x));
        assert(s.push(x)[0] == s[0]);
        lemma_rank_push(s.drop_first(), x, r - 1);
        assert(rank(s.push(x), r) == binom(s[0] as nat, r as nat) + rank(s.drop_first().push(x), r - 1));
        assert(rank(s, r) == binom(s[0] as nat, r as nat) + rank(s.drop_first(), r - 1));
    }
}

/// Yields the combination of `r` items out of `[0, n)` that stands at the
/// 0-based position `index` of the list of all such combinations, the list
/// and each combination being in descending order. An index outside the list
/// yields nothing.
pub fn iter_combination(index: i64, n: i64, r: i64) -> (res: Vec<i64>)
    requires
        0 <= index ==> count_fits(n as int, r as int),
        0 <= index < count_spec(n as int, r as int) ==> n > i64::MIN,
    ensures
        !(0 <= index < count_spec(n as int, r as int)) ==> res@.len() == 0,
        0 <= index < count_spec(n as int, r as int) ==> is_combination_at(
            res@,
            index as int,
            n as int,
            r as int,
        ),
        0 <= index < count_spec(n as int, r as int) ==> count_rank(res@, r as int) == index,
{
    let mut res: Vec<i64> = Vec::new();
    if index < 0 {
        return res;
    }
    if index >= count_combinations(n, r) {
        return res;
    }
    let ghost index0 = index as int;
    let n0 = n;
    let r0 = r;
    let mut n = n - 1;
    let mut r = r;
    let mut index = index;
    if r0 <= 0 {
        proof {
            lemma_position_is_sum_of_counts(res@, n0 as int, r0 as int);
        }
        return res;
    }
    let mut step: i64 = 0;
    while step < r0
        invariant
            0 < r0 <= n0,
            count_fits(n0 as int, r0 as int),
            0 <= step <= r0,
            r == r0 - step,
            res@.len() == step,
            0 <= index,
            n + 1 >= 0,
            n + 1 >= r,
            n < n0,
            n - r <= n0 - r0 - 1,
            index < binom((n + 1) as nat, r as nat),
            index0 == rank(res@, r0 as int) + index,
            forall|i: int| 0 <= i < res@.len() ==> n < #[trigger] res@[i] < n0,
            forall|i: int, j: int|
                0 <= i < j < res@.len() ==> #[trigger] res@[i] > #[trigger] res@[j],
        decreases r0 - step,
    {
        proof {
            lemma_count_fits_smaller(n0 as int, r0 as int, n as int, r as int);
        }
        while count_combinations(n, r) > index
            invariant
                0 < r0 <= n0,
                count_fits(n0 as int, r0 as int),
                count_fits(n as int, r as int),
                0 <= step < r0,
                r == r0 - step,
                res@.len() == step,
                index0 == rank(res@, r0 as int) + index,
                forall|i: int| 0 <= i < res@.len() ==> n < #[trigger] res@[i] < n0,
                forall|i: int, j: int|
                    0 <= i < j < res@.len() ==> #[trigger] res@[i] > #[trigger] res@[j],
                1 <= r <= r0,
                0 <= index,
                n + 1 >= r,
                n < n0,
                n - r <= n0 - r0 - 1,
                index < binom((n + 1) as nat, r as nat),
            decreases n,
        {
            if r > n {
                assert(false);
            }
            n = n - 1;
            proof {
                lemma_count_fits_smaller(n0 as int, r0 as int, n as int, r as int);
            }
        }
        proof {
            if r > n {
                lemma_binom_above(n as nat, r as nat);
            }
            assert(binom((n + 1) as nat, r as nat) == binom(n as nat, (r - 1) as nat) + binom(
                n as nat,
                r as nat,
            ));
            lemma_rank_push(res@, n, r0 as int);
        }
        let c = count_combinations(n, r);
        res.push(n);
        index = index - c;
        n = n - 1;
        r = r - 1;
        step = step + 1;
    }
    proof {
        lemma_position_is_sum_of_counts(res@, n0 as int, r0 as int);
    }
    res
}

proof fn lemma_tail_is_combination(s: Seq<i64>, n: int, r: int)
    requires
        is_descending_combination(s, n, r),
        s.len() >= 1,
    ensures
        is_descending_combination(s.drop_first(), n, r - 1),
        forall|i: int| 0 <= i < s.drop_first().len() ==> #[trigger] s.drop_first()[i] < s[0],
{
    let t = s.drop_first();
    assert forall|i: int| 0 <= i < t.len() implies 0 <= #[trigger] t[i] < n && t[i] < s[0] by {
        assert(t[i] == s[i + 1]);
        assert(s[0] > s[i + 1]);
    }
    assert forall|i: int, j: int| 0 <= i < j < t.len() implies #[trigger] t[i] > #[trigger] t[j] by {
        assert(t[i] == s[i + 1] && t[j] == s[j + 1]);
        assert(s[i + 1] > s[j + 1]);
    }
}

/// The position of a non-empty descending combination lies below the first
/// position of combinations that start with a larger item.
proof fn lemma_rank_bound(s: Seq<i64>, n: int, r: int)
    requires
        is_descending_combination(s, n, r),
        r >= 1,
    ensures
        binom(s[0] as nat, r as nat) <= rank(s, r),
        rank(s, r) < binom((s[0] + 1) as nat, r as nat),
        s[0] >= r - 1,
    decreases s.len(),
{
    let t = s.drop_first();
    lemma_tail_is_combination(s, n, r);
    assert(rank(s, r) == binom(s[0] as nat, r as nat) + rank(t, r - 1));
    if r == 1 {
        assert(rank(t, r - 1) == 0);
        assert(t.len() == 0);
        lemma_binom_one(s[0] as nat);
        lemma_binom_one((s[0] + 1) as nat);
    } else {
        lemma_rank_bound(t, n, r - 1);
        assert(t[0] < s[0]);
        lemma_binom_monotone((t[0] + 1) as nat, s[0] as nat, (r - 1) as nat);
        assert(binom((s[0] + 1) as nat, r as nat) == binom(s[0] as nat, (r - 1) as nat) + binom(
            s[0] as nat,
            r as nat,
        ));
    }
}

/// Every combination of `r` items out of `[0, n)` has a position in the list
/// that `iter_combination` walks: its rank lies in `[0, count_combinations(n, r))`.
pub proof fn lemma_every_combination_has_a_position(s: Seq<i64>, n: int, r: int)
    requires
        is_descending_combination(s, n, r),
        r <= n,
    ensures
        0 <= rank(s, r) < count_spec(n, r),
{
    if r <= 0 {
        assert(s.len() == 0);
        if r == 0 {
            assert(binom(n as nat, 0) == 1);
        }
    } else {
        lemma_rank_bound(s, n, r);
        lemma_binom_monotone((s[0] + 1) as nat, n as nat, r as nat);
    }
}

/// Two combinations of `r` items out of `[0, n)` at the same position are the
/// same combination: the position determines the combination.
pub proof fn lemma_position_determines_combination(s1: Seq<i64>, s2: Seq<i64>, n: int, r: int)
    requires
        is_descending_combination(s1, n, r),
        is_descending_combination(s2, n, r),
        rank(s1, r) == rank(s2, r),
    ensures
        s1 == s2,
    decreases s1.len(),
{
    if s1.len() == 0 {
        assert(s1 =~= s2);
    } else {
        lemma_rank_bound(s1, n, r);
        lemma_rank_bound(s2, n, r);
        if s1[0] < s2[0] {
            lemma_binom_monotone((s1[0] + 1) as nat, s2[0] as nat, r as nat);
        } else if s2[0] < s1[0] {
            lemma_binom_monotone((s2[0] + 1) as nat, s1[0] as nat, r as nat);
        }
        assert(s1[0] == s2[0]);
        lemma_tail_is_combination(s1, n, r);
        lemma_tail_is_combination(s2, n, r);
        lemma_position_determines_combination(s1.drop_first(), s2.drop_first(), n, r - 1);
        assert(s1 =~= s2) by {
            assert forall|i: int| 0 <= i < s1.len() implies s1[i] == s2[i] by {
                if i > 0 {
                    assert(s1[i] == s1.drop_first()[i - 1]);
                    assert(s2[i] == s2.drop_first()[i - 1]);
                }
            }
        }
    }
}

/// Choosing `r` items out of `n` is choosing the `n - r` items left out.
pub proof fn lemma_count_symmetric(n: int, r: int)
    requires
        0 <= r <= n,
    ensures
        count_spec(n, r) == count_spec(n, n - r),
{
    lemma_binom_symmetric(n as nat, r as nat);
}

/// The position of a combination is its combinadic: the sum, over its items
/// in descending order, of the number of combinations of the remaining size
/// out of the item's value.
pub proof fn lemma_position_is_sum_of_counts(s: Seq<i64>, n: int, r: int)
    requires
        is_descending_combination(s, n, r),
    ensures
        rank(s, r) == count_rank(s, r),
    decreases s.len(),
{
    if s.len() > 0 {
        lemma_tail_is_combination(s, n, r);
        lemma_position_is_sum_of_counts(s.drop_first(), n, r - 1);
        if r > s[0] {
            lemma_binom_above(s[0] as nat, r as nat);
        }
    }
}

/// Positions follow lexicographic order: of two combinations of `r` items out
/// of `[0, n)`, each in descending order, the one at the lower position is the
/// lexicographically smaller.
pub proof fn lemma_positions_follow_lexicographic_order(s1: Seq<i64>, s2: Seq<i64>, n: int, r: int)
    requires
        is_descending_combination(s1, n, r),
        is_descending_combination(s2, n, r),
    ensures
        rank(s1, r) < rank(s2, r) <==> lex_less(s1, s2),
    decreases s1.len(),
{
    if s1.len() > 0 {
        lemma_rank_bound(s1, n, r);
        lemma_rank_bound(s2, n, r);
        if s1[0] < s2[0] {
            lemma_binom_monotone((s1[0] + 1) as nat, s2[0] as nat, r as nat);
        } else if s2[0] < s1[0] {
            lemma_binom_monotone((s2[0] + 1) as nat, s1[0] as nat, r as nat);
        } else {
            lemma_tail_is_combination(s1, n, r);
            lemma_tail_is_combination(s2, n, r);
            lemma_positions_follow_lexicographic_order(s1.drop_first(), s2.drop_first(), n, r - 1);
        }
    }
}

/// `C(m, a) <= C(m, b)` for `a <= b` in the rising half, `2 * b <= m`.
pub proof fn lemma_binom_rising(m: nat, a: nat, b: nat)
    requires
        a <= b,
        2 * b <= m,
    ensures
        binom(m, a) <= binom(m, b),
    decreases b - a,
{
    if a < b {
        lemma_binom_rising(m, a, (b - 1) as nat);
        lemma_binom_step(m, (b - 1) as nat);
        let x = binom(m, (b - 1) as nat);
        let y = binom(m, b);
        assert(x <= y) by (nonlinear_arith)
            requires
                (m - (b - 1)) * x == b * y,
                m - (b - 1) > b,
                b >= 1,
                x >= 0,
                y >= 0,
        ;
    }
}

/// `C(60, 30)`, computed step by step with the multiplicative formula.
proof fn lemma_binom_60_30()
    ensures
        binom(60, 30) == 118264581564861424,
{
    assert(binom(60, 0) == 1);
    lemma_binom_one(60);
    assert(binom(60, 1) == 60);
    lemma_binom_step(60, 1);
    assert(59 * binom(60, 1) == 2 * binom(60, 2));
    assert(binom(60, 2) == 1770);
    lemma_binom_step(60, 2);
    assert(58 * binom(60, 2) == 3 * binom(60, 3));
    assert(binom(60, 3) == 34220);
    lemma_binom_step(60, 3);
    assert(57 * binom(60, 3) == 4 * binom(60, 4));
    assert(binom(60, 4) == 487635);
    lemma_binom_step(60, 4);
    assert(56 * binom(60, 4) == 5 * binom(60, 5));
    assert(binom(60, 5) == 5461512);
    lemma_binom_step(60, 5);
    assert(55 * binom(60, 5) == 6 * binom(60, 6));
    assert(binom(60, 6) == 50063860);
    lemma_binom_step(60, 6);
    assert(54 * binom(60, 6) == 7 * binom(60, 7));
    assert(binom(60, 7) == 386206920);
    lemma_binom_step(60, 7);
    assert(53 * binom(60, 7) == 8 * binom(60, 8));
    assert(binom(60, 8) == 2558620845);
    lemma_binom_step(60, 8);
    assert(52 * binom(60, 8) == 9 * binom(60, 9));
    assert(binom(60, 9) == 14783142660);
    lemma_binom_step(60, 9);
    assert(51 * binom(60, 9) == 10 * binom(60, 10));
    assert(binom(60, 10) == 75394027566);
    lemma_binom_step(60, 10);
    assert(50 * binom(60, 10) == 11 * binom(60, 11));
    assert(binom(60, 11) == 342700125300);
    lemma_binom_step(60, 11);
    assert(49 * binom(60, 11) == 12 * binom(60, 12));
    assert(binom(60, 12) == 1399358844975);
    lemma_binom_step(60, 12);
    assert(48 * binom(60, 12) == 13 * binom(60, 13));
    assert(binom(60, 13) == 5166863427600);
    lemma_binom_step(60, 13);
    assert(47 * binom(60, 13) == 14 * binom(60, 14));
    assert(binom(60, 14) == 17345898649800);
    lemma_binom_step(60, 14);
    assert(46 * binom(60, 14) == 15 * binom(60, 15));
    assert(binom(60, 15) == 53194089192720);
    lemma_binom_step(60, 15);
    assert(45 * binom(60, 15) == 16 * binom(60, 16));
    assert(binom(60, 16) == 149608375854525);
    lemma_binom_step(60, 16);
    assert(44 * binom(60, 16) == 17 * binom(60, 17));
    assert(binom(60, 17) == 387221678682300);
    lemma_binom_step(60, 17);
    assert(43 * binom(60, 17) == 18 * binom(60, 18));
    assert(binom(60, 18) == 925029565741050);
    lemma_binom_step(60, 18);
    assert(42 * binom(60, 18) == 19 * binom(60, 19));
    assert(binom(60, 19) == 2044802197953900);
    lemma_binom_step(60, 19);
    assert(41 * binom(60, 19) == 20 * binom(60, 20));
    assert(binom(60, 20) == 4191844505805495);
    lemma_binom_step(60, 20);
    assert(40 * binom(60, 20) == 21 * binom(60, 21));
    assert(binom(60, 21) == 7984465725343800);
    lemma_binom_step(60, 21);
    assert(39 * binom(60, 21) == 22 * binom(60, 22));
    assert(binom(60, 22) == 14154280149473100);
    lemma_binom_step(60, 22);
    assert(38 * binom(60, 22) == 23 * binom(60, 23));
    assert(binom(60, 23) == 23385332420868600);
    lemma_binom_step(60, 23);
    assert(37 * binom(60, 23) == 24 * binom(60, 24));
    assert(binom(60, 24) == 36052387482172425);
    lemma_binom_step(60, 24);
    assert(36 * binom(60, 24) == 25 * binom(60, 25));
    assert(binom(60, 25) == 51915437974328292);
    lemma_binom_step(60, 25);
    assert(35 * binom(60, 25) == 26 * binom(60, 26));
    assert(binom(60, 26) == 69886166503903470);
    lemma_binom_step(60, 26);
    assert(34 * binom(60, 26) == 27 * binom(60, 27));
    assert(binom(60, 27) == 88004802264174740);
    lemma_binom_step(60, 27);
    assert(33 * binom(60, 27) == 28 * binom(60, 28));
    assert(binom(60, 28) == 103719945525634515);
    lemma_binom_step(60, 28);
    assert(32 * binom(60, 28) == 29 * binom(60, 29));
    assert(binom(60, 29) == 114449595062769120);
    lemma_binom_step(60, 29);
    assert(31 * binom(60, 29) == 30 * binom(60, 30));
    assert(binom(60, 30) == 118264581564861424);
}

/// Every count of combinations out of at most 61 items is computed within
/// `i64`: `count_combinations` and `iter_combination` accept every such input.
pub proof fn lemma_count_fits_up_to_61(n: int, r: int)
    requires
        n <= 61,
    ensures
        count_fits(n, r),
{
    if 0 <= r <= n {
        lemma_binom_60_30();
        assert forall|j: int| 1 <= j <= min_int(r, n - r) implies #[trigger] (j * binom(
            n as nat,
            j as nat,
        )) <= i64::MAX by {
            lemma_binom_absorb(n as nat, j as nat);
            lemma_binom_monotone((n - 1) as nat, 60, (j - 1) as nat);
            lemma_binom_rising(60, (j - 1) as nat, 30);
            let x = binom((n - 1) as nat, (j - 1) as nat);
            assert(n * x <= 61 * 118264581564861424) by (nonlinear_arith)
                requires
                    0 <= n <= 61,
                    0 <= x <= 118264581564861424,
            ;
        }
    }
}

/// Walking the positions upwards walks the combinations in lexicographic
/// order: the combination at a lower position is the lexicographically smaller.
pub proof fn lemma_iteration_in_lexicographic_order(
    s1: Seq<i64>,
    s2: Seq<i64>,
    i: int,
    j: int,
    n: int,
    r: int,
)
    requires
        is_combination_at(s1, i, n, r),
        is_combination_at(s2, j, n, r),
        i < j,
    ensures
        lex_less(s1, s2),
{
    lemma_positions_follow_lexicographic_order(s1, s2, n, r);
}

} // verus!
