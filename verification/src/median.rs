//! The median of double-precision numbers, given by their bits.

use vstd::prelude::*;

verus! {

/// The number without its sign.
pub open spec fn magnitude(bits: u64) -> int {
    if bits < 0x8000_0000_0000_0000 {
        bits as int
    } else {
        bits - 0x8000_0000_0000_0000
    }
}

/// Neither an infinity nor no number at all.
pub open spec fn is_finite(bits: u64) -> bool {
    magnitude(bits) < 0x7FF0_0000_0000_0000
}

/// Finite numbers are in the order of these; the two zeros are alike.
pub open spec fn order(bits: u64) -> int {
    if bits < 0x8000_0000_0000_0000 {
        magnitude(bits)
    } else {
        -magnitude(bits)
    }
}

/// How many of the values are finite and below `o`, or, with `upto`, not above
/// it.
pub open spec fn count(values: Seq<u64>, o: int, upto: bool) -> nat
    decreases values.len(),
{
    if values.len() == 0 {
        0
    } else {
        count(values.drop_last(), o, upto) + (if counts(values.last(), o, upto) {
            1nat
        } else {
            0
        })
    }
}

/// Whether a value counts; see [`count`].
pub open spec fn counts(v: u64, o: int, upto: bool) -> bool {
    is_finite(v) && (order(v) < o || (upto && order(v) == o))
}

/// How many of the values are finite.
pub open spec fn finite(values: Seq<u64>) -> nat
    decreases values.len(),
{
    if values.len() == 0 {
        0
    } else {
        finite(values.drop_last()) + (if is_finite(values.last()) {
            1nat
        } else {
            0
        })
    }
}

/// Whether `v` is a finite one of the values and has place `k` among them, from
/// the smallest.
pub open spec fn has_rank(values: Seq<u64>, k: int, v: u64) -> bool {
    &&& values.contains(v)
    &&& is_finite(v)
    &&& count(values, order(v), false) <= k < count(values, order(v), true)
}

/// What is in the middle: nothing, one value, or the mean of two.
#[derive(Clone, Copy, Debug, PartialEq, Eq, Structural)]
pub enum Median {
    Nothing,
    One(u64),
    Between(u64, u64),
}

/// The median of the finite values.
pub open spec fn is_median(values: Seq<u64>, m: Median) -> bool {
    let n = finite(values) as int;
    match m {
        Median::Nothing => n == 0,
        Median::One(v) => n % 2 == 1 && has_rank(values, n / 2, v),
        Median::Between(a, b) => n > 0 && n % 2 == 0 && has_rank(values, n / 2 - 1, a) && has_rank(values, n / 2, b),
    }
}

/// Whether the values are finite and none is above one behind it.
spec fn is_sorted(s: Seq<u64>) -> bool {
    &&& forall|i: int| 0 <= i < s.len() ==> is_finite(#[trigger] s[i])
    &&& forall|i: int, j: int| 0 <= i <= j < s.len() ==> order(#[trigger] s[i]) <= order(#[trigger] s[j])
}

/// One more value counts as one more, wherever it stands.
proof fn counted_anywhere(s: Seq<u64>, p: int, v: u64, o: int, upto: bool)
    requires
        0 <= p <= s.len(),
    ensures
        count(s.insert(p, v), o, upto) == count(s, o, upto) + (if counts(v, o, upto) {
            1nat
        } else {
            0
        }),
    decreases s.len(),
{
    let t = s.insert(p, v);
    if p == s.len() {
        assert(t.drop_last() =~= s);
    } else {
        assert(t.drop_last() =~= s.drop_last().insert(p, v));
        assert(t.last() == s.last());
        counted_anywhere(s.drop_last(), p, v, o, upto);
    }
}

/// Below the value at `k` are only values before it.
proof fn few_are_below(s: Seq<u64>, k: int, o: int)
    requires
        is_sorted(s),
        0 <= k <= s.len(),
        forall|j: int| k <= j < s.len() ==> order(#[trigger] s[j]) >= o,
    ensures
        count(s, o, false) <= k,
    decreases s.len(),
{
    if s.len() > 0 {
        let t = s.drop_last();
        assert forall|i: int| 0 <= i < t.len() implies is_finite(#[trigger] t[i]) by {
            assert(t[i] == s[i]);
        }
        assert forall|i: int, j: int| 0 <= i <= j < t.len() implies order(#[trigger] t[i]) <= order(#[trigger] t[j]) by {
            assert(t[i] == s[i] && t[j] == s[j]);
        }
        if k == s.len() {
            few_are_below(t, k - 1, o);
        } else {
            assert forall|j: int| k <= j < t.len() implies order(#[trigger] t[j]) >= o by {
                assert(t[j] == s[j]);
            }
            few_are_below(t, k, o);
        }
    }
}

/// Up to the value at `k` are all the values before it, and it.
proof fn many_are_upto(s: Seq<u64>, k: int, o: int)
    requires
        is_sorted(s),
        0 <= k <= s.len(),
        forall|j: int| 0 <= j < k ==> order(#[trigger] s[j]) <= o,
    ensures
        count(s, o, true) >= k,
    decreases s.len(),
{
    if s.len() > 0 {
        let t = s.drop_last();
        assert forall|i: int| 0 <= i < t.len() implies is_finite(#[trigger] t[i]) by {
            assert(t[i] == s[i]);
        }
        assert forall|i: int, j: int| 0 <= i <= j < t.len() implies order(#[trigger] t[i]) <= order(#[trigger] t[j]) by {
            assert(t[i] == s[i] && t[j] == s[j]);
        }
        if k == s.len() {
            assert(order(s[k - 1]) <= o);
            assert forall|j: int| 0 <= j < k - 1 implies order(#[trigger] t[j]) <= o by {
                assert(t[j] == s[j]);
            }
            many_are_upto(t, k - 1, o);
        } else {
            assert forall|j: int| 0 <= j < k implies order(#[trigger] t[j]) <= o by {
                assert(t[j] == s[j]);
            }
            many_are_upto(t, k, o);
        }
    }
}

/// Whether `s` holds the finite ones of `values` in order.
spec fn sorts(values: Seq<u64>, s: Seq<u64>) -> bool {
    &&& is_sorted(s)
    &&& s.len() == finite(values)
    &&& forall|o: int, upto: bool| #[trigger] count(s, o, upto) == count(values, o, upto)
    &&& forall|i: int| 0 <= i < s.len() ==> values.contains(#[trigger] s[i])
}

/// The value at `k` has that rank.
proof fn a_place_is_a_rank(values: Seq<u64>, s: Seq<u64>, k: int)
    requires
        sorts(values, s),
        0 <= k < s.len(),
    ensures
        has_rank(values, k, s[k]),
{
    let o = order(s[k]);
    few_are_below(s, k, o);
    many_are_upto(s, k + 1, o);
    assert(count(s, o, false) == count(values, o, false));
    assert(count(s, o, true) == count(values, o, true));
}

fn is_finite_exec(bits: u64) -> (r: bool)
    ensures
        r == is_finite(bits),
{
    if bits < 0x8000_0000_0000_0000 {
        bits < 0x7FF0_0000_0000_0000
    } else {
        bits - 0x8000_0000_0000_0000 < 0x7FF0_0000_0000_0000
    }
}

fn order_exec(bits: u64) -> (r: i64)
    requires
        is_finite(bits),
    ensures
        r == order(bits),
{
    if bits < 0x8000_0000_0000_0000 {
        bits as i64
    } else {
        -((bits - 0x8000_0000_0000_0000) as i64)
    }
}

/// Puts a finite value behind those that are not above it.
fn put(s: &mut Vec<u64>, v: u64) -> (p: usize)
    requires
        is_sorted(old(s)@),
        is_finite(v),
    ensures
        p <= old(s)@.len(),
        final(s)@ == old(s)@.insert(p as int, v),
        is_sorted(final(s)@),
{
    let mut p: usize = s.len();
    while p > 0 && order_exec(s[p - 1]) > order_exec(v)
        invariant
            p <= s@.len(),
            s@ == old(s)@,
            is_sorted(s@),
            is_finite(v),
            forall|j: int| p <= j < s@.len() ==> order(#[trigger] s@[j]) > order(v),
        decreases p,
    {
        p = p - 1;
    }
    s.insert(p, v);
    proof {
        let before = old(s)@;
        let after = s@;
        assert forall|i: int| 0 <= i < after.len() implies is_finite(#[trigger] after[i]) by {
            if i < p {
                assert(after[i] == before[i]);
            } else if i > p {
                assert(after[i] == before[i - 1]);
            }
        }
        assert forall|i: int, j: int| 0 <= i <= j < after.len() implies order(#[trigger] after[i]) <= order(
            #[trigger] after[j],
        ) by {
            let a = if i < p {
                i
            } else {
                i - 1
            };
            let b = if j < p {
                j
            } else {
                j - 1
            };
            if i != p {
                assert(after[i] == before[a]);
            }
            if j != p {
                assert(after[j] == before[b]);
            }
            if i < p && j == p {
                assert(order(before[i]) <= order(before[p - 1]));
            }
        }
    }
    p
}

/// The median of the finite values; see [`is_median`].
pub fn median(values: &Vec<u64>) -> (r: Median)
    ensures
        is_median(values@, r),
{
    let mut s: Vec<u64> = Vec::new();
    let mut i: usize = 0;
    assert(values@.take(0) =~= Seq::<u64>::empty());
    while i < values.len()
        invariant
            i <= values@.len(),
            sorts(values@.take(i as int), s@),
        decreases values@.len() - i,
    {
        let v = values[i];
        let ghost seen = values@.take(i as int);
        let ghost now = values@.take(i + 1);
        let ghost before = s@;
        assert(now.drop_last() =~= seen);
        assert(now.last() == v);
        assert forall|x: u64| seen.contains(x) implies now.contains(x) by {
            let k = choose|k: int| 0 <= k < seen.len() && seen[k] == x;
            assert(now[k] == x);
        }
        assert(now[i as int] == v);
        if is_finite_exec(v) {
            let p = put(&mut s, v);
            proof {
                assert forall|o: int, upto: bool| #[trigger] count(s@, o, upto) == count(now, o, upto) by {
                    counted_anywhere(before, p as int, v, o, upto);
                    assert(count(before, o, upto) == count(seen, o, upto));
                }
                assert forall|k: int| 0 <= k < s@.len() implies now.contains(#[trigger] s@[k]) by {
                    if k < p {
                        assert(s@[k] == before[k]);
                    } else if k > p {
                        assert(s@[k] == before[k - 1]);
                    }
                }
            }
        } else {
            assert forall|o: int, upto: bool| #[trigger] count(s@, o, upto) == count(now, o, upto) by {
                assert(count(before, o, upto) == count(seen, o, upto));
            }
        }
        i = i + 1;
    }
    assert(values@.take(values@.len() as int) =~= values@);
    let n = s.len();
    if n == 0 {
        return Median::Nothing;
    }
    let mid: usize = n / 2;
    proof {
        a_place_is_a_rank(values@, s@, mid as int);
        if n % 2 == 0 {
            a_place_is_a_rank(values@, s@, mid - 1);
        }
    }
    if n % 2 == 1 {
        Median::One(s[mid])
    } else {
        Median::Between(s[mid - 1], s[mid])
    }
}

/// A double as an integer that orders the finite ones: its bits where it has no
/// sign, else what they are above those of minus zero, negated.
pub open spec fn number(bits: u64) -> int {
    if bits < 0x8000_0000_0000_0000 {
        bits as int
    } else {
        0x8000_0000_0000_0000 - bits
    }
}

/// The finite ones of the values.
pub open spec fn only_finite(values: Seq<u64>) -> Seq<u64> {
    values.filter(|x: u64| -0x7FF0_0000_0000_0000 < number(x) < 0x7FF0_0000_0000_0000)
}

proof fn counting_is_filtering(values: Seq<u64>, o: int)
    ensures
        finite(values) == only_finite(values).len(),
        count(values, o, false) == only_finite(values).filter(|x: u64| number(x) < o).len(),
        count(values, o, true) + only_finite(values).filter(|x: u64| number(x) > o).len() == finite(values),
    decreases values.len(),
{
    reveal(Seq::filter);
    let f = |x: u64| -0x7FF0_0000_0000_0000 < number(x) < 0x7FF0_0000_0000_0000;
    let below = |x: u64| number(x) < o;
    let above = |x: u64| number(x) > o;
    if values.len() > 0 {
        let rest = values.drop_last();
        let v = values.last();
        counting_is_filtering(rest, o);
        let kept = only_finite(rest);
        assert(only_finite(values) =~= if f(v) {
            kept.push(v)
        } else {
            kept
        });
        assert(kept.push(v).drop_last() =~= kept);
        assert(kept.push(v).last() == v);
        assert(kept.push(v).filter(below) =~= if below(v) {
            kept.filter(below).push(v)
        } else {
            kept.filter(below)
        });
        assert(kept.push(v).filter(above) =~= if above(v) {
            kept.filter(above).push(v)
        } else {
            kept.filter(above)
        });
        assert(number(v) == order(v));
        assert(f(v) == is_finite(v));
    } else {
        assert(only_finite(values) =~= Seq::empty());
        assert(only_finite(values).filter(below) =~= Seq::empty());
        assert(only_finite(values).filter(above) =~= Seq::empty());
    }
}

/// The median has no more of the finite values below it than above it, and no
/// more above it than below it, but for those equal to it: of an odd number of
/// them it is one with at most half of the others on either side, of an even
/// number the two in the middle. Of no finite value there is none.
pub proof fn a_median_is_in_the_middle(values: Seq<u64>, m: Median)
    requires
        is_median(values, m),
    ensures
        ({
            let kept = only_finite(values);
            let n = kept.len() as int;
            match m {
                Median::Nothing => n == 0,
                Median::One(v) => {
                    &&& n % 2 == 1
                    &&& kept.contains(v)
                    &&& 2 * kept.filter(|x: u64| number(x) < number(v)).len() <= n - 1
                    &&& 2 * kept.filter(|x: u64| number(x) > number(v)).len() <= n - 1
                },
                Median::Between(a, b) => {
                    &&& n > 0
                    &&& n % 2 == 0
                    &&& kept.contains(a)
                    &&& kept.contains(b)
                    &&& number(a) <= number(b)
                    &&& 2 * kept.filter(|x: u64| number(x) < number(a)).len() <= n - 2
                    &&& 2 * kept.filter(|x: u64| number(x) > number(a)).len() <= n
                    &&& 2 * kept.filter(|x: u64| number(x) < number(b)).len() <= n
                    &&& 2 * kept.filter(|x: u64| number(x) > number(b)).len() <= n - 2
                },
            }
        }),
{
    counting_is_filtering(values, 0);
    match m {
        Median::Nothing => {},
        Median::One(v) => {
            counting_is_filtering(values, number(v));
            a_finite_value_is_kept(values, v);
        },
        Median::Between(a, b) => {
            counting_is_filtering(values, number(a));
            counting_is_filtering(values, number(b));
            a_finite_value_is_kept(values, a);
            a_finite_value_is_kept(values, b);
            if number(b) < number(a) {
                more_are_below_more(values, number(b), number(a));
            }
        },
    }
}

proof fn a_finite_value_is_kept(values: Seq<u64>, v: u64)
    requires
        values.contains(v),
        is_finite(v),
    ensures
        only_finite(values).contains(v),
    decreases values.len(),
{
    reveal(Seq::filter);
    let i = choose|i: int| 0 <= i < values.len() && values[i] == v;
    let rest = values.drop_last();
    if i == values.len() - 1 {
        assert(only_finite(values).last() == v);
    } else {
        assert(rest[i] == v);
        a_finite_value_is_kept(rest, v);
        let k = choose|k: int| 0 <= k < only_finite(rest).len() && only_finite(rest)[k] == v;
        assert(only_finite(values)[k] == v);
    }
}

proof fn more_are_below_more(values: Seq<u64>, p: int, q: int)
    requires
        p < q,
    ensures
        count(values, p, true) <= count(values, q, false),
    decreases values.len(),
{
    if values.len() > 0 {
        more_are_below_more(values.drop_last(), p, q);
    }
}

} // verus!
