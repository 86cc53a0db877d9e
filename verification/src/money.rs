//! Amounts of money and counts as text. Money is integer micro-dollars: one
//! dollar is 1,000,000.
//!
//! A printed amount is the double nearest to the micro-dollars divided by a
//! million, rounded to two or four decimals. That decides how an amount halfway
//! between two printed values comes out, so the arithmetic of the double is
//! spelled out here, in integers.

use crate::text;
use vstd::prelude::*;

verus! {

/// `n / d` to the nearest integer, a half to the even one.
pub open spec fn round_half_even(n: int, d: int) -> int {
    let q = n / d;
    let r = n % d;
    if 2 * r < d {
        q
    } else if 2 * r > d {
        q + 1
    } else {
        q + q % 2
    }
}

/// The largest integer with a 53-bit significand, and one more.
pub const TWO_POW_53: u128 = 9_007_199_254_740_992;

pub const TWO_POW_52: u128 = 4_503_599_627_370_496;

/// The spacing of the doubles around `x`, by doubling `unit` from 1.
pub open spec fn spacing(x: int, unit: int) -> int
    decreases x - unit,
{
    if unit <= 0 || x < unit * TWO_POW_53 {
        unit
    } else {
        spacing(x, 2 * unit)
    }
}

/// The double nearest to the integer `x`, itself an integer.
pub open spec fn double_of(x: int) -> int {
    round_half_even(x, spacing(x, 1)) * spacing(x, 1)
}

/// `(n * 2^s, unit * 2^s)` for the least `s` that brings `n` up to `target`.
pub open spec fn doubled(n: int, unit: int, target: int) -> (int, int)
    decreases 2 * target - n,
{
    if n <= 0 || n >= target {
        (n, unit)
    } else {
        doubled(2 * n, 2 * unit, target)
    }
}

/// The double nearest to `x` millionths, as a fraction of integers.
pub open spec fn millionths(x: int) -> (int, int) {
    let up = doubled(x, 1, TWO_POW_52 * 1_000_000);
    (round_half_even(up.0, 1_000_000), up.1)
}

/// `micros` micro-dollars as a whole number of the last printed decimal.
pub open spec fn printed_units(micros: int, places: int) -> int {
    let value = millionths(double_of(micros));
    round_half_even(value.0 * (if places == 4 { 10_000int } else { 100int }), value.1)
}

/// Four decimals under a dollar (and for what is owed), two otherwise.
pub open spec fn money_places(micros: int) -> int {
    if micros != 0 && micros < 1_000_000 {
        4
    } else {
        2
    }
}

/// An amount as it is printed: a dollar sign, a minus sign for a negative
/// amount, and the decimals.
pub open spec fn money_text(micros: int) -> Seq<char> {
    let places = money_places(micros);
    let magnitude = if micros < 0 {
        -micros
    } else {
        micros
    };
    let units = if micros == 0 {
        0
    } else {
        printed_units(magnitude, places)
    };
    let one = if places == 4 {
        10_000int
    } else {
        100int
    };
    "$"@ + (if micros < 0 {
        "-"@
    } else {
        Seq::empty()
    }) + text::dec(units / one) + "."@ + text::pad_start(text::dec(units % one), '0', places)
}

fn round_half_even_exec(n: u128, d: u128) -> (r: u128)
    requires
        0 < d <= 0x1_0000_0000_0000_0000_0000_0000,
        n <= 0x1_0000_0000_0000_0000_0000_0000,
    ensures
        r == round_half_even(n as int, d as int),
        r <= n / d + 1,
        r >= n / d,
{
    let q: u128 = n / d;
    let r: u128 = n % d;
    proof {
        assert(q <= n) by (nonlinear_arith)
            requires
                q == n / d,
                0 < d,
        ;
    }
    if 2 * r < d {
        q
    } else if 2 * r > d {
        q + 1
    } else {
        q + q % 2
    }
}

fn spacing_exec(x: u128, unit: u128) -> (r: u128)
    requires
        x <= 0x8000_0000_0000_0000,
        1 <= unit <= 2048,
    ensures
        r == spacing(x as int, unit as int),
        unit <= r,
        r <= 2048,
        x < r * TWO_POW_53,
        unit == 1 ==> r == 1 || r * TWO_POW_52 <= x,
        r == unit || r * TWO_POW_52 <= x,
    decreases 4096 - unit,
{
    if x < unit * TWO_POW_53 {
        unit
    } else {
        spacing_exec(x, 2 * unit)
    }
}

fn double_of_exec(x: u128) -> (r: u128)
    requires
        x <= 0x8000_0000_0000_0000,
    ensures
        r == double_of(x as int),
        r <= 0x8000_0000_0000_0800,
        x >= 1 ==> r >= 1,
{
    let unit: u128 = spacing_exec(x, 1);
    let steps: u128 = round_half_even_exec(x, unit);
    proof {
        let q = x as int / unit as int;
        assert(q * unit <= x && x < q * unit + unit) by (nonlinear_arith)
            requires
                q == x as int / unit as int,
                1 <= unit,
        ;
        assert(steps * unit <= q * unit + unit) by (nonlinear_arith)
            requires
                steps <= q + 1,
                1 <= unit,
        ;
        if unit > 1 {
            assert(q >= 1) by (nonlinear_arith)
                requires
                    x < q * unit + unit,
                    unit * 4_503_599_627_370_496 <= x,
                    1 <= unit,
            ;
        }
        assert(steps >= 1 ==> steps * unit >= 1) by (nonlinear_arith)
            requires
                1 <= unit,
        ;
        assert(unit == 1 ==> x as int / 1 == x && x as int % 1 == 0);
    }
    steps * unit
}

fn doubled_exec(n: u128, unit: u128, target: u128) -> (r: (u128, u128))
    requires
        1 <= n,
        1 <= unit,
        unit <= n,
        target <= 0x100_0000_0000_0000_0000,
        n <= 2 * target,
    ensures
        r.0 == doubled(n as int, unit as int, target as int).0,
        r.1 == doubled(n as int, unit as int, target as int).1,
        1 <= r.1 <= r.0,
        r.0 >= target,
        r.0 <= 2 * target,
    decreases 2 * target - n,
{
    if n >= target {
        (n, unit)
    } else {
        doubled_exec(2 * n, 2 * unit, target)
    }
}

fn printed_units_exec(micros: u128, four: bool) -> (r: u128)
    requires
        1 <= micros <= 0x8000_0000_0000_0000,
    ensures
        r == printed_units(micros as int, if four { 4int } else { 2int }),
{
    let x: u128 = double_of_exec(micros);
    let (n, unit) = doubled_exec(x, 1, TWO_POW_52 * 1_000_000);
    let significand: u128 = round_half_even_exec(n, 1_000_000);
    let one: u128 = if four { 10_000 } else { 100 };
    round_half_even_exec(significand * one, unit)
}

/// An amount of micro-dollars as `$2.50`, or as `$0.0015` under a dollar.
pub fn money(micros: i64) -> (r: String)
    ensures
        r@ == money_text(micros as int),
{
    let four = micros != 0 && micros < 1_000_000;
    let magnitude: u128 = if micros < 0 { (-(micros as i128)) as u128 } else { micros as u128 };
    let units: u128 = if micros == 0 { 0 } else { printed_units_exec(magnitude, four) };
    let one: u128 = if four { 10_000 } else { 100 };
    let mut r = text::owned("$");
    if micros < 0 {
        r.append("-");
    }
    assert(r@ =~= "$"@ + (if micros < 0 {
        "-"@
    } else {
        Seq::empty()
    }));
    r.append(text::dec_u128(units / one).as_str());
    r.append(".");
    let rest = text::dec_u128(units % one);
    r.append(text::pad_start_exec(rest.as_str(), '0', if four { 4 } else { 2 }).as_str());
    r
}

/// `digits` with a comma before every group of three counted from the end.
pub open spec fn comma_grouped(digits: Seq<char>) -> Seq<char>
    decreases digits.len(),
{
    if digits.len() <= 3 {
        digits
    } else {
        comma_grouped(digits.take(digits.len() - 3)) + ","@ + digits.skip(digits.len() - 3)
    }
}

/// A count with its thousands grouped.
pub open spec fn grouped_text(value: int) -> Seq<char> {
    if value < 0 {
        "-"@ + comma_grouped(text::dec(-value))
    } else {
        comma_grouped(text::dec(value))
    }
}

fn comma_grouped_exec(v: &Vec<char>, to: usize) -> (r: String)
    requires
        to <= v@.len(),
    ensures
        r@ == comma_grouped(v@.take(to as int)),
    decreases to,
{
    if to <= 3 {
        let r = text::string_of_range(v, 0, to);
        assert(v@.subrange(0, to as int) =~= v@.take(to as int));
        r
    } else {
        let head = comma_grouped_exec(v, to - 3);
        let tail = text::string_of_range(v, to - 3, to);
        proof {
            let d = v@.take(to as int);
            assert(d.take(d.len() - 3) =~= v@.take(to - 3));
            assert(d.skip(d.len() - 3) =~= v@.subrange(to - 3, to as int));
        }
        text::cat3(head.as_str(), ",", tail.as_str())
    }
}

/// A count with its thousands grouped: `1,234`.
pub fn grouped(value: i64) -> (r: String)
    requires
        value != i64::MIN,
    ensures
        r@ == grouped_text(value as int),
{
    let magnitude: i64 = if value < 0 { -value } else { value };
    let digits = text::dec_i64(magnitude);
    let v = text::chars_of(digits.as_str());
    let r = comma_grouped_exec(&v, v.len());
    assert(v@.take(v@.len() as int) =~= v@);
    if value < 0 {
        text::cat2("-", r.as_str())
    } else {
        r
    }
}

/// `s` without its commas.
pub open spec fn no_commas(s: Seq<char>) -> Seq<char> {
    s.filter(|c: char| c != ',')
}

proof fn filtering_parts(a: Seq<char>, b: Seq<char>)
    ensures
        no_commas(a + b) == no_commas(a) + no_commas(b),
    decreases b.len(),
{
    reveal(Seq::filter);
    if b.len() == 0 {
        assert(a + b =~= a);
        assert(no_commas(b) =~= Seq::empty());
        assert(no_commas(a) + no_commas(b) =~= no_commas(a));
    } else {
        filtering_parts(a, b.drop_last());
        assert((a + b).drop_last() =~= a + b.drop_last());
        assert((a + b).last() == b.last());
        assert(no_commas(a + b) =~= no_commas(a) + no_commas(b));
    }
}

proof fn no_comma_is_dropped(s: Seq<char>)
    requires
        forall|i: int| 0 <= i < s.len() ==> #[trigger] s[i] != ',',
    ensures
        no_commas(s) == s,
    decreases s.len(),
{
    reveal(Seq::filter);
    if s.len() > 0 {
        let rest = s.drop_last();
        assert forall|i: int| 0 <= i < rest.len() implies #[trigger] rest[i] != ',' by {
            assert(rest[i] == s[i]);
        }
        no_comma_is_dropped(rest);
        assert(no_commas(s) =~= s);
    } else {
        assert(no_commas(s) =~= s);
    }
}

/// A grouped number has the same digits in the same order, and a comma at every
/// fourth place from the end and nowhere else.
pub proof fn grouping_only_adds_commas(digits: Seq<char>)
    requires
        forall|i: int| 0 <= i < digits.len() ==> #[trigger] digits[i] != ',',
    ensures
        no_commas(comma_grouped(digits)) == digits,
        forall|i: int|
            0 <= i < comma_grouped(digits).len() ==> (#[trigger] comma_grouped(digits)[i] == ',' <==> (
            comma_grouped(digits).len() - i) % 4 == 0),
        digits.len() > 0 ==> comma_grouped(digits).len() > 0 && comma_grouped(digits)[0] != ',',
    decreases digits.len(),
{
    if digits.len() <= 3 {
        no_comma_is_dropped(digits);
    } else {
        reveal_strlit(",");
        let head = digits.take(digits.len() - 3);
        let tail = digits.skip(digits.len() - 3);
        let front = comma_grouped(head);
        assert forall|i: int| 0 <= i < head.len() implies #[trigger] head[i] != ',' by {
            assert(head[i] == digits[i]);
        }
        assert forall|i: int| 0 <= i < tail.len() implies #[trigger] tail[i] != ',' by {
            assert(tail[i] == digits[digits.len() - 3 + i]);
        }
        grouping_only_adds_commas(head);
        no_comma_is_dropped(tail);
        filtering_parts(front + ","@, tail);
        filtering_parts(front, ","@);
        assert(no_commas(","@) =~= Seq::empty()) by {
            reveal(Seq::filter);
            assert(","@.drop_last() =~= Seq::empty());
            assert(","@.last() == ',');
            assert(no_commas(","@.drop_last()) =~= Seq::empty());
        }
        assert(no_commas(front) + no_commas(","@) =~= head);
        assert(head + tail =~= digits);
        let all = comma_grouped(digits);
        assert(all.len() == front.len() + 4);
        assert forall|i: int| 0 <= i < all.len() implies (#[trigger] all[i] == ',' <==> (all.len() - i) % 4 == 0) by {
            if i < front.len() {
                assert(all[i] == front[i]);
                assert((all.len() - i) % 4 == (front.len() - i) % 4);
            } else if i > front.len() {
                assert(all[i] == tail[i - front.len() - 1]);
            }
        }
        assert(all[0] == front[0]);
    }
}

proof fn rounding_is_near(n: int, d: int)
    requires
        d > 0,
    ensures
        -d <= 2 * (round_half_even(n, d) * d - n) <= d,
{
    let q = n / d;
    let r = n % d;
    assert(n == q * d + r && 0 <= r < d) by (nonlinear_arith)
        requires
            d > 0,
            q == n / d,
            r == n % d,
    ;
    assert((q + 1) * d == q * d + d) by (nonlinear_arith);
    assert(q % 2 == 0 || q % 2 == 1);
}

proof fn doubling_keeps_the_ratio(n: int, unit: int, target: int)
    requires
        n > 0,
        unit > 0,
    ensures
        doubled(n, unit, target).0 * unit == n * doubled(n, unit, target).1,
        doubled(n, unit, target).0 >= target,
        doubled(n, unit, target).1 > 0,
    decreases 2 * target - n,
{
    if n < target {
        doubling_keeps_the_ratio(2 * n, 2 * unit, target);
        let (a, b) = doubled(2 * n, 2 * unit, target);
        assert(a * unit == n * b) by (nonlinear_arith)
            requires
                a * (2 * unit) == (2 * n) * b,
        ;
    }
}

/// An amount that is printed is the amount: what stands behind the dollar sign
/// differs from it by no more than half of the last decimal, and a fiftieth of
/// that half for what a double cannot hold. There are four decimals under a dollar
/// and two from there on.
pub proof fn a_printed_amount_is_near(micros: int) -> (units: int)
    requires
        -TWO_POW_53 < micros < TWO_POW_53,
    ensures
        ({
            let size = if micros < 0 {
                -micros
            } else {
                micros
            };
            let places: int = if micros != 0 && micros < 1_000_000 {
                4
            } else {
                2
            };
            let one: int = if places == 4 {
                10_000
            } else {
                100
            };
            &&& 0 <= units
            &&& -510_000 <= units * 1_000_000 - size * one <= 510_000
            &&& money_text(micros) == (if micros < 0 {
                seq!['$', '-']
            } else {
                seq!['$']
            }) + text::dec(units / one) + seq!['.'] + text::pad_start(text::dec(units % one), '0', places)
        }),
{
    reveal_strlit("$");
    reveal_strlit("-");
    reveal_strlit(".");
    let x = if micros < 0 {
        -micros
    } else {
        micros
    };
    let places = money_places(micros);
    let one: int = if places == 4 {
        10_000
    } else {
        100
    };
    let units = if micros == 0 {
        0
    } else {
        printed_units(x, places)
    };
    assert("$"@ =~= seq!['$']);
    assert("."@ =~= seq!['.']);
    assert("$"@ + "-"@ =~= seq!['$', '-']);
    assert("$"@ + Seq::<char>::empty() =~= seq!['$']);
    if micros != 0 {
        assert(spacing(x, 1) == 1);
        rounding_is_near(x, 1);
        assert(double_of(x) == x) by (nonlinear_arith)
            requires
                double_of(x) == round_half_even(x, 1) * 1,
                -1 <= 2 * (round_half_even(x, 1) * 1 - x) <= 1,
        ;
        let target = TWO_POW_52 * 1_000_000;
        doubling_keeps_the_ratio(x, 1, target);
        let (a, d) = doubled(x, 1, target);
        let v = round_half_even(a, 1_000_000);
        rounding_is_near(a, 1_000_000);
        rounding_is_near(v * one, d);
        assert(units == round_half_even(v * one, d));
        assert(d > 500_000) by (nonlinear_arith)
            requires
                x * d == a,
                a >= 4_503_599_627_370_496int * 1_000_000,
                0 < x < 9_007_199_254_740_992int,
                d > 0,
        ;
        let off = units * 1_000_000 - x * one;
        // Both roundings together, over the common denominator.
        assert(-2 * 510_000 * d <= 2 * off * d <= 2 * 510_000 * d) by (nonlinear_arith)
            requires
                off == units * 1_000_000 - x * one,
                -d <= 2 * (units * d - v * one) <= d,
                -1_000_000 <= 2 * (v * 1_000_000 - a) <= 1_000_000,
                a == x * d,
                one == 100 || one == 10_000,
                d > 500_000,
        ;
        assert(-510_000 <= off <= 510_000) by (nonlinear_arith)
            requires
                -2 * 510_000 * d <= 2 * off * d <= 2 * 510_000 * d,
                d > 0,
        ;
        assert(units >= 0) by (nonlinear_arith)
            requires
                -d <= 2 * (units * d - v * one) <= d,
                -1_000_000 <= 2 * (v * 1_000_000 - a) <= 1_000_000,
                a >= 4_503_599_627_370_496int * 1_000_000,
                one == 100 || one == 10_000,
                d > 0,
        ;
    }
    units
}

/// What lies nearer to one number than to any other is rounded to it, and what lies
/// between two is rounded to the even one.
pub proof fn a_half_goes_to_the_even(q: int, r: int, d: int)
    requires
        0 <= r < d,
    ensures
        2 * r < d ==> round_half_even(q * d + r, d) == q,
        2 * r > d ==> round_half_even(q * d + r, d) == q + 1,
        2 * r == d && q % 2 == 0 ==> round_half_even(q * d + r, d) == q,
        2 * r == d && q % 2 == 1 ==> round_half_even(q * d + r, d) == q + 1,
{
    assert((q * d + r) / d == q && (q * d + r) % d == r) by {
        vstd::arithmetic::div_mod::lemma_fundamental_div_mod_converse(q * d + r, d, q, r);
    }
}

} // verus!
