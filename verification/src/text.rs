//! Strings as sequences of characters: comparison, concatenation, padding and
//! decimal rendering.

use vstd::prelude::*;

verus! {

/// `String::push` appends one character at the end of the string.
pub assume_specification[ String::push ](s: &mut String, c: char)
    ensures
        final(s)@ == old(s)@.push(c),
;

/// The characters of `s`, in order.
pub fn chars_of(s: &str) -> (r: Vec<char>)
    ensures
        r@ == s@,
{
    let mut r: Vec<char> = Vec::new();
    for c in it: s.chars()
        invariant
            r@ == it.seq().take(it.index() as int),
            it.seq() == s@,
    {
        r.push(c);
    }
    r
}

/// The string made of `v[from..to]`.
pub fn string_of_range(v: &Vec<char>, from: usize, to: usize) -> (r: String)
    requires
        from <= to <= v@.len(),
    ensures
        r@ == v@.subrange(from as int, to as int),
{
    let mut r = String::new();
    let mut i: usize = from;
    while i < to
        invariant
            from <= i <= to <= v@.len(),
            r@ == v@.subrange(from as int, i as int),
        decreases to - i,
    {
        r.push(v[i]);
        i = i + 1;
    }
    r
}

/// Whether two strings hold the same characters.
pub fn str_eq(a: &str, b: &str) -> (r: bool)
    ensures
        r == (a@ == b@),
{
    let x = chars_of(a);
    let y = chars_of(b);
    if x.len() != y.len() {
        return false;
    }
    let mut i: usize = 0;
    while i < x.len()
        invariant
            i <= x@.len(),
            x@.len() == y@.len(),
            x@ == a@,
            y@ == b@,
            forall|k: int| 0 <= k < i ==> x@[k] == y@[k],
        decreases x@.len() - i,
    {
        if x[i] != y[i] {
            assert(a@[i as int] != b@[i as int]);
            return false;
        }
        i = i + 1;
    }
    assert(x@ =~= y@);
    true
}

/// `a` as a string of its own.
pub fn owned(a: &str) -> (r: String)
    ensures
        r@ == a@,
{
    let mut r = String::new();
    r.append(a);
    assert(r@ =~= a@);
    r
}

/// `a` followed by `b`.
pub fn cat2(a: &str, b: &str) -> (r: String)
    ensures
        r@ == a@ + b@,
{
    let mut r = owned(a);
    r.append(b);
    r
}

/// `a`, `b` and `c` in a row.
pub fn cat3(a: &str, b: &str, c: &str) -> (r: String)
    ensures
        r@ == a@ + b@ + c@,
{
    let mut r = cat2(a, b);
    r.append(c);
    r
}

/// Four strings in a row.
pub fn cat4(a: &str, b: &str, c: &str, d: &str) -> (r: String)
    ensures
        r@ == a@ + b@ + c@ + d@,
{
    let mut r = cat3(a, b, c);
    r.append(d);
    r
}

/// Five strings in a row.
pub fn cat5(a: &str, b: &str, c: &str, d: &str, e: &str) -> (r: String)
    ensures
        r@ == a@ + b@ + c@ + d@ + e@,
{
    let mut r = cat4(a, b, c, d);
    r.append(e);
    r
}

/// The character of one decimal digit.
pub open spec fn digit_char(d: int) -> char {
    ('0' as int + d) as char
}

/// The decimal digits of `n`, most significant first, without leading zeros.
pub open spec fn dec_nat(n: nat) -> Seq<char>
    decreases n,
{
    if n < 10 {
        seq![digit_char(n as int)]
    } else {
        dec_nat(n / 10).push(digit_char((n % 10) as int))
    }
}

/// `i` in decimal, with a minus sign when it is negative.
pub open spec fn dec(i: int) -> Seq<char> {
    if i < 0 {
        seq!['-'] + dec_nat((-i) as nat)
    } else {
        dec_nat(i as nat)
    }
}

/// `n` copies of `c`.
pub open spec fn repeated(c: char, n: int) -> Seq<char> {
    Seq::new(if n > 0 { n as nat } else { 0 }, |i: int| c)
}

/// `s` with `fill` put before it up to `width` characters.
pub open spec fn pad_start(s: Seq<char>, fill: char, width: int) -> Seq<char> {
    repeated(fill, width - s.len()) + s
}

/// `s` with blanks put after it up to `width` characters.
pub open spec fn pad_end(s: Seq<char>, width: int) -> Seq<char> {
    s + repeated(' ', width - s.len())
}

/// Executable [`digit_char`].
pub fn digit_to_char(d: u8) -> (c: char)
    requires
        d < 10,
    ensures
        c == digit_char(d as int),
{
    (48u8 + d) as char
}

/// Executable [`dec_nat`].
pub fn dec_u128(n: u128) -> (r: String)
    ensures
        r@ == dec_nat(n as nat),
    decreases n,
{
    if n < 10 {
        let mut r = String::new();
        r.push(digit_to_char(n as u8));
        assert(r@ =~= seq![digit_char(n as int)]);
        r
    } else {
        let mut r = dec_u128(n / 10);
        r.push(digit_to_char((n % 10) as u8));
        r
    }
}

/// Executable [`dec`].
pub fn dec_i64(i: i64) -> (r: String)
    ensures
        r@ == dec(i as int),
{
    if i < 0 {
        let magnitude: i128 = -(i as i128);
        let digits = dec_u128(magnitude as u128);
        let mut r = String::new();
        r.push('-');
        r.append(digits.as_str());
        assert(r@ =~= seq!['-'] + digits@);
        r
    } else {
        dec_u128(i as u128)
    }
}

/// Executable [`dec`] on a machine word.
pub fn dec_usize(n: usize) -> (r: String)
    ensures
        r@ == dec(n as int),
{
    dec_u128(n as u128)
}

/// Executable [`repeated`].
pub fn repeat_char(c: char, n: usize) -> (r: String)
    ensures
        r@ == repeated(c, n as int),
{
    let mut r = String::new();
    let mut i: usize = 0;
    assert(r@ =~= repeated(c, 0));
    while i < n
        invariant
            i <= n,
            r@ == repeated(c, i as int),
        decreases n - i,
    {
        r.push(c);
        i = i + 1;
        assert(r@ =~= repeated(c, i as int));
    }
    r
}

/// Executable [`pad_start`].
pub fn pad_start_exec(s: &str, fill: char, width: usize) -> (r: String)
    ensures
        r@ == pad_start(s@, fill, width as int),
{
    let have: usize = s.unicode_len();
    let missing: usize = if have < width { width - have } else { 0 };
    let mut r = repeat_char(fill, missing);
    r.append(s);
    r
}

/// Executable [`pad_end`].
pub fn pad_end_exec(s: &str, width: usize) -> (r: String)
    ensures
        r@ == pad_end(s@, width as int),
{
    let have: usize = s.unicode_len();
    let missing: usize = if have < width { width - have } else { 0 };
    let blanks = repeat_char(' ', missing);
    cat2(s, blanks.as_str())
}

/// The number of bytes of `c` in UTF-8.
pub open spec fn utf8_len(c: char) -> int {
    if (c as int) < 0x80 {
        1
    } else if (c as int) < 0x800 {
        2
    } else if (c as int) < 0x1_0000 {
        3
    } else {
        4
    }
}

/// How many characters of `s` take exactly its first `n` bytes, if any do.
pub open spec fn index_of_byte(s: Seq<char>, n: int) -> Option<int>
    decreases s.len(),
{
    if n == 0 {
        Some(0)
    } else if n < 0 || s.len() == 0 {
        None
    } else {
        match index_of_byte(s.skip(1), n - utf8_len(s[0])) {
            Some(k) => Some(k + 1),
            None => None,
        }
    }
}

/// The characters that lie exactly in the bytes `from..to` of `s`.
pub open spec fn byte_slice(s: Seq<char>, from: int, to: int) -> Option<Seq<char>> {
    match (index_of_byte(s, from), index_of_byte(s, to)) {
        (Some(i), Some(j)) => if i <= j {
            Some(s.subrange(i, j))
        } else {
            None
        },
        _ => None,
    }
}

/// Executable [`utf8_len`].
pub fn utf8_len_exec(c: char) -> (r: usize)
    ensures
        r == utf8_len(c),
{
    let code: u32 = c as u32;
    if code < 0x80 {
        1
    } else if code < 0x800 {
        2
    } else if code < 0x1_0000 {
        3
    } else {
        4
    }
}

/// Executable [`index_of_byte`], from character `at` on.
pub fn index_of_byte_exec(v: &Vec<char>, at: usize, n: usize) -> (r: Option<usize>)
    requires
        at <= v.len(),
    ensures
        match index_of_byte(v@.skip(at as int), n as int) {
            Some(k) => r is Some && r->0 == at + k && 0 <= k <= v@.len() - at,
            None => r is None,
        },
    decreases v@.len() - at,
{
    if n == 0 {
        Some(at)
    } else if at == v.len() {
        None
    } else {
        let width: usize = utf8_len_exec(v[at]);
        assert(v@.skip(at as int)[0] == v@[at as int]);
        assert(v@.skip(at as int).skip(1) =~= v@.skip(at + 1));
        if n < width {
            assert(index_of_byte(v@.skip(at + 1), n - width) is None);
            None
        } else {
            index_of_byte_exec(v, at + 1, n - width)
        }
    }
}

/// Executable [`byte_slice`].
pub fn byte_slice_exec(s: &str, from: usize, to: usize) -> (r: Option<String>)
    ensures
        match byte_slice(s@, from as int, to as int) {
            Some(part) => r is Some && r->0@ == part,
            None => r is None,
        },
{
    let v = chars_of(s);
    assert(v@.skip(0) =~= v@);
    match (index_of_byte_exec(&v, 0, from), index_of_byte_exec(&v, 0, to)) {
        (Some(i), Some(j)) => if i <= j {
            Some(string_of_range(&v, i, j))
        } else {
            None
        },
        _ => None,
    }
}

/// Whether one of `items` is the text `s`.
pub open spec fn contains_text(items: Seq<String>, s: Seq<char>) -> bool {
    exists|i: int| 0 <= i < items.len() && (#[trigger] items[i])@ == s
}

/// Executable [`contains_text`].
pub fn contains_text_exec(items: &Vec<String>, s: &str) -> (r: bool)
    ensures
        r == contains_text(items@, s@),
{
    let mut i: usize = 0;
    while i < items.len()
        invariant
            i <= items@.len(),
            forall|k: int| 0 <= k < i ==> (#[trigger] items@[k])@ != s@,
        decreases items@.len() - i,
    {
        if str_eq(items[i].as_str(), s) {
            return true;
        }
        i = i + 1;
    }
    false
}

/// Whether `a` comes before `b` when characters are compared by code.
pub open spec fn text_less(a: Seq<char>, b: Seq<char>) -> bool
    decreases a.len(),
{
    if b.len() == 0 {
        false
    } else if a.len() == 0 {
        true
    } else if a[0] != b[0] {
        (a[0] as int) < (b[0] as int)
    } else {
        text_less(a.skip(1), b.skip(1))
    }
}

/// Two different texts are ordered one way or the other.
pub proof fn text_less_total(a: Seq<char>, b: Seq<char>)
    ensures
        a == b || text_less(a, b) || text_less(b, a),
        !(text_less(a, b) && text_less(b, a)),
        !text_less(a, a),
    decreases a.len() + b.len(),
{
    if a.len() > 0 && b.len() > 0 {
        text_less_total(a.skip(1), b.skip(1));
        if a[0] == b[0] && a.skip(1) == b.skip(1) {
            assert(a =~= seq![a[0]] + a.skip(1));
            assert(b =~= seq![b[0]] + b.skip(1));
        }
        text_less_irreflexive(a);
    } else if a.len() == 0 && b.len() == 0 {
        assert(a =~= b);
    } else {
        text_less_irreflexive(a);
    }
}

proof fn text_less_irreflexive(a: Seq<char>)
    ensures
        !text_less(a, a),
    decreases a.len(),
{
    if a.len() > 0 {
        text_less_irreflexive(a.skip(1));
    }
}

/// The order of texts is transitive.
pub proof fn text_less_transitive(a: Seq<char>, b: Seq<char>, c: Seq<char>)
    requires
        text_less(a, b),
        text_less(b, c),
    ensures
        text_less(a, c),
    decreases a.len(),
{
    if a.len() > 0 && a[0] == b[0] && b[0] == c[0] {
        text_less_transitive(a.skip(1), b.skip(1), c.skip(1));
    }
}

fn text_less_from(a: &Vec<char>, b: &Vec<char>, at: usize) -> (r: bool)
    requires
        at <= a@.len(),
        at <= b@.len(),
    ensures
        r == text_less(a@.skip(at as int), b@.skip(at as int)),
    decreases a@.len() - at,
{
    if at == b.len() {
        false
    } else if at == a.len() {
        true
    } else {
        assert(a@.skip(at as int)[0] == a@[at as int]);
        assert(b@.skip(at as int)[0] == b@[at as int]);
        let x = a[at];
        let y = b[at];
        if x != y {
            x < y
        } else {
            assert(a@.skip(at as int).skip(1) =~= a@.skip(at + 1));
            assert(b@.skip(at as int).skip(1) =~= b@.skip(at + 1));
            text_less_from(a, b, at + 1)
        }
    }
}

/// Executable [`text_less`].
pub fn text_less_exec(a: &str, b: &str) -> (r: bool)
    ensures
        r == text_less(a@, b@),
{
    let x = chars_of(a);
    let y = chars_of(b);
    assert(x@.skip(0) =~= x@);
    assert(y@.skip(0) =~= y@);
    text_less_from(&x, &y, 0)
}

/// Whether Unicode counts `c` as white space.
pub open spec fn is_space(c: char) -> bool {
    let n = c as int;
    (0x09 <= n <= 0x0D) || n == 0x20 || n == 0x85 || n == 0xA0 || n == 0x1680 || (0x2000 <= n <= 0x200A) || n == 0x2028
        || n == 0x2029 || n == 0x202F || n == 0x205F || n == 0x3000
}

/// How many white-space characters `s` starts with.
pub open spec fn leading_space(s: Seq<char>) -> int
    decreases s.len(),
{
    if s.len() > 0 && is_space(s[0]) {
        1 + leading_space(s.skip(1))
    } else {
        0
    }
}

/// `s` without the white space it starts with.
pub open spec fn trim_start(s: Seq<char>) -> Seq<char> {
    s.skip(leading_space(s))
}

/// Executable [`is_space`].
pub fn is_space_exec(c: char) -> (r: bool)
    ensures
        r == is_space(c),
{
    let n: u32 = c as u32;
    (0x09 <= n && n <= 0x0D) || n == 0x20 || n == 0x85 || n == 0xA0 || n == 0x1680 || (0x2000 <= n && n <= 0x200A) || n
        == 0x2028 || n == 0x2029 || n == 0x202F || n == 0x205F || n == 0x3000
}

/// The place of the first character that is no white space.
pub fn leading_space_exec(v: &Vec<char>) -> (r: usize)
    ensures
        r == leading_space(v@),
        r <= v@.len(),
{
    let mut i: usize = 0;
    assert(v@.skip(0) =~= v@);
    while i < v.len() && is_space_exec(v[i])
        invariant
            i <= v@.len(),
            leading_space(v@) == i + leading_space(v@.skip(i as int)),
        decreases v@.len() - i,
    {
        assert(v@.skip(i as int)[0] == v@[i as int]);
        assert(v@.skip(i as int).skip(1) =~= v@.skip(i + 1));
        i = i + 1;
    }
    proof {
        if i < v@.len() {
            assert(v@.skip(i as int)[0] == v@[i as int]);
        }
    }
    i
}

/// Whether `s` starts with `prefix`.
pub open spec fn starts_with(s: Seq<char>, prefix: Seq<char>) -> bool {
    prefix.len() <= s.len() && s.take(prefix.len() as int) == prefix
}

/// What follows `prefix` in `s`, if `s` starts with it.
pub fn strip_prefix(s: &str, prefix: &str) -> (r: Option<String>)
    ensures
        match r {
            Some(rest) => starts_with(s@, prefix@) && rest@ == s@.skip(prefix@.len() as int),
            None => !starts_with(s@, prefix@),
        },
{
    let v = chars_of(s);
    let p = chars_of(prefix);
    if p.len() > v.len() {
        return None;
    }
    let mut i: usize = 0;
    while i < p.len()
        invariant
            i <= p@.len() <= v@.len(),
            v@ == s@,
            p@ == prefix@,
            forall|k: int| 0 <= k < i ==> v@[k] == p@[k],
        decreases p@.len() - i,
    {
        if v[i] != p[i] {
            assert(s@.take(prefix@.len() as int)[i as int] != prefix@[i as int]);
            return None;
        }
        i = i + 1;
    }
    assert(s@.take(prefix@.len() as int) =~= prefix@);
    let rest = string_of_range(&v, p.len(), v.len());
    assert(rest@ =~= s@.skip(prefix@.len() as int));
    Some(rest)
}

/// The text that `String::from_utf8_lossy` makes of `bytes`.
pub uninterp spec fn lossy_text(bytes: Seq<u8>) -> Seq<char>;

/// `String::from_utf8_lossy`: text from bytes, in which every part that is no
/// UTF-8 is replaced by U+FFFD. Bytes that are UTF-8 come out as the text they
/// encode.
#[verifier::external_body]
pub(crate) fn from_utf8_lossy(bytes: &[u8]) -> (r: String)
    ensures
        r@ == lossy_text(bytes@),
        vstd::utf8::valid_utf8(bytes@) ==> r@ == vstd::utf8::decode_utf8(bytes@),
{
    String::from_utf8_lossy(bytes).into_owned()
}

/// Whether `s` holds nothing but decimal digits.
pub open spec fn all_digits(s: Seq<char>) -> bool {
    forall|i: int| 0 <= i < s.len() ==> '0' <= #[trigger] s[i] && s[i] <= '9'
}

/// The number that a row of digits writes.
pub open spec fn digits_value(s: Seq<char>) -> int
    decreases s.len(),
{
    if s.len() == 0 {
        0
    } else {
        10 * digits_value(s.drop_last()) + (s.last() as int - '0' as int)
    }
}

/// The integer that the whole of `s` writes: an optional sign and digits, within
/// the range of an `i64`.
pub open spec fn integer_of(s: Seq<char>) -> Option<int> {
    let signed = s.len() > 0 && (s[0] == '+' || s[0] == '-');
    let digits = if signed {
        s.skip(1)
    } else {
        s
    };
    let value = if s.len() > 0 && s[0] == '-' {
        -digits_value(digits)
    } else {
        digits_value(digits)
    };
    if digits.len() > 0 && all_digits(digits) && i64::MIN <= value <= i64::MAX {
        Some(value)
    } else {
        None
    }
}

proof fn digits_value_grows(s: Seq<char>, n: int)
    requires
        all_digits(s),
        0 <= n <= s.len(),
    ensures
        0 <= digits_value(s.take(n)) <= digits_value(s),
    decreases s.len(),
{
    if n == s.len() {
        assert(s.take(n) =~= s);
        if s.len() > 0 {
            assert(s.drop_last().take(s.len() - 1) =~= s.drop_last());
            digits_value_grows(s.drop_last(), s.len() - 1);
            assert(s.last() == s[s.len() - 1]);
        }
    } else {
        assert(s.drop_last().take(n) =~= s.take(n));
        digits_value_grows(s.drop_last(), n);
        assert(s.last() == s[s.len() - 1]);
    }
}

/// The integer that the whole of a text writes; see [`integer_of`].
pub fn parse_i64(s: &str) -> (r: Option<i64>)
    ensures
        match integer_of(s@) {
            Some(n) => r is Some && r->0 == n,
            None => r is None,
        },
{
    let v = chars_of(s);
    let signed = v.len() > 0 && (v[0] == '+' || v[0] == '-');
    let negative = v.len() > 0 && v[0] == '-';
    let from: usize = if signed { 1 } else { 0 };
    let ghost digits = if signed {
        s@.skip(1)
    } else {
        s@
    };
    if v.len() == from {
        return None;
    }
    let mut i: usize = from;
    while i < v.len()
        invariant
            from <= i <= v@.len(),
            v@ == s@,
            from == (if signed { 1int } else { 0int }),
            digits == (if signed { s@.skip(1) } else { s@ }),
            signed == (s@.len() > 0 && (s@[0] == '+' || s@[0] == '-')),
            forall|k: int| from <= k < i ==> '0' <= #[trigger] v@[k] && v@[k] <= '9',
        decreases v@.len() - i,
    {
        let c = v[i];
        if !('0' <= c && c <= '9') {
            proof {
                assert(digits[i - from] == c);
                assert(!all_digits(digits));
            }
            return None;
        }
        i = i + 1;
    }
    assert(all_digits(digits)) by {
        assert forall|k: int| 0 <= k < digits.len() implies '0' <= #[trigger] digits[k] && digits[k] <= '9' by {
            assert(digits[k] == v@[k + from]);
        }
    }
    let mut value: i128 = 0;
    let mut k: usize = from;
    assert(digits.take(0) =~= Seq::empty());
    while k < v.len()
        invariant
            from <= k <= v@.len(),
            v@ == s@,
            from == (if signed { 1int } else { 0int }),
            digits == (if signed { s@.skip(1) } else { s@ }),
            signed == (s@.len() > 0 && (s@[0] == '+' || s@[0] == '-')),
            negative == (s@.len() > 0 && s@[0] == '-'),
            digits.len() == v@.len() - from,
            all_digits(digits),
            0 <= value <= 0x8000_0000_0000_0000,
            value == digits_value(digits.take(k - from)),
        decreases v@.len() - k,
    {
        let c = v[k];
        assert(digits[k - from] == c);
        let d: i128 = c as u32 as i128 - 48;
        proof {
            assert(digits.take(k + 1 - from).drop_last() =~= digits.take(k - from));
            assert(digits.take(k + 1 - from).last() == c);
            digits_value_grows(digits, k + 1 - from);
        }
        value = value * 10 + d;
        k = k + 1;
        if value > 0x8000_0000_0000_0000 {
            return None;
        }
    }
    assert(digits.take(digits.len() as int) =~= digits);
    if negative {
        let n: i128 = -value;
        Some(n as i64)
    } else if value > 0x7FFF_FFFF_FFFF_FFFF {
        None
    } else {
        Some(value as i64)
    }
}

/// The end of the line that starts at `at`: its line break, or the end of the
/// text.
pub open spec fn line_end(s: Seq<char>, at: int) -> int
    decreases s.len() - at,
{
    if at < s.len() && s[at] != '\n' {
        line_end(s, at + 1)
    } else {
        at
    }
}

/// Executable [`line_end`].
pub fn line_end_exec(v: &Vec<char>, at: usize) -> (r: usize)
    requires
        at <= v@.len(),
    ensures
        r == line_end(v@, at as int),
        at <= r <= v@.len(),
{
    let mut i: usize = at;
    while i < v.len() && v[i] != '\n'
        invariant
            at <= i <= v@.len(),
            line_end(v@, at as int) == line_end(v@, i as int),
        decreases v@.len() - i,
    {
        i = i + 1;
    }
    i
}

/// How many characters of `s` come before its first white space.
pub open spec fn word_len(s: Seq<char>) -> int
    decreases s.len(),
{
    if s.len() > 0 && !is_space(s[0]) {
        1 + word_len(s.skip(1))
    } else {
        0
    }
}

/// The first word of `s`: what stands between its white space.
pub open spec fn first_word(s: Seq<char>) -> Seq<char> {
    trim_start(s).take(word_len(trim_start(s)))
}

/// Executable [`first_word`].
pub fn first_word_exec(s: &str) -> (r: String)
    ensures
        r@ == first_word(s@),
{
    let whole = chars_of(s);
    let lead: usize = leading_space_exec(&whole);
    let trimmed = string_of_range(&whole, lead, whole.len());
    let v = chars_of(trimmed.as_str());
    assert(v@ =~= trim_start(s@));
    let mut i: usize = 0;
    assert(v@.skip(0) =~= v@);
    while i < v.len() && !is_space_exec(v[i])
        invariant
            i <= v@.len(),
            word_len(v@) == i + word_len(v@.skip(i as int)),
        decreases v@.len() - i,
    {
        assert(v@.skip(i as int)[0] == v@[i as int]);
        assert(v@.skip(i as int).skip(1) =~= v@.skip(i + 1));
        i = i + 1;
    }
    proof {
        if i < v@.len() {
            assert(v@.skip(i as int)[0] == v@[i as int]);
        }
    }
    let r = string_of_range(&v, 0, i);
    assert(r@ =~= v@.take(i as int));
    r
}

/// The first of two texts that says something.
pub open spec fn first_given(a: Seq<char>, b: Seq<char>) -> Seq<char> {
    if a.len() > 0 {
        a
    } else {
        b
    }
}

/// See [`first_given`].
pub fn first_given_exec(a: &str, b: &str) -> (r: String)
    ensures
        r@ == first_given(a@, b@),
{
    if a.is_empty() {
        owned(b)
    } else {
        owned(a)
    }
}

/// Whether a text has no NUL in it, so that it can be handed over as a C string.
pub open spec fn has_no_nul(s: Seq<char>) -> bool {
    forall|i: int| 0 <= i < s.len() ==> s[i] != '\0'
}

/// See [`has_no_nul`].
pub fn has_no_nul_exec(s: &str) -> (r: bool)
    ensures
        r == has_no_nul(s@),
{
    let v = chars_of(s);
    let mut i: usize = 0;
    while i < v.len()
        invariant
            i <= v@.len(),
            v@ == s@,
            forall|j: int| 0 <= j < i ==> s@[j] != '\0',
        decreases v@.len() - i,
    {
        if v[i] == '\0' {
            assert(s@[i as int] == '\0');
            return false;
        }
        i = i + 1;
    }
    true
}

/// The text that is handed over as a C string: one with a NUL in it goes over
/// as an empty one.
pub open spec fn c_form(s: Seq<char>) -> Seq<char> {
    if has_no_nul(s) {
        s
    } else {
        Seq::empty()
    }
}

/// See [`c_form`].
pub fn c_text(s: &str) -> (r: String)
    ensures
        r@ == c_form(s@),
{
    if has_no_nul_exec(s) {
        owned(s)
    } else {
        String::new()
    }
}

/// A padded text is as wide as asked for, or as it was where that is more. It
/// stands whole on one side, and the filling fills the other.
pub proof fn padding_keeps_the_text(s: Seq<char>, fill: char, width: int)
    ensures
        ({
            let (front, back) = (pad_start(s, fill, width), pad_end(s, width));
            let wide = if width > s.len() {
                width
            } else {
                s.len() as int
            };
            &&& front.len() == wide
            &&& front.skip(wide - s.len()) == s
            &&& forall|i: int| 0 <= i < wide - s.len() ==> #[trigger] front[i] == fill
            &&& back.len() == wide
            &&& back.take(s.len() as int) == s
            &&& forall|i: int| s.len() <= i < wide ==> #[trigger] back[i] == ' '
        }),
{
    let (front, back) = (pad_start(s, fill, width), pad_end(s, width));
    assert(front.skip(front.len() - s.len()) =~= s);
    assert(back.take(s.len() as int) =~= s);
}

/// The digits of a number write it.
pub proof fn digits_write_their_value(n: nat)
    ensures
        all_digits(dec_nat(n)),
        dec_nat(n).len() > 0,
        digits_value(dec_nat(n)) == n,
        n > 0 ==> dec_nat(n)[0] != '0',
    decreases n,
{
    reveal_with_fuel(digits_value, 2);
    let d = digit_char((n % 10) as int);
    assert('0' <= d && d <= '9' && d as int - '0' as int == n % 10);
    if n < 10 {
        assert(dec_nat(n).drop_last() =~= Seq::empty());
        assert(dec_nat(n).last() == d);
    } else {
        digits_write_their_value(n / 10);
        let head = dec_nat(n / 10);
        assert(dec_nat(n).drop_last() =~= head);
        assert(dec_nat(n).last() == d);
        assert forall|i: int| 0 <= i < dec_nat(n).len() implies '0' <= #[trigger] dec_nat(n)[i] && dec_nat(n)[i]
            <= '9' by {
            if i < head.len() {
                assert(dec_nat(n)[i] == head[i]);
            }
        }
        assert(dec_nat(n)[0] == head[0]);
    }
}

/// A number that is written out reads back as itself, and has no zero in front.
pub proof fn a_number_reads_back(i: int)
    requires
        i64::MIN <= i <= i64::MAX,
    ensures
        integer_of(dec(i)) == Some(i),
        i > 0 ==> dec(i)[0] != '0',
        i < 0 ==> dec(i)[0] == '-' && dec(i)[1] != '0',
{
    if i < 0 {
        digits_write_their_value((-i) as nat);
        assert(dec(i).skip(1) =~= dec_nat((-i) as nat));
        assert(dec(i)[1] == dec_nat((-i) as nat)[0]);
    } else {
        digits_write_their_value(i as nat);
        assert(dec(i)[0] == dec_nat(i as nat)[0]);
        assert('0' <= dec(i)[0]);
        assert(dec(i)[0] != '+' && dec(i)[0] != '-');
    }
}

/// A text loses the white space it starts with, all of it and nothing more.
pub proof fn trimming_takes_only_white_space(s: Seq<char>)
    ensures
        0 <= leading_space(s) <= s.len(),
        s.take(leading_space(s)) + trim_start(s) == s,
        forall|i: int| 0 <= i < leading_space(s) ==> is_space(#[trigger] s[i]),
        trim_start(s).len() > 0 ==> !is_space(trim_start(s)[0]),
    decreases s.len(),
{
    if s.len() > 0 && is_space(s[0]) {
        let rest = s.skip(1);
        trimming_takes_only_white_space(rest);
        assert forall|i: int| 0 <= i < leading_space(s) implies is_space(#[trigger] s[i]) by {
            if i > 0 {
                assert(rest[i - 1] == s[i]);
            }
        }
        assert(trim_start(s) =~= trim_start(rest));
    }
    assert(s.take(leading_space(s)) + trim_start(s) =~= s);
}

proof fn a_word_has_no_white_space(s: Seq<char>)
    ensures
        0 <= word_len(s) <= s.len(),
        forall|i: int| 0 <= i < word_len(s) ==> !is_space(#[trigger] s[i]),
        word_len(s) < s.len() ==> is_space(s[word_len(s)]),
    decreases s.len(),
{
    if s.len() > 0 && !is_space(s[0]) {
        let rest = s.skip(1);
        a_word_has_no_white_space(rest);
        assert forall|i: int| 0 <= i < word_len(s) implies !is_space(#[trigger] s[i]) by {
            if i > 0 {
                assert(rest[i - 1] == s[i]);
            }
        }
        if word_len(s) < s.len() {
            assert(s[word_len(s)] == rest[word_len(rest)]);
        }
    }
}

/// The first word stands behind white space alone, has none in it, and ends where
/// the next one starts or the text ends; there is one wherever something is no
/// white space.
pub proof fn the_first_word_is_the_first(s: Seq<char>) -> (at: int)
    ensures
        0 <= at <= at + first_word(s).len() <= s.len(),
        first_word(s) == s.subrange(at, at + first_word(s).len()),
        forall|i: int| 0 <= i < at ==> is_space(#[trigger] s[i]),
        forall|i: int| at <= i < at + first_word(s).len() ==> !is_space(#[trigger] s[i]),
        at + first_word(s).len() < s.len() ==> is_space(s[at + first_word(s).len()]),
        at < s.len() ==> first_word(s).len() > 0,
{
    let at = leading_space(s);
    let rest = trim_start(s);
    trimming_takes_only_white_space(s);
    a_word_has_no_white_space(rest);
    assert(first_word(s) =~= s.subrange(at, at + first_word(s).len()));
    assert forall|i: int| at <= i < at + first_word(s).len() implies !is_space(#[trigger] s[i]) by {
        assert(rest[i - at] == s[i]);
    }
    if at + first_word(s).len() < s.len() {
        assert(s[at + first_word(s).len()] == rest[word_len(rest)]);
    }
    at
}

/// A line ends at its first line break, or where the text does.
pub proof fn a_line_ends_at_its_break(s: Seq<char>, at: int)
    requires
        0 <= at <= s.len(),
    ensures
        at <= line_end(s, at) <= s.len(),
        forall|i: int| at <= i < line_end(s, at) ==> #[trigger] s[i] != '\n',
        line_end(s, at) < s.len() ==> s[line_end(s, at)] == '\n',
    decreases s.len() - at,
{
    if at < s.len() && s[at] != '\n' {
        a_line_ends_at_its_break(s, at + 1);
    }
}

/// The bytes that a text takes in UTF-8.
pub open spec fn bytes_of(s: Seq<char>) -> int
    decreases s.len(),
{
    if s.len() == 0 {
        0
    } else {
        utf8_len(s[0]) + bytes_of(s.skip(1))
    }
}

proof fn a_byte_index_counts_bytes(s: Seq<char>, n: int)
    ensures
        match index_of_byte(s, n) {
            Some(k) => 0 <= k <= s.len() && bytes_of(s.take(k)) == n,
            None => true,
        },
    decreases s.len(),
{
    if n == 0 {
        assert(s.take(0) =~= Seq::empty());
    } else if n > 0 && s.len() > 0 {
        a_byte_index_counts_bytes(s.skip(1), n - utf8_len(s[0]));
        if let Some(k) = index_of_byte(s.skip(1), n - utf8_len(s[0])) {
            assert(s.take(k + 1).skip(1) =~= s.skip(1).take(k));
            assert(s.take(k + 1)[0] == s[0]);
        }
    }
}

/// A slice by bytes is a part of the text that starts after that many bytes and
/// ends after that many; a text of one-byte characters has every slice within it.
pub proof fn a_byte_slice_is_a_part(s: Seq<char>, from: int, to: int)
    requires
        0 <= from <= to,
    ensures
        byte_slice(s, from, to) is Some ==> exists|i: int, j: int|
            0 <= i <= j <= s.len() && byte_slice(s, from, to)->0 == #[trigger] s.subrange(i, j) && bytes_of(s.take(i))
                == from && bytes_of(s.take(j)) == to,
        (forall|i: int| 0 <= i < s.len() ==> (#[trigger] s[i] as int) < 0x80) ==> byte_slice(s, from, to) == (if to
            <= s.len() {
            Some(s.subrange(from, to))
        } else {
            None
        }),
{
    a_byte_index_counts_bytes(s, from);
    a_byte_index_counts_bytes(s, to);
    if byte_slice(s, from, to) is Some {
        let (i, j) = (index_of_byte(s, from)->0, index_of_byte(s, to)->0);
        assert(byte_slice(s, from, to)->0 == s.subrange(i, j));
    }
    if forall|i: int| 0 <= i < s.len() ==> (#[trigger] s[i] as int) < 0x80 {
        plain_text_counts_one_by_one(s, from);
        plain_text_counts_one_by_one(s, to);
    }
}

proof fn plain_text_counts_one_by_one(s: Seq<char>, n: int)
    requires
        0 <= n,
        forall|i: int| 0 <= i < s.len() ==> (#[trigger] s[i] as int) < 0x80,
    ensures
        index_of_byte(s, n) == (if n <= s.len() {
            Some(n)
        } else {
            None
        }),
    decreases s.len(),
{
    if n > 0 && s.len() > 0 {
        let rest = s.skip(1);
        assert forall|i: int| 0 <= i < rest.len() implies (#[trigger] rest[i] as int) < 0x80 by {
            assert(rest[i] == s[i + 1]);
        }
        plain_text_counts_one_by_one(rest, n - 1);
    }
}

/// Digits write no negative number.
pub proof fn digits_are_not_negative(s: Seq<char>)
    requires
        all_digits(s),
    ensures
        digits_value(s) >= 0,
{
    digits_value_grows(s, 0);
    assert(s.take(0) =~= Seq::empty());
}

/// The first of two texts is used where it says something, and else the second; a
/// text with a zero character in it is handed over as nothing, any other whole.
pub proof fn a_text_is_used_whole_or_not(a: Seq<char>, b: Seq<char>)
    ensures
        a.len() > 0 ==> first_given(a, b) == a,
        a.len() == 0 ==> first_given(a, b) == b,
        (forall|i: int| 0 <= i < a.len() ==> #[trigger] a[i] != '\0') ==> c_form(a) == a,
        (exists|i: int| 0 <= i < a.len() && #[trigger] a[i] == '\0') ==> c_form(a).len() == 0,
{
}

/// A character takes one to four bytes, the more the larger its code.
pub proof fn larger_codes_take_more_bytes(c: char, d: char)
    ensures
        1 <= utf8_len(c) <= 4,
        c as int <= d as int ==> utf8_len(c) <= utf8_len(d),
        (c as int) < 128 <==> utf8_len(c) == 1,
        (c as int) < 2048 <==> utf8_len(c) <= 2,
        (c as int) < 65536 <==> utf8_len(c) <= 3,
{
}

} // verus!
