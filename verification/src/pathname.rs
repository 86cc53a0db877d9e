//! Unix path names, taken apart into components.

use crate::text;
use vstd::prelude::*;

verus! {

/// How many characters come before the first slash.
pub open spec fn piece_len(s: Seq<char>) -> int
    decreases s.len(),
{
    if s.len() == 0 || s[0] == '/' {
        0
    } else {
        1 + piece_len(s.skip(1))
    }
}

/// The pieces between the slashes, without the empty ones and without ".".
pub open spec fn pieces(s: Seq<char>) -> Seq<Seq<char>>
    decreases s.len(),
{
    let n = piece_len(s);
    let piece = s.take(n);
    let kept = if piece.len() == 0 || piece == seq!['.'] {
        Seq::empty()
    } else {
        seq![piece]
    };
    if 0 <= n < s.len() {
        kept + pieces(s.skip(n + 1))
    } else {
        kept
    }
}

/// The components of a path: the root, or a leading ".", then the pieces.
pub open spec fn components(s: Seq<char>) -> Seq<Seq<char>> {
    if s.len() > 0 && s[0] == '/' {
        seq![seq!['/']] + pieces(s)
    } else if s.take(piece_len(s)) == seq!['.'] {
        seq![seq!['.']] + pieces(s)
    } else {
        pieces(s)
    }
}

/// Whether a path starts with another, whole components only.
pub open spec fn starts_with(path: Seq<char>, base: Seq<char>) -> bool {
    components(base).len() <= components(path).len() && components(path).take(components(base).len() as int)
        == components(base)
}

/// A relative path below another.
pub open spec fn join(base: Seq<char>, sub: Seq<char>) -> Seq<char> {
    if base.len() == 0 {
        sub
    } else if base.last() == '/' {
        base + sub
    } else {
        base + seq!['/'] + sub
    }
}

/// The end of the piece that starts at `at`.
fn piece_end(v: &Vec<char>, at: usize) -> (r: usize)
    requires
        at <= v@.len(),
    ensures
        at <= r <= v@.len(),
        r == at + piece_len(v@.skip(at as int)),
{
    let mut i: usize = at;
    while i < v.len() && v[i] != '/'
        invariant
            at <= i <= v@.len(),
            piece_len(v@.skip(at as int)) == (i - at) + piece_len(v@.skip(i as int)),
        decreases v@.len() - i,
    {
        assert(v@.skip(i as int).skip(1) =~= v@.skip(i + 1));
        i = i + 1;
    }
    i
}

/// The components as texts.
pub open spec fn views(items: Seq<String>) -> Seq<Seq<char>> {
    items.map_values(|s: String| s@)
}

/// See [`components`].
pub fn components_exec(s: &str) -> (r: Vec<String>)
    ensures
        views(r@) == components(s@),
{
    let v = text::chars_of(s);
    let mut r: Vec<String> = Vec::new();
    assert(v@.skip(0) =~= v@);
    let first = piece_end(&v, 0);
    let lead = text::string_of_range(&v, 0, first);
    assert(lead@ =~= v@.take(first as int));
    if v.len() > 0 && v[0] == '/' {
        r.push(text::string_of_range(&v, 0, 1));
        assert(r@[0]@ =~= seq!['/']);
        assert(views(r@) =~= seq![seq!['/']]);
    } else if is_dot(lead.as_str()) {
        r.push(lead);
        assert(views(r@) =~= seq![seq!['.']]);
    }
    let ghost start = views(r@);
    assert(components(s@) =~= start + pieces(s@));
    let mut at: usize = 0;
    let mut more = true;
    while more
        invariant
            at <= v@.len(),
            more ==> views(r@) + pieces(v@.skip(at as int)) == start + pieces(v@),
            !more ==> views(r@) == start + pieces(v@),
        decreases v@.len() - at, more as int,
    {
        let ghost rest = v@.skip(at as int);
        let ghost before = views(r@);
        let end = piece_end(&v, at);
        let piece = text::string_of_range(&v, at, end);
        assert(piece@ =~= rest.take(piece_len(rest)));
        if end > at && !is_dot(piece.as_str()) {
            r.push(piece);
            assert(views(r@) =~= before.push(piece@));
        }
        if end < v.len() {
            assert(rest.skip(piece_len(rest) + 1) =~= v@.skip(end + 1));
            assert(views(r@) + pieces(v@.skip(end + 1)) =~= before + pieces(rest));
            at = end + 1;
        } else {
            assert(views(r@) =~= before + pieces(rest));
            more = false;
        }
    }
    r
}

fn is_dot(s: &str) -> (r: bool)
    ensures
        r == (s@ == seq!['.']),
{
    let r = s.unicode_len() == 1 && s.get_char(0) == '.';
    assert(r ==> s@ =~= seq!['.']);
    r
}

/// See [`starts_with`].
pub fn starts_with_exec(path: &str, base: &str) -> (r: bool)
    ensures
        r == starts_with(path@, base@),
{
    let p = components_exec(path);
    let b = components_exec(base);
    let ghost ps = components(path@);
    let ghost bs = components(base@);
    assert(views(p@).len() == p@.len());
    assert(views(b@).len() == b@.len());
    if b.len() > p.len() {
        return false;
    }
    let mut i: usize = 0;
    while i < b.len()
        invariant
            i <= b@.len() <= p@.len(),
            ps == views(p@) && ps == components(path@),
            bs == views(b@) && bs == components(base@),
            forall|j: int| 0 <= j < i ==> ps[j] == bs[j],
        decreases b@.len() - i,
    {
        assert(ps[i as int] == p@[i as int]@);
        assert(bs[i as int] == b@[i as int]@);
        if !text::str_eq(p[i].as_str(), b[i].as_str()) {
            assert(ps.take(bs.len() as int)[i as int] == ps[i as int]);
            return false;
        }
        i = i + 1;
    }
    assert(ps.take(bs.len() as int) =~= bs);
    true
}

/// See [`join`].
pub fn join_exec(base: &str, sub: &str) -> (r: String)
    ensures
        r@ == join(base@, sub@),
{
    if base.is_empty() {
        return text::owned(sub);
    }
    let last: usize = base.unicode_len() - 1;
    let mut r = text::owned(base);
    if base.get_char(last) != '/' {
        r.push('/');
        assert(r@ =~= base@ + seq!['/']);
    }
    r.append(sub);
    assert(r@ =~= join(base@, sub@));
    r
}

/// Whether a piece is a component.
pub open spec fn is_kept(piece: Seq<char>) -> bool {
    piece.len() > 0 && piece != seq!['.']
}

/// Where the last piece that is a component begins.
pub open spec fn last_start(s: Seq<char>) -> Option<int>
    decreases s.len(),
{
    let n = piece_len(s);
    let later = if 0 <= n < s.len() {
        last_start(s.skip(n + 1))
    } else {
        None
    };
    match later {
        Some(k) => Some(n + 1 + k),
        None => if is_kept(s.take(n)) {
            Some(0)
        } else {
            None
        },
    }
}

/// The first piece ends where it ends, however the rest is cut.
proof fn a_cut_keeps_the_first_piece(s: Seq<char>, k: int)
    requires
        0 <= k <= s.len(),
        piece_len(s) < k,
    ensures
        piece_len(s.take(k)) == piece_len(s),
        0 <= piece_len(s),
    decreases s.len(),
{
    if s.len() > 0 && s[0] != '/' {
        piece_fits(s.skip(1));
        assert(s.take(k).skip(1) =~= s.skip(1).take(k - 1));
        a_cut_keeps_the_first_piece(s.skip(1), k - 1);
    }
}

proof fn piece_fits(s: Seq<char>)
    ensures
        0 <= piece_len(s) <= s.len(),
        piece_len(s) < s.len() ==> s[piece_len(s)] == '/',
    decreases s.len(),
{
    if s.len() > 0 && s[0] != '/' {
        piece_fits(s.skip(1));
        if piece_len(s) < s.len() {
            assert(s.skip(1)[piece_len(s.skip(1))] == s[piece_len(s)]);
        }
    }
}

/// What comes before the last component has the components before it.
proof fn a_cut_drops_the_last_piece(s: Seq<char>)
    ensures
        last_start(s) is None <==> pieces(s).len() == 0,
        last_start(s) is Some ==> {
            let k = last_start(s)->0;
            &&& 0 <= k < s.len()
            &&& pieces(s.take(k)) == pieces(s).drop_last()
            &&& pieces(s).last() == s.skip(k).take(piece_len(s.skip(k)))
        },
        last_start(s) is Some && !(last_start(s)->0 == 0) ==> last_start(s)->0 > piece_len(s),
        last_start(s) == Some(0int) ==> is_kept(s.take(piece_len(s))),
    decreases s.len(),
{
    let n = piece_len(s);
    piece_fits(s);
    let piece = s.take(n);
    let kept: Seq<Seq<char>> = if is_kept(piece) {
        seq![piece]
    } else {
        Seq::empty()
    };
    if n < s.len() {
        let rest = s.skip(n + 1);
        a_cut_drops_the_last_piece(rest);
        assert(pieces(s) =~= kept + pieces(rest));
        if last_start(rest) is Some {
            let k = last_start(rest)->0;
            let cut = s.take(n + 1 + k);
            a_cut_keeps_the_first_piece(s, n + 1 + k);
            assert(cut.take(n) =~= piece);
            assert(cut.skip(n + 1) =~= rest.take(k));
            assert(pieces(cut) =~= kept + pieces(rest.take(k)));
            assert(pieces(s).drop_last() =~= kept + pieces(rest).drop_last());
            assert(s.skip(n + 1 + k) =~= rest.skip(k));
            assert(pieces(s).last() == pieces(rest).last());
        } else {
            assert(pieces(s) =~= kept);
            if is_kept(piece) {
                first_only(s);
            }
        }
    } else {
        assert(pieces(s) =~= kept);
        if is_kept(piece) {
            first_only(s);
        }
    }
}

proof fn first_only(s: Seq<char>)
    ensures
        pieces(s.take(0)) == Seq::<Seq<char>>::empty(),
        s.skip(0) == s,
{
    let nothing = s.take(0);
    assert(piece_len(nothing) == 0);
    assert(nothing.take(0).len() == 0);
    assert(pieces(nothing) =~= Seq::<Seq<char>>::empty());
    assert(s.skip(0) =~= s);
}

/// The name at the end of a path: its last component, unless that leads nowhere
/// new (the root, "." or "..").
pub open spec fn file_name(path: Seq<char>) -> Option<Seq<char>> {
    if pieces(path).len() > 0 && pieces(path).last() != seq!['.', '.'] {
        Some(pieces(path).last())
    } else {
        None
    }
}

/// See [`last_start`].
fn last_start_exec(v: &Vec<char>) -> (r: Option<usize>)
    ensures
        match r {
            Some(start) => last_start(v@) == Some(start as int) && start < v@.len(),
            None => last_start(v@) is None,
        },
{
    let mut at: usize = 0;
    let mut more = true;
    let mut start: usize = 0;
    let mut found = false;
    assert(v@.skip(0) =~= v@);
    while more
        invariant
            at <= v@.len(),
            found ==> start <= v@.len(),
            more ==> last_start(v@) == (match last_start(v@.skip(at as int)) {
                Some(k) => Some(at + k),
                None => if found {
                    Some(start as int)
                } else {
                    None
                },
            }),
            !more ==> last_start(v@) == (if found {
                Some(start as int)
            } else {
                None
            }),
        decreases v@.len() - at, more as int,
    {
        let ghost rest = v@.skip(at as int);
        let end = piece_end(v, at);
        let piece = text::string_of_range(v, at, end);
        assert(piece@ =~= rest.take(piece_len(rest)));
        if end > at && !is_dot(piece.as_str()) {
            found = true;
            start = at;
        }
        if end < v.len() {
            assert(rest.skip(piece_len(rest) + 1) =~= v@.skip(end + 1));
            at = end + 1;
        } else {
            more = false;
        }
    }
    proof {
        a_cut_drops_the_last_piece(v@);
    }
    if found {
        Some(start)
    } else {
        None
    }
}

/// Cuts a path before its last component, where it ends in a name.
pub fn split_last(path: &str) -> (r: Option<(String, String)>)
    ensures
        match r {
            Some(cut) => file_name(path@) == Some(cut.1@) && components(cut.0@) == components(path@).drop_last()
                && cut.1@ == components(path@).last(),
            None => file_name(path@) is None,
        },
{
    let v = text::chars_of(path);
    proof {
        a_cut_drops_the_last_piece(v@);
    }
    let start: usize = match last_start_exec(&v) {
        Some(start) => start,
        None => return None,
    };
    let end = piece_end(&v, start);
    let name = text::string_of_range(&v, start, end);
    assert(name@ =~= v@.skip(start as int).take(piece_len(v@.skip(start as int))));
    if name.unicode_len() == 2 && name.as_str().get_char(0) == '.' && name.as_str().get_char(1) == '.' {
        assert(name@ =~= seq!['.', '.']);
        return None;
    }
    proof {
        assert(name@ != seq!['.', '.']);
    }
    let base = text::string_of_range(&v, 0, start);
    proof {
        let k = start as int;
        assert(base@ =~= v@.take(k));
        let n = piece_len(v@);
        piece_fits(v@);
        if k > 0 {
            a_cut_keeps_the_first_piece(v@, k);
            assert(base@.take(n) =~= v@.take(n));
            assert(base@[0] == v@[0]);
        } else {
            assert(base@.len() == 0);
            assert(is_kept(v@.take(n)));
            assert(v@[0] == v@.take(n)[0]);
        }
        if v@[0] == '/' {
            assert(k > 0);
            assert(components(base@) =~= seq![seq!['/']] + pieces(base@));
            assert(components(v@).drop_last() =~= seq![seq!['/']] + pieces(v@).drop_last());
        } else if v@.take(n) == seq!['.'] {
            assert(k > 0);
            assert(components(base@) =~= seq![seq!['.']] + pieces(base@));
            assert(components(v@).drop_last() =~= seq![seq!['.']] + pieces(v@).drop_last());
        } else {
            assert(base@.take(piece_len(base@)).len() != 1 || base@.take(piece_len(base@)) == v@.take(n));
            assert(components(base@) =~= pieces(base@));
        }
        assert(components(base@) =~= components(v@).drop_last());
        assert(components(v@).last() == pieces(v@).last());
    }
    Some((base, name))
}

/// Where the names of a path begin: behind the root, or behind a leading ".".
pub open spec fn body_start(path: Seq<char>) -> int {
    if path.len() > 0 && path[0] == '/' {
        1
    } else if path.take(piece_len(path)) == seq!['.'] {
        1
    } else {
        0
    }
}

/// Whether a text that is cut behind `floor` ends in a slash or in a "." of its
/// own, neither of which is a component.
pub open spec fn ends_in_nothing(s: Seq<char>, floor: int) -> bool {
    s.len() > floor && s.len() > 0 && (s.last() == '/' || (s.last() == '.' && (s.len() == 1 || s[s.len() - 2] == '/')))
}

/// The text without what is no component at its end, down to `floor`.
pub open spec fn trimmed(s: Seq<char>, floor: int) -> Seq<char>
    decreases s.len(),
{
    if ends_in_nothing(s, floor) {
        trimmed(s.drop_last(), floor)
    } else {
        s
    }
}

/// The path around a path: all but its last component. The root and the empty
/// path have none.
pub open spec fn parent(path: Seq<char>) -> Option<Seq<char>> {
    match last_start(path) {
        Some(k) => Some(trimmed(path.take(k), body_start(path))),
        None => if path.take(piece_len(path)) == seq!['.'] {
            Some(Seq::empty())
        } else {
            None
        },
    }
}

/// See [`parent`].
pub fn parent_exec(path: &str) -> (r: Option<String>)
    ensures
        match r {
            Some(p) => parent(path@) == Some(p@),
            None => parent(path@) is None,
        },
{
    let v = text::chars_of(path);
    proof {
        piece_fits(v@);
        assert(v@.skip(0) =~= v@);
    }
    let first = piece_end(&v, 0);
    let lead = text::string_of_range(&v, 0, first);
    assert(lead@ =~= v@.take(piece_len(v@)));
    let dotted = is_dot(lead.as_str());
    let start: usize = match last_start_exec(&v) {
        Some(start) => start,
        None => {
            return if dotted {
                let none = String::new();
                assert(none@ =~= Seq::empty());
                Some(none)
            } else {
                None
            };
        },
    };
    let floor: usize = if (v.len() > 0 && v[0] == '/') || dotted {
        1
    } else {
        0
    };
    let mut end: usize = start;
    while end > floor && (v[end - 1] == '/' || (v[end - 1] == '.' && (end == 1 || v[end - 2] == '/')))
        invariant
            end <= start < v@.len(),
            trimmed(v@.take(end as int), floor as int) == trimmed(v@.take(start as int), floor as int),
        decreases end,
    {
        assert(ends_in_nothing(v@.take(end as int), floor as int));
        assert(v@.take(end as int).drop_last() =~= v@.take(end - 1));
        end = end - 1;
    }
    assert(!ends_in_nothing(v@.take(end as int), floor as int));
    let r = text::string_of_range(&v, 0, end);
    assert(r@ =~= v@.take(end as int));
    Some(r)
}

proof fn the_first_piece_is_the_same(s: Seq<char>, t: Seq<char>)
    ensures
        piece_len(s + seq!['/'] + t) == piece_len(s),
    decreases s.len(),
{
    let all = s + seq!['/'] + t;
    if s.len() > 0 && s[0] != '/' {
        the_first_piece_is_the_same(s.skip(1), t);
        assert(all.skip(1) =~= s.skip(1) + seq!['/'] + t);
    }
}

proof fn pieces_of_two(s: Seq<char>, t: Seq<char>)
    ensures
        pieces(s + seq!['/'] + t) == pieces(s) + pieces(t),
    decreases s.len(),
{
    let all = s + seq!['/'] + t;
    let n = piece_len(s);
    the_first_piece_is_the_same(s, t);
    piece_fits(s);
    assert(all.take(n) =~= s.take(n));
    if n < s.len() {
        pieces_of_two(s.skip(n + 1), t);
        assert(all.skip(n + 1) =~= s.skip(n + 1) + seq!['/'] + t);
    } else {
        assert(all.skip(n + 1) =~= t);
    }
    assert(pieces(all) =~= pieces(s) + pieces(t));
}

proof fn a_plain_name_is_one_piece(name: Seq<char>)
    requires
        is_kept(name),
        forall|i: int| 0 <= i < name.len() ==> #[trigger] name[i] != '/',
    ensures
        piece_len(name) == name.len(),
        pieces(name) == seq![name],
{
    piece_fits(name);
    if piece_len(name) < name.len() {
        assert(name[piece_len(name)] == '/');
    }
    assert(name.take(name.len() as int) =~= name);
}

/// A path below another has all the components of that one and then its own, so it
/// starts with it; a plain name is the file name of what it was joined to.
pub proof fn a_joined_path_is_below(base: Seq<char>, sub: Seq<char>)
    requires
        base.len() > 0,
    ensures
        components(join(base, sub)) == components(base) + pieces(sub),
        starts_with(join(base, sub), base),
        is_kept(sub) && sub != seq!['.', '.'] && (forall|i: int| 0 <= i < sub.len() ==> #[trigger] sub[i] != '/')
            ==> file_name(join(base, sub)) == Some(sub) && components(join(base, sub)) == components(base).push(sub),
{
    let all = join(base, sub);
    let front = if base.last() == '/' {
        base.drop_last()
    } else {
        base
    };
    assert(all =~= front + seq!['/'] + sub);
    pieces_of_two(front, sub);
    piece_fits(base);
    if base.last() == '/' {
        assert(base =~= front + seq!['/'] + Seq::<char>::empty());
        pieces_of_two(front, Seq::empty());
        the_first_piece_is_the_same(front, Seq::empty());
        first_only(base);
        assert(base.take(0) =~= Seq::<char>::empty());
        assert(pieces(base) =~= pieces(front));
    }
    the_first_piece_is_the_same(front, sub);
    assert(piece_len(all) == piece_len(base));
    assert(all.take(piece_len(base)) =~= base.take(piece_len(base)));
    assert(all[0] == base[0]) by {
        if front.len() > 0 {
            assert(all[0] == front[0]);
        } else {
            assert(base[0] == '/');
        }
    }
    assert(components(all) =~= components(base) + pieces(sub));
    assert(components(all).take(components(base).len() as int) =~= components(base));
    if is_kept(sub) && sub != seq!['.', '.'] && (forall|i: int| 0 <= i < sub.len() ==> #[trigger] sub[i] != '/') {
        a_plain_name_is_one_piece(sub);
        assert(pieces(all).last() == sub);
        assert(components(base) + pieces(sub) =~= components(base).push(sub));
    }
}

proof fn trimming_keeps_the_pieces(s: Seq<char>, floor: int)
    ensures
        pieces(trimmed(s, floor)) == pieces(s),
    decreases s.len(),
{
    if ends_in_nothing(s, floor) {
        let front = s.drop_last();
        trimming_keeps_the_pieces(front, floor);
        first_only(s);
        assert(s.take(0) =~= Seq::<char>::empty());
        if s.last() == '/' {
            assert(s =~= front + seq!['/'] + Seq::<char>::empty());
            pieces_of_two(front, Seq::empty());
            assert(pieces(s) =~= pieces(front));
        } else {
            let dot = seq!['.'];
            assert(piece_len(dot.skip(1)) == 0);
            assert(piece_len(dot) == 1);
            assert(dot.take(1) =~= dot);
            assert(pieces(dot) =~= Seq::<Seq<char>>::empty());
            if s.len() == 1 {
                assert(s =~= dot);
                assert(front =~= Seq::<char>::empty());
            } else {
                let before = front.drop_last();
                assert(s =~= before + seq!['/'] + dot);
                assert(front =~= before + seq!['/'] + Seq::<char>::empty());
                pieces_of_two(before, dot);
                pieces_of_two(before, Seq::empty());
            }
        }
    }
}

/// The parent of a path has all its parts but the last.
pub proof fn a_parent_has_all_but_the_last(path: Seq<char>)
    ensures
        pieces(path).len() > 0 ==> parent(path) is Some && pieces(parent(path)->0) == pieces(path).drop_last(),
{
    a_cut_drops_the_last_piece(path);
    if pieces(path).len() > 0 {
        let k = last_start(path)->0;
        trimming_keeps_the_pieces(path.take(k), body_start(path));
    }
}

/// A path starts with itself and with nothing longer, and what it starts with it
/// starts with under any name behind.
pub proof fn starting_with_is_by_whole_names(path: Seq<char>, base: Seq<char>, name: Seq<char>)
    ensures
        starts_with(path, path),
        starts_with(path, base) ==> components(base).len() <= components(path).len(),
        starts_with(path, base) && path.len() > 0 ==> starts_with(join(path, name), base),
        components(path).len() > 0 && components(base).len() == components(path).len() && components(base).last()
            != components(path).last() ==> !starts_with(path, base),
{
    assert(components(path).take(components(path).len() as int) =~= components(path));
    if starts_with(path, base) && path.len() > 0 {
        a_joined_path_is_below(path, name);
        let n = components(base).len() as int;
        assert(components(join(path, name)).take(n) =~= components(path).take(n));
    }
}

/// A path from the root starts there, and no other does: its first component is the
/// root, and the rest are its names, none of them empty or leading nowhere.
pub proof fn only_a_rooted_path_starts_at_the_root(path: Seq<char>)
    ensures
        path.len() > 0 && path[0] == '/' ==> components(path).len() > 0 && components(path)[0] == seq!['/']
            && components(path).skip(1) == pieces(path),
        !(path.len() > 0 && path[0] == '/') && components(path).len() > 0 ==> components(path)[0] != seq!['/'],
        forall|i: int| 0 <= i < pieces(path).len() ==> is_kept(#[trigger] pieces(path)[i]),
{
    pieces_are_names(path);
    if path.len() > 0 && path[0] == '/' {
        assert(components(path).skip(1) =~= pieces(path));
    } else if components(path).len() > 0 {
        let first = components(path)[0];
        if first == seq!['/'] {
            assert(first[0] == '/');
            if path.take(piece_len(path)) == seq!['.'] {
                assert(seq!['.'][0] == '.');
            } else {
                assert(first == pieces(path)[0]);
                assert(pieces(path)[0][0] != '/');
            }
        }
    }
}

proof fn pieces_are_names(s: Seq<char>)
    ensures
        forall|i: int|
            0 <= i < pieces(s).len() ==> is_kept(#[trigger] pieces(s)[i]) && pieces(s)[i][0] != '/',
    decreases s.len(),
{
    let n = piece_len(s);
    let piece = s.take(n);
    piece_fits(s);
    if n > 0 {
        assert(piece[0] == s[0]);
        assert(s[0] != '/');
    }
    if n < s.len() {
        pieces_are_names(s.skip(n + 1));
    }
    let kept = if piece.len() == 0 || piece == seq!['.'] {
        Seq::empty()
    } else {
        seq![piece]
    };
    let rest = if n < s.len() {
        pieces(s.skip(n + 1))
    } else {
        Seq::empty()
    };
    assert(pieces(s) =~= kept + rest);
    assert forall|i: int| 0 <= i < pieces(s).len() implies is_kept(#[trigger] pieces(s)[i]) && pieces(s)[i][0]
        != '/' by {
        if i < kept.len() {
            assert(pieces(s)[i] == piece);
        } else {
            assert(pieces(s)[i] == rest[i - kept.len()]);
        }
    }
}

} // verus!
