//! Character-level text handling: Unicode whitespace, trimming, line
//! splitting and whitespace tokenizing, each specified over `Seq<char>`.

use vstd::prelude::*;

verus! {

/// The Unicode `White_Space` property (what `char::is_whitespace` tests).
pub open spec fn is_ws(c: char) -> bool {
    ||| c == '\t' || c == '\n' || c == '\u{0B}' || c == '\u{0C}' || c == '\r' || c == ' '
    ||| c == '\u{85}' || c == '\u{A0}' || c == '\u{1680}'
    ||| ('\u{2000}' <= c && c <= '\u{200A}')
    ||| c == '\u{2028}' || c == '\u{2029}' || c == '\u{202F}' || c == '\u{205F}'
    ||| c == '\u{3000}'
}

/// Whether `c` is Unicode whitespace.
pub fn is_whitespace(c: char) -> (r: bool)
    ensures
        r == is_ws(c),
{
    c == '\t' || c == '\n' || c == '\u{0B}' || c == '\u{0C}' || c == '\r' || c == ' '
        || c == '\u{85}' || c == '\u{A0}' || c == '\u{1680}' || ('\u{2000}' <= c
        && c <= '\u{200A}') || c == '\u{2028}' || c == '\u{2029}' || c == '\u{202F}'
        || c == '\u{205F}' || c == '\u{3000}'
}

/// The characters of `s`, in order.
pub fn chars_of(s: &str) -> (r: Vec<char>)
    ensures
        r@ == s@,
{
    let mut r: Vec<char> = Vec::new();
    for c in it: s.chars()
        invariant
            r@ == it.seq().take(it.index() as int),
            it.seq() == s@,
    {
        r.push(c);
    }
    r
}


/// `s` without its leading whitespace.
pub open spec fn trim_start(s: Seq<char>) -> Seq<char>
    decreases s.len(),
{
    if s.len() > 0 && is_ws(s[0]) {
        trim_start(s.drop_first())
    } else {
        s
    }
}

/// `s` without its trailing whitespace.
pub open spec fn trim_end(s: Seq<char>) -> Seq<char>
    decreases s.len(),
{
    if s.len() > 0 && is_ws(s.last()) {
        trim_end(s.drop_last())
    } else {
        s
    }
}

/// `s` without leading and trailing whitespace (what `str::trim` gives).
pub open spec fn trim(s: Seq<char>) -> Seq<char> {
    trim_end(trim_start(s))
}

/// Trimming the start of a text extended by one character.
pub proof fn lemma_trim_start_push(x: Seq<char>, ch: char)
    ensures
        trim_start(x.push(ch)) == (if trim_start(x).len() == 0 {
            if is_ws(ch) {
                Seq::<char>::empty()
            } else {
                seq![ch]
            }
        } else {
            trim_start(x).push(ch)
        }),
    decreases x.len(),
{
    if x.len() > 0 {
        assert(x.push(ch).drop_first() =~= x.drop_first().push(ch));
        assert(x.push(ch)[0] == x[0]);
        lemma_trim_start_push(x.drop_first(), ch);
        if !is_ws(x[0]) {
            assert(trim_start(x) == x);
            assert(trim_start(x.push(ch)) == x.push(ch));
        }
    } else {
        assert(x.push(ch) =~= seq![ch]);
        assert(seq![ch].drop_first() =~= Seq::<char>::empty());
        assert(trim_start(Seq::<char>::empty()) == Seq::<char>::empty());
        assert(trim_start(x) == Seq::<char>::empty());
    }
}

/// A carriage return at the end of a line makes no difference once the
/// line is trimmed.
pub proof fn lemma_trim_strip_cr(c: Seq<char>)
    ensures
        trim(strip_cr(c)) == trim(c),
{
    if c.len() > 0 && c.last() == '\r' {
        let x = c.drop_last();
        assert(x.push('\r') =~= c);
        lemma_trim_start_push(x, '\r');
        let ts = trim_start(x);
        if ts.len() > 0 {
            assert(ts.push('\r').drop_last() =~= ts);
        }
    }
}

/// The bounds, within `[lo, hi)`, of `v[lo..hi]` with its surrounding
/// whitespace removed.
pub fn trim_range(v: &Vec<char>, lo: usize, hi: usize) -> (r: (usize, usize))
    requires
        lo <= hi <= v.len(),
    ensures
        lo <= r.0 <= r.1 <= hi,
        v@.subrange(r.0 as int, r.1 as int) == trim(v@.subrange(lo as int, hi as int)),
{
    let mut a = lo;
    while a < hi && is_whitespace(v[a])
        invariant
            lo <= a <= hi <= v.len(),
            trim_start(v@.subrange(lo as int, hi as int)) == trim_start(
                v@.subrange(a as int, hi as int),
            ),
        decreases hi - a,
    {
        assert(v@.subrange(a as int, hi as int).drop_first() =~= v@.subrange(
            a + 1,
            hi as int,
        ));
        a = a + 1;
    }
    let mut b = hi;
    while b > a && is_whitespace(v[b - 1])
        invariant
            lo <= a <= b <= hi <= v.len(),
            trim(v@.subrange(lo as int, hi as int)) == trim_end(v@.subrange(a as int, b as int)),
        decreases b - a,
    {
        assert(v@.subrange(a as int, b as int).drop_last() =~= v@.subrange(
            a as int,
            b - 1,
        ));
        b = b - 1;
    }
    (a, b)
}


/// The pieces of `s` between `'\n'` characters, terminators excluded; a
/// text with `k` newlines has `k + 1` pieces.
pub open spec fn pieces(s: Seq<char>) -> Seq<Seq<char>>
    decreases s.len(),
{
    if s.len() == 0 {
        seq![Seq::empty()]
    } else {
        let p = pieces(s.drop_last());
        if s.last() == '\n' {
            p.push(Seq::empty())
        } else {
            p.update(p.len() - 1, p.last().push(s.last()))
        }
    }
}

/// `l` without one trailing carriage return.
pub open spec fn strip_cr(l: Seq<char>) -> Seq<char> {
    if l.len() > 0 && l.last() == '\r' {
        l.drop_last()
    } else {
        l
    }
}

/// The lines of `s`, as `str::lines` yields them: split at `'\n'`, a
/// `'\r'` right before a `'\n'` dropped, and no empty line after a final
/// line ending.
pub open spec fn lines(s: Seq<char>) -> Seq<Seq<char>> {
    let p = pieces(s);
    let done = p.drop_last().map_values(|l: Seq<char>| strip_cr(l));
    if p.last().len() == 0 {
        done
    } else {
        done.push(p.last())
    }
}

/// A text always has at least one piece.
pub proof fn lemma_pieces_nonempty(s: Seq<char>)
    ensures
        pieces(s).len() >= 1,
    decreases s.len(),
{
    if s.len() > 0 {
        lemma_pieces_nonempty(s.drop_last());
    }
}

/// A text with no line ending is a single piece.
pub proof fn lemma_pieces_single(c: Seq<char>)
    requires
        forall|i: int| 0 <= i < c.len() ==> c[i] != '\n',
    ensures
        pieces(c) == seq![c],
    decreases c.len(),
{
    if c.len() > 0 {
        lemma_pieces_single(c.drop_last());
        assert(c.drop_last().push(c.last()) =~= c);
    } else {
        assert(c =~= Seq::<char>::empty());
    }
}

/// The pieces of a concatenation: the last piece of `x` runs on into the
/// first piece of `y`.
pub proof fn lemma_pieces_concat(x: Seq<char>, y: Seq<char>)
    ensures
        pieces(x + y) == pieces(x).drop_last() + seq![pieces(x).last() + pieces(y)[0]]
            + pieces(y).drop_first(),
    decreases y.len(),
{
    lemma_pieces_nonempty(x);
    lemma_pieces_nonempty(y);
    let px = pieces(x);
    if y.len() == 0 {
        assert(x + y =~= x);
        assert(px.last() + Seq::<char>::empty() =~= px.last());
        assert(px.drop_last() + seq![px.last()] + pieces(y).drop_first() =~= px);
    } else {
        let y0 = y.drop_last();
        let ch = y.last();
        lemma_pieces_concat(x, y0);
        lemma_pieces_nonempty(y0);
        assert((x + y).drop_last() =~= x + y0);
        assert((x + y).last() == ch);
        let py0 = pieces(y0);
        let rhs0 = px.drop_last() + seq![px.last() + py0[0]] + py0.drop_first();
        assert(pieces(x + y0) == rhs0);
        let py = pieces(y);
        if ch == '\n' {
            assert(py == py0.push(Seq::empty()));
            assert(rhs0.push(Seq::<char>::empty()) =~= px.drop_last() + seq![px.last() + py[0]]
                + py.drop_first());
        } else {
            assert(py == py0.update(py0.len() - 1, py0.last().push(ch)));
            if py0.len() == 1 {
                assert((px.last() + py0[0]).push(ch) =~= px.last() + py[0]);
                assert(rhs0.update(rhs0.len() - 1, rhs0.last().push(ch)) =~= px.drop_last()
                    + seq![px.last() + py[0]] + py.drop_first());
            } else {
                assert(rhs0.update(rhs0.len() - 1, rhs0.last().push(ch)) =~= px.drop_last()
                    + seq![px.last() + py[0]] + py.drop_first());
            }
        }
    }
}

/// The text ends a line, or is empty.
pub open spec fn ends_line(x: Seq<char>) -> bool {
    x.len() == 0 || x.last() == '\n'
}

/// A text that ends a line, or is empty, has an empty last piece.
proof fn lemma_ends_line_last_piece(x: Seq<char>)
    requires
        ends_line(x),
    ensures
        pieces(x).last() == Seq::<char>::empty(),
{
    if x.len() > 0 {
        assert(pieces(x) == pieces(x.drop_last()).push(Seq::empty()));
    }
}

/// The lines of a text that ends a line (or is empty) followed by another
/// text are the lines of the one, then the lines of the other.
pub proof fn lemma_lines_concat(x: Seq<char>, y: Seq<char>)
    requires
        ends_line(x),
    ensures
        lines(x + y) == lines(x) + lines(y),
{
    lemma_pieces_nonempty(x);
    lemma_pieces_nonempty(y);
    lemma_ends_line_last_piece(x);
    lemma_pieces_concat(x, y);
    let px = pieces(x);
    let py = pieces(y);
    let p = pieces(x + y);
    assert(Seq::<char>::empty() + py[0] =~= py[0]);
    assert(p =~= px.drop_last() + py);
    assert(p.last() == py.last());
    let f = |l: Seq<char>| strip_cr(l);
    assert(p.drop_last() =~= px.drop_last() + py.drop_last());
    assert(p.drop_last().map_values(f) =~= px.drop_last().map_values(f) + py.drop_last().map_values(
        f,
    ));
    assert(lines(x) == px.drop_last().map_values(f));
    if py.last().len() == 0 {
        assert(lines(x + y) =~= lines(x) + lines(y));
    } else {
        assert(lines(x + y) =~= lines(x) + lines(y));
    }
}

/// A text without line endings is at most one line.
pub proof fn lemma_lines_single(c: Seq<char>)
    requires
        forall|i: int| 0 <= i < c.len() ==> c[i] != '\n',
    ensures
        lines(c) == (if c.len() == 0 {
            Seq::<Seq<char>>::empty()
        } else {
            seq![c]
        }),
{
    lemma_pieces_single(c);
    assert(seq![c].drop_last() =~= Seq::<Seq<char>>::empty());
    assert(Seq::<Seq<char>>::empty().map_values(|l: Seq<char>| strip_cr(l)) =~= Seq::<
        Seq<char>,
    >::empty());
    if c.len() > 0 {
        assert(Seq::<Seq<char>>::empty().push(c) =~= seq![c]);
    }
}

/// Ending an unterminated last line keeps the lines, that one without a
/// carriage return right before the new ending.
pub proof fn lemma_lines_terminate(t: Seq<char>)
    requires
        !ends_line(t),
    ensures
        lines(t).len() > 0,
        lines(t.push('\n')) == lines(t).drop_last().push(strip_cr(lines(t).last())),
{
    lemma_pieces_nonempty(t.drop_last());
    lemma_pieces_nonempty(t);
    let p = pieces(t);
    assert(t.push('\n').drop_last() =~= t);
    assert(pieces(t.push('\n')) == p.push(Seq::empty()));
    assert(p.last().len() > 0);
    let f = |l: Seq<char>| strip_cr(l);
    assert(lines(t) == p.drop_last().map_values(f).push(p.last()));
    assert(p.push(Seq::<char>::empty()).drop_last() =~= p);
    assert(p.map_values(f) =~= p.drop_last().map_values(f).push(strip_cr(p.last())));
}

/// The bounds of each line of `v`, in order.
pub fn line_ranges(v: &Vec<char>) -> (r: Vec<(usize, usize)>)
    ensures
        r.len() == lines(v@).len(),
        forall|i: int| #![trigger r[i]] 0 <= i < r.len() ==> r[i].0 <= r[i].1 && r[i].1 <= v.len(),
        forall|i: int|
            0 <= i < r.len() ==> v@.subrange(#[trigger] r[i].0 as int, r[i].1 as int) == lines(
                v@,
            )[i],
{
    let mut r: Vec<(usize, usize)> = Vec::new();
    let mut start: usize = 0;
    let mut j: usize = 0;
    proof {
        assert(v@.subrange(0, 0) =~= Seq::<char>::empty());
    }
    while j < v.len()
        invariant
            start <= j <= v.len(),
            pieces(v@.subrange(0, j as int)).len() == r.len() + 1,
            pieces(v@.subrange(0, j as int)).last() == v@.subrange(start as int, j as int),
            forall|i: int| #![trigger r[i]] 0 <= i < r.len() ==> r[i].0 <= r[i].1 && r[i].1 <= v.len(),
            forall|i: int|
                0 <= i < r.len() ==> v@.subrange(#[trigger] r[i].0 as int, r[i].1 as int)
                    == strip_cr(pieces(v@.subrange(0, j as int))[i]),
        decreases v.len() - j,
    {
        let ghost prev = v@.subrange(0, j as int);
        assert(v@.subrange(0, j + 1).drop_last() =~= prev);
        proof {
            lemma_pieces_nonempty(prev);
        }
        if v[j] == '\n' {
            let end = if j > start && v[j - 1] == '\r' {
                j - 1
            } else {
                j
            };
            assert(v@.subrange(start as int, end as int) == strip_cr(
                v@.subrange(start as int, j as int),
            )) by {
                if j > start && v[j - 1] == '\r' {
                    assert(v@.subrange(start as int, j as int).drop_last() =~= v@.subrange(
                        start as int,
                        end as int,
                    ));
                }
            }
            let ghost old_r = r@;
            r.push((start, end));
            start = j + 1;
            let ghost next = pieces(v@.subrange(0, j + 1));
            assert(next == pieces(prev).push(Seq::empty()));
            assert forall|i: int| 0 <= i < r.len() implies v@.subrange(
                #[trigger] r[i].0 as int,
                r[i].1 as int,
            ) == strip_cr(next[i]) by {
                if i < old_r.len() {
                    assert(r[i] == old_r[i]);
                    assert(next[i] == pieces(prev)[i]);
                }
            }
            assert(v@.subrange(start as int, j + 1) =~= Seq::<char>::empty());
        } else {
            assert(v@.subrange(start as int, j as int).push(v[j as int]) =~= v@.subrange(
                start as int,
                j + 1,
            ));
            let ghost next = pieces(v@.subrange(0, j + 1));
            assert forall|i: int| 0 <= i < r.len() implies v@.subrange(
                #[trigger] r[i].0 as int,
                r[i].1 as int,
            ) == strip_cr(next[i]) by {
                assert(next[i] == pieces(prev)[i]);
            }
        }
        j = j + 1;
    }
    assert(v@.subrange(0, v.len() as int) =~= v@);
    if start < v.len() {
        r.push((start, v.len()));
    }
    proof {
        let p = pieces(v@);
        let done = p.drop_last().map_values(|l: Seq<char>| strip_cr(l));
        if start < v.len() {
            assert(lines(v@) == done.push(p.last()));
        } else {
            assert(lines(v@) == done);
        }
        assert forall|i: int| 0 <= i < r.len() implies v@.subrange(
            #[trigger] r[i].0 as int,
            r[i].1 as int,
        ) == lines(v@)[i] by {
            if i < done.len() {
                assert(lines(v@)[i] == done[i]);
            }
        }
    }
    r
}


/// The maximal runs of non-whitespace characters of `s`, in order (what
/// `str::split_whitespace` yields).
pub open spec fn tokens(s: Seq<char>) -> Seq<Seq<char>>
    decreases s.len(),
{
    if s.len() == 0 {
        Seq::empty()
    } else {
        let t = tokens(s.drop_last());
        let c = s.last();
        if is_ws(c) {
            t
        } else if s.len() >= 2 && !is_ws(s[s.len() - 2]) {
            t.update(t.len() - 1, t.last().push(c))
        } else {
            t.push(seq![c])
        }
    }
}

/// The bounds of the whitespace-separated tokens of `v[lo..hi]`, in order.
#[verifier::spinoff_prover]
pub fn token_ranges(v: &Vec<char>, lo: usize, hi: usize) -> (r: Vec<(usize, usize)>)
    requires
        lo <= hi <= v.len(),
    ensures
        r.len() == tokens(v@.subrange(lo as int, hi as int)).len(),
        forall|i: int| #![trigger r[i]] 0 <= i < r.len() ==> lo <= r[i].0 && r[i].0 <= r[i].1 && r[i].1 <= hi,
        forall|i: int|
            0 <= i < r.len() ==> v@.subrange(#[trigger] r[i].0 as int, r[i].1 as int) == tokens(
                v@.subrange(lo as int, hi as int),
            )[i],
{
    let mut r: Vec<(usize, usize)> = Vec::new();
    let mut j: usize = lo;
    assert(v@.subrange(lo as int, lo as int) =~= Seq::<char>::empty());
    while j < hi
        invariant
            lo <= j <= hi <= v.len(),
            r.len() == tokens(v@.subrange(lo as int, j as int)).len(),
            forall|i: int| #![trigger r[i]] 0 <= i < r.len() ==> lo <= r[i].0 && r[i].0 <= r[i].1 && r[i].1 <= j,
            forall|i: int|
                0 <= i < r.len() ==> v@.subrange(#[trigger] r[i].0 as int, r[i].1 as int)
                    == tokens(v@.subrange(lo as int, j as int))[i],
            j > lo && !is_ws(v[j - 1]) ==> r.len() > 0 && r[r.len() - 1].1 == j,
        decreases hi - j,
    {
        let ghost prev = v@.subrange(lo as int, j as int);
        let ghost old_r = r@;
        assert(v@.subrange(lo as int, j + 1).drop_last() =~= prev);
        let c = v[j];
        if is_whitespace(c) {
            assert forall|i: int| #![trigger r[i]] 0 <= i < r.len() implies lo <= r[i].0 && r[i].0 <= r[i].1 && r[i].1 <= j
                + 1 by {
                assert(r[i] == old_r[i]);
            }
        } else if j > lo && !is_whitespace(v[j - 1]) {
            let k = r.len() - 1;
            let a = r[k].0;
            assert(v@.subrange(a as int, j as int).push(c) =~= v@.subrange(a as int, j + 1));
            r.set(k, (a, j + 1));
            assert forall|i: int| #![trigger r[i]] 0 <= i < r.len() implies lo <= r[i].0 && r[i].0 <= r[i].1 && r[i].1 <= j
                + 1 by {
                if i != k {
                    assert(r[i] == old_r[i]);
                }
            }
            assert forall|i: int| 0 <= i < r.len() implies v@.subrange(
                #[trigger] r[i].0 as int,
                r[i].1 as int,
            ) == tokens(v@.subrange(lo as int, j + 1))[i] by {
                if i != k {
                    assert(r[i] == old_r[i]);
                }
            }
        } else {
            r.push((j, j + 1));
            assert forall|i: int| #![trigger r[i]] 0 <= i < r.len() implies lo <= r[i].0 && r[i].0 <= r[i].1 && r[i].1 <= j
                + 1 by {
                if i < old_r.len() {
                    assert(r[i] == old_r[i]);
                }
            }
            assert(v@.subrange(j as int, j + 1) =~= seq![c]);
            assert forall|i: int| 0 <= i < r.len() implies v@.subrange(
                #[trigger] r[i].0 as int,
                r[i].1 as int,
            ) == tokens(v@.subrange(lo as int, j + 1))[i] by {
                if i < old_r.len() {
                    assert(r[i] == old_r[i]);
                }
            }
        }
        j = j + 1;
    }
    r
}

/// Whether `c` occurs in `s`.
pub open spec fn has_char(s: Seq<char>, c: char) -> bool {
    exists|k: int| 0 <= k < s.len() && s[k] == c
}

/// `k` is the first position of `c` in `s`.
pub open spec fn is_first_index(s: Seq<char>, c: char, k: int) -> bool {
    &&& 0 <= k < s.len()
    &&& s[k] == c
    &&& forall|j: int| 0 <= j < k ==> s[j] != c
}

/// The first position of `c` in `s` (meaningful where `has_char(s, c)`).
pub open spec fn first_index(s: Seq<char>, c: char) -> int {
    choose|k: int| is_first_index(s, c, k)
}

/// The first position of a character is unique.
pub proof fn lemma_first_index_unique(s: Seq<char>, c: char, k: int)
    requires
        is_first_index(s, c, k),
    ensures
        has_char(s, c),
        first_index(s, c) == k,
{
    assert(is_first_index(s, c, k));
    let k2 = first_index(s, c);
    assert(is_first_index(s, c, k2));
    if k2 < k {
        assert(s[k2] != c);
    } else if k < k2 {
        assert(s[k] != c);
    }
}

/// The first position of `c` in `v[lo..hi]`, counted from `lo`, if any.
pub fn find_char(v: &Vec<char>, lo: usize, hi: usize, c: char) -> (r: Option<usize>)
    requires
        lo <= hi <= v.len(),
    ensures
        r is None <==> !has_char(v@.subrange(lo as int, hi as int), c),
        r matches Some(k) ==> k < hi - lo && first_index(v@.subrange(lo as int, hi as int), c)
            == k,
{
    let ghost s = v@.subrange(lo as int, hi as int);
    let mut j: usize = lo;
    while j < hi
        invariant
            lo <= j <= hi <= v.len(),
            s == v@.subrange(lo as int, hi as int),
            forall|i: int| 0 <= i < j - lo ==> s[i] != c,
        decreases hi - j,
    {
        if v[j] == c {
            proof {
                lemma_first_index_unique(s, c, j - lo);
            }
            return Some(j - lo);
        }
        j = j + 1;
    }
    None
}

/// Whether `v[a..b]` spells exactly `lit`.
pub fn range_is(v: &Vec<char>, a: usize, b: usize, lit: &str) -> (r: bool)
    requires
        a <= b <= v.len(),
    ensures
        r == (v@.subrange(a as int, b as int) == lit@),
{
    let w = chars_of(lit);
    if b - a != w.len() {
        return false;
    }
    let mut i: usize = 0;
    while i < w.len()
        invariant
            a <= b <= v.len(),
            b - a == w.len(),
            w@ == lit@,
            0 <= i <= w.len(),
            forall|k: int| 0 <= k < i ==> v@[a + k] == w@[k],
        decreases w.len() - i,
    {
        if v[a + i] != w[i] {
            assert(v@.subrange(a as int, b as int)[i as int] != lit@[i as int]);
            return false;
        }
        i = i + 1;
    }
    assert(v@.subrange(a as int, b as int) =~= lit@);
    true
}

/// The code of `c` with ASCII upper-case letters mapped to lower case.
pub open spec fn ascii_lower(c: char) -> u32 {
    if 'A' <= c && c <= 'Z' {
        (c as u32 + 32) as u32
    } else {
        c as u32
    }
}

/// `a` and `b` are equal up to ASCII case (what `eq_ignore_ascii_case`
/// tests).
pub open spec fn eq_ignore_case(a: Seq<char>, b: Seq<char>) -> bool {
    &&& a.len() == b.len()
    &&& forall|i: int| 0 <= i < a.len() ==> ascii_lower(a[i]) == ascii_lower(b[i])
}

/// The code of `c` with ASCII upper-case letters mapped to lower case.
pub fn to_ascii_lower(c: char) -> (r: u32)
    ensures
        r == ascii_lower(c),
{
    if 'A' <= c && c <= 'Z' {
        (c as u32) + 32
    } else {
        c as u32
    }
}

/// Whether `v[a..b]` equals `w` up to ASCII case.
pub fn range_eq_ignore_case(v: &Vec<char>, a: usize, b: usize, w: &Vec<char>) -> (r: bool)
    requires
        a <= b <= v.len(),
    ensures
        r == eq_ignore_case(v@.subrange(a as int, b as int), w@),
{
    if b - a != w.len() {
        return false;
    }
    let mut i: usize = 0;
    while i < w.len()
        invariant
            a <= b <= v.len(),
            b - a == w.len(),
            0 <= i <= w.len(),
            forall|k: int| 0 <= k < i ==> ascii_lower(v@[a + k]) == ascii_lower(w@[k]),
        decreases w.len() - i,
    {
        if to_ascii_lower(v[a + i]) != to_ascii_lower(w[i]) {
            assert(v@.subrange(a as int, b as int)[i as int] == v@[a + i]);
            return false;
        }
        i = i + 1;
    }
    assert forall|k: int| 0 <= k < b - a implies ascii_lower(
        v@.subrange(a as int, b as int)[k],
    ) == ascii_lower(w@[k]) by {
        assert(v@.subrange(a as int, b as int)[k] == v@[a + k]);
    }
    true
}

} // verus!
