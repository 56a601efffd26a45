use vstd::prelude::*;

verus! {

/// The characters of one line.
pub type Line = Seq<char>;

/// The lines of a buffer, as sequences of characters.
pub open spec fn lines_view(v: Seq<Vec<char>>) -> Seq<Line> {
    v.map_values(|l: Vec<char>| l@)
}

pub broadcast proof fn lemma_lines_view_len(v: Seq<Vec<char>>)
    ensures
        #[trigger] lines_view(v).len() == v.len(),
{
}

pub broadcast proof fn lemma_lines_view_index(v: Seq<Vec<char>>, i: int)
    requires
        0 <= i < v.len(),
    ensures
        #[trigger] lines_view(v)[i] == v[i]@,
{
}

pub broadcast proof fn lemma_lines_view_push(v: Seq<Vec<char>>, x: Vec<char>)
    ensures
        #[trigger] lines_view(v.push(x)) == lines_view(v).push(x@),
{
    assert(lines_view(v.push(x)) =~= lines_view(v).push(x@));
}

pub broadcast proof fn lemma_lines_view_remove(v: Seq<Vec<char>>, i: int)
    requires
        0 <= i < v.len(),
    ensures
        #[trigger] lines_view(v.remove(i)) == lines_view(v).remove(i),
{
    assert(lines_view(v.remove(i)) =~= lines_view(v).remove(i));
}

pub broadcast proof fn lemma_lines_view_insert(v: Seq<Vec<char>>, i: int, x: Vec<char>)
    requires
        0 <= i <= v.len(),
    ensures
        #[trigger] lines_view(v.insert(i, x)) == lines_view(v).insert(i, x@),
{
    assert(lines_view(v.insert(i, x)) =~= lines_view(v).insert(i, x@));
}

pub broadcast proof fn lemma_lines_view_update(v: Seq<Vec<char>>, i: int, x: Vec<char>)
    requires
        0 <= i < v.len(),
    ensures
        #[trigger] lines_view(v.update(i, x)) == lines_view(v).update(i, x@),
{
    assert(lines_view(v.update(i, x)) =~= lines_view(v).update(i, x@));
}

pub broadcast group group_lines_view {
    lemma_lines_view_push,
    lemma_lines_view_remove,
    lemma_lines_view_insert,
    lemma_lines_view_update,
    lemma_lines_view_len,
    lemma_lines_view_index,
}

pub open spec fn is_blank_char(c: char) -> bool {
    c == ' ' || c == '\t' || c == '\r' || c == '\n'
}

/// Word characters: ASCII letters and digits, `_`, and every non-ASCII
/// character that is not blank.
pub open spec fn is_word_char(c: char) -> bool {
    ('a' <= c && c <= 'z') || ('A' <= c && c <= 'Z') || ('0' <= c && c <= '9') || c == '_'
        || (c as u32) >= 128
}

/// The class of a character for word motions: 0 blank, 1 word, 2 other.
pub open spec fn class_of(c: char) -> u8 {
    if is_blank_char(c) {
        0
    } else if is_word_char(c) {
        1
    } else {
        2
    }
}

pub fn char_class(c: char) -> (r: u8)
    ensures
        r == class_of(c),
{
    if c == ' ' || c == '\t' || c == '\r' || c == '\n' {
        0
    } else if ('a' <= c && c <= 'z') || ('A' <= c && c <= 'Z') || ('0' <= c && c <= '9') || c
        == '_' || (c as u32) >= 128 {
        1
    } else {
        2
    }
}

/// The first index at or after `i` whose character is not of class `k`.
pub open spec fn run_end(l: Line, i: int, k: u8) -> int
    decreases l.len() - i,
{
    if 0 <= i < l.len() && class_of(l[i]) == k {
        run_end(l, i + 1, k)
    } else {
        i
    }
}

/// The first index at or before `i` such that the characters from there up
/// to `i` are all of class `k`.
pub open spec fn run_start(l: Line, i: int, k: u8) -> int
    decreases i,
{
    if 0 < i <= l.len() && class_of(l[i - 1]) == k {
        run_start(l, i - 1, k)
    } else {
        i
    }
}

/// Where a forward word motion lands inside a line: past the rest of the
/// run under `c`, then past the blanks after it.
pub open spec fn word_forward_in(l: Line, c: int) -> int {
    if 0 <= c < l.len() {
        run_end(l, run_end(l, c, class_of(l[c])), 0)
    } else {
        c
    }
}

/// Where a backward word motion lands inside a line: back over blanks, then
/// to the start of the run before them.
pub open spec fn word_backward_in(l: Line, c: int) -> int {
    let i = run_start(l, c, 0);
    if i > 0 {
        run_start(l, i, class_of(l[i - 1]))
    } else {
        0
    }
}

/// The last character of the word at or after `c + 1`, or `c` when the line
/// has none.
pub open spec fn word_end_in(l: Line, c: int) -> int {
    let i = run_end(l, c + 1, 0);
    if 0 <= c && i < l.len() {
        run_end(l, i, class_of(l[i])) - 1
    } else {
        c
    }
}

pub proof fn lemma_run_end(l: Line, i: int, k: u8)
    requires
        0 <= i <= l.len(),
    ensures
        i <= run_end(l, i, k) <= l.len(),
        forall|j: int| i <= j < run_end(l, i, k) ==> class_of(#[trigger] l[j]) == k,
        run_end(l, i, k) < l.len() ==> class_of(l[run_end(l, i, k)]) != k,
    decreases l.len() - i,
{
    if i < l.len() && class_of(l[i]) == k {
        lemma_run_end(l, i + 1, k);
    }
}

proof fn lemma_run_start_le(l: Line, i: int, k: u8)
    ensures
        run_start(l, i, k) <= i,
    decreases i,
{
    if 0 < i <= l.len() && class_of(l[i - 1]) == k {
        lemma_run_start_le(l, i - 1, k);
    }
}

pub proof fn lemma_run_start_within(l: Line, i: int, m: int, k: u8)
    requires
        0 <= m <= i <= l.len(),
        forall|j: int| m <= j < i ==> class_of(#[trigger] l[j]) == k,
    ensures
        run_start(l, i, k) <= m,
        (m == 0 || class_of(l[m - 1]) != k) ==> run_start(l, i, k) == m,
    decreases i,
{
    if i > m {
        lemma_run_start_within(l, i - 1, m, k);
    } else {
        lemma_run_start_le(l, i, k);
    }
}

/// A forward word motion followed by a backward one never ends after the
/// place it started from, inside one line.
pub proof fn lemma_word_round_trip_in(l: Line, c: int)
    requires
        0 <= c <= l.len(),
    ensures
        word_backward_in(l, word_forward_in(l, c)) <= c,
{
    if c < l.len() {
        let k = class_of(l[c]);
        let e = run_end(l, c, k);
        lemma_run_end(l, c, k);
        let j = run_end(l, e, 0);
        lemma_run_end(l, e, 0);
        let i0 = run_start(l, j, 0);
        if k == 0 {
            assert forall|x: int| c <= x < j implies class_of(#[trigger] l[x]) == 0 by {
                if x >= e {
                } else {
                }
            }
            lemma_run_start_within(l, j, c, 0);
            if i0 > 0 {
                lemma_run_start_within(l, i0, i0, class_of(l[i0 - 1]));
            }
        } else {
            assert(class_of(l[e - 1]) == k);
            lemma_run_start_within(l, j, e, 0);
            assert(i0 == e);
            lemma_run_start_within(l, e, c, k);
        }
    } else {
        let i0 = run_start(l, c, 0);
        lemma_run_start_within(l, c, c, 0);
        if i0 > 0 {
            lemma_run_start_within(l, i0, i0, class_of(l[i0 - 1]));
        }
    }
}

pub fn skip_run(l: &Vec<char>, i: usize, k: u8) -> (r: usize)
    requires
        i <= l@.len(),
    ensures
        r == run_end(l@, i as int, k),
        i <= r <= l@.len(),
{
    let mut j = i;
    while j < l.len() && char_class(l[j]) == k
        invariant
            i <= j <= l@.len(),
            run_end(l@, j as int, k) == run_end(l@, i as int, k),
        decreases l@.len() - j,
    {
        j = j + 1;
    }
    j
}

pub fn skip_run_back(l: &Vec<char>, i: usize, k: u8) -> (r: usize)
    requires
        i <= l@.len(),
    ensures
        r == run_start(l@, i as int, k),
        r <= i,
{
    let mut j = i;
    while j > 0 && char_class(l[j - 1]) == k
        invariant
            j <= i <= l@.len(),
            run_start(l@, j as int, k) == run_start(l@, i as int, k),
        decreases j,
    {
        j = j - 1;
    }
    j
}

pub fn word_forward(l: &Vec<char>, c: usize) -> (r: usize)
    requires
        c <= l@.len(),
    ensures
        r == word_forward_in(l@, c as int),
        c <= r <= l@.len(),
{
    if c < l.len() {
        let e = skip_run(l, c, char_class(l[c]));
        skip_run(l, e, 0)
    } else {
        c
    }
}

pub fn word_backward(l: &Vec<char>, c: usize) -> (r: usize)
    requires
        c <= l@.len(),
    ensures
        r == word_backward_in(l@, c as int),
        r <= c,
{
    let i = skip_run_back(l, c, 0);
    if i > 0 {
        skip_run_back(l, i, char_class(l[i - 1]))
    } else {
        0
    }
}

pub fn word_end(l: &Vec<char>, c: usize) -> (r: usize)
    requires
        c <= l@.len(),
    ensures
        r == word_end_in(l@, c as int),
        r <= l@.len(),
{
    if c >= l.len() {
        return c;
    }
    let i = skip_run(l, c + 1, 0);
    if i < l.len() {
        let e = skip_run(l, i, char_class(l[i]));
        e - 1
    } else {
        c
    }
}

/// The characters of `l` from `a` up to `b`.
pub fn slice(l: &Vec<char>, a: usize, b: usize) -> (r: Vec<char>)
    requires
        a <= b <= l@.len(),
    ensures
        r@ == l@.subrange(a as int, b as int),
{
    let mut r: Vec<char> = Vec::new();
    let mut i = a;
    while i < b
        invariant
            a <= i <= b <= l@.len(),
            r@ == l@.subrange(a as int, i as int),
        decreases b - i,
    {
        r.push(l[i]);
        assert(r@ =~= l@.subrange(a as int, i + 1));
        i = i + 1;
    }
    r
}

/// `a` followed by `b`.
pub fn concat(a: &Vec<char>, b: &Vec<char>) -> (r: Vec<char>)
    ensures
        r@ == a@ + b@,
{
    let mut r = slice(a, 0, a.len());
    assert(r@ =~= a@);
    let mut i: usize = 0;
    while i < b.len()
        invariant
            i <= b@.len(),
            r@ == a@ + b@.subrange(0, i as int),
        decreases b@.len() - i,
    {
        r.push(b[i]);
        assert(r@ =~= a@ + b@.subrange(0, i + 1));
        i = i + 1;
    }
    assert(b@.subrange(0, b@.len() as int) =~= b@);
    r
}

/// Whether `(sr, sc)` and `(er, ec)` are positions of `t`, the first not
/// after the second.
pub open spec fn range_ok(t: Seq<Line>, sr: int, sc: int, er: int, ec: int) -> bool {
    &&& 0 <= sr <= er < t.len()
    &&& 0 <= sc <= t[sr].len()
    &&& 0 <= ec <= t[er].len()
    &&& (sr == er ==> sc <= ec)
}

/// The text between two positions, one piece per line it touches.
pub open spec fn extract(t: Seq<Line>, sr: int, sc: int, er: int, ec: int) -> Seq<Line> {
    if sr == er {
        seq![t[sr].subrange(sc, ec)]
    } else {
        seq![t[sr].subrange(sc, t[sr].len() as int)] + t.subrange(sr + 1, er) + seq![
            t[er].subrange(0, ec),
        ]
    }
}

/// The text with what lies between two positions taken out.
pub open spec fn remove_range(t: Seq<Line>, sr: int, sc: int, er: int, ec: int) -> Seq<Line> {
    t.subrange(0, sr) + seq![t[sr].subrange(0, sc) + t[er].subrange(ec, t[er].len() as int)]
        + t.subrange(er + 1, t.len() as int)
}

/// The text with the pieces `p` put in at position `(r, c)`.
pub open spec fn insert_pieces(t: Seq<Line>, r: int, c: int, p: Seq<Line>) -> Seq<Line> {
    let pre = t[r].subrange(0, c);
    let post = t[r].subrange(c, t[r].len() as int);
    let mid = if p.len() == 1 {
        seq![pre + p[0] + post]
    } else {
        seq![pre + p[0]] + p.subrange(1, p.len() - 1) + seq![p.last() + post]
    };
    t.subrange(0, r) + mid + t.subrange(r + 1, t.len() as int)
}

/// Where the cursor stands after the pieces `p` are put in at `(r, c)`.
pub open spec fn paste_end(r: int, c: int, p: Seq<Line>) -> (int, int) {
    if p.len() == 1 {
        (r, c + p[0].len())
    } else {
        (r + p.len() - 1, p.last().len() as int)
    }
}

/// Taking a range out and putting it back where it started gives back the
/// text.
pub proof fn lemma_cut_paste(t: Seq<Line>, sr: int, sc: int, er: int, ec: int)
    requires
        range_ok(t, sr, sc, er, ec),
    ensures
        insert_pieces(remove_range(t, sr, sc, er, ec), sr, sc, extract(t, sr, sc, er, ec)) == t,
{
    let u = remove_range(t, sr, sc, er, ec);
    let p = extract(t, sr, sc, er, ec);
    assert(u[sr] == t[sr].subrange(0, sc) + t[er].subrange(ec, t[er].len() as int));
    assert(u[sr].subrange(0, sc) =~= t[sr].subrange(0, sc));
    assert(u[sr].subrange(sc, u[sr].len() as int) =~= t[er].subrange(ec, t[er].len() as int));
    assert(u.subrange(0, sr) =~= t.subrange(0, sr));
    assert(u.subrange(sr + 1, u.len() as int) =~= t.subrange(er + 1, t.len() as int));
    if sr == er {
        assert(t[sr].subrange(0, sc) + t[sr].subrange(sc, ec) + t[sr].subrange(ec, t[sr].len() as int)
            =~= t[sr]);
        assert(insert_pieces(u, sr, sc, p) =~= t);
    } else {
        assert(p.len() == er - sr + 1);
        assert(p[0] == t[sr].subrange(sc, t[sr].len() as int));
        assert(p.last() == t[er].subrange(0, ec));
        assert(p.subrange(1, p.len() - 1) =~= t.subrange(sr + 1, er));
        assert(t[sr].subrange(0, sc) + t[sr].subrange(sc, t[sr].len() as int) =~= t[sr]);
        assert(t[er].subrange(0, ec) + t[er].subrange(ec, t[er].len() as int) =~= t[er]);
        assert(insert_pieces(u, sr, sc, p) =~= t);
    }
}

/// A copy of every line.
pub fn copy_lines(v: &Vec<Vec<char>>) -> (r: Vec<Vec<char>>)
    ensures
        lines_view(r@) == lines_view(v@),
{
    let mut r: Vec<Vec<char>> = Vec::new();
    let mut i: usize = 0;
    while i < v.len()
        invariant
            i <= v@.len(),
            lines_view(r@) == lines_view(v@).subrange(0, i as int),
        decreases v@.len() - i,
    {
        let piece = slice(&v[i], 0, v[i].len());
        let ghost before = r@;
        let ghost pv = piece;
        r.push(piece);
        proof {
            lemma_lines_view_push(before, pv);
            lemma_lines_view_index(v@, i as int);
            assert(pv@ =~= v@[i as int]@);
            assert(lines_view(r@) =~= lines_view(v@).subrange(0, i + 1));
        }
        i = i + 1;
    }
    proof {
        lemma_lines_view_len(v@);
    }
    assert(lines_view(r@) =~= lines_view(v@));
    r
}

/// The lines of a text: it is cut at each `'\n'`, so a text with `n`
/// newlines has `n + 1` lines.
pub open spec fn lines_of(s: Seq<char>) -> Seq<Line>
    decreases s.len(),
{
    if s.len() == 0 {
        seq![Seq::empty()]
    } else {
        let prev = lines_of(s.drop_last());
        if s.last() == '\n' {
            prev.push(Seq::empty())
        } else {
            prev.update(prev.len() - 1, prev.last().push(s.last()))
        }
    }
}

/// A text without a newline is one line.
pub proof fn lemma_lines_of_single(s: Seq<char>)
    requires
        forall|i: int| 0 <= i < s.len() ==> s[i] != '\n',
    ensures
        lines_of(s) == seq![s],
    decreases s.len(),
{
    if s.len() > 0 {
        lemma_lines_of_single(s.drop_last());
        assert(s.drop_last().push(s.last()) =~= s);
        assert(seq![s.drop_last()].update(0, s.drop_last().push(s.last())) =~= seq![s]);
    } else {
        assert(s =~= Seq::<char>::empty());
    }
}

proof fn lemma_lines_of_len(s: Seq<char>)
    ensures
        lines_of(s).len() >= 1,
    decreases s.len(),
{
    if s.len() > 0 {
        lemma_lines_of_len(s.drop_last());
    }
}

/// Cuts a text into lines.
pub fn split_lines(s: &str) -> (r: Vec<Vec<char>>)
    ensures
        lines_view(r@) == lines_of(s@),
        r@.len() >= 1,
{
    broadcast use group_lines_view;

    let n = s.unicode_len();
    let mut r: Vec<Vec<char>> = Vec::new();
    let mut cur: Vec<char> = Vec::new();
    let mut i: usize = 0;
    assert(s@.subrange(0, 0) =~= Seq::<char>::empty());
    while i < n
        invariant
            n == s@.len(),
            i <= n,
            lines_view(r@).push(cur@) == lines_of(s@.subrange(0, i as int)),
        decreases n - i,
    {
        let ch = s.get_char(i);
        let ghost prefix = s@.subrange(0, i + 1);
        assert(prefix.drop_last() =~= s@.subrange(0, i as int));
        if ch == '\n' {
            let done = cur;
            r.push(done);
            cur = Vec::new();
            assert(lines_view(r@).push(cur@) =~= lines_of(prefix));
        } else {
            let ghost before = lines_view(r@).push(cur@);
            cur.push(ch);
            assert(lines_view(r@).push(cur@) =~= before.update(before.len() - 1, before.last().push(ch)));
        }
        i = i + 1;
    }
    assert(s@.subrange(0, n as int) =~= s@);
    r.push(cur);
    r
}

/// `l` without a final `'\r'`.
pub open spec fn strip_cr(l: Line) -> Line {
    if l.len() > 0 && l.last() == '\r' {
        l.drop_last()
    } else {
        l
    }
}

/// The lines of a text as `str::lines` gives them: each line ends at a
/// `'\n'` or a `"\r\n"`, a final line ending opens no empty line, and a `'\r'`
/// at the very end of an unterminated last line stays.
pub open spec fn std_lines(s: Seq<char>) -> Seq<Line> {
    let p = lines_of(s);
    let body = if s.len() == 0 || s.last() == '\n' {
        p.drop_last()
    } else {
        p
    };
    Seq::new(
        body.len(),
        |i: int|
            if i < p.len() - 1 {
                strip_cr(body[i])
            } else {
                body[i]
            },
    )
}

/// The lines a buffer holds for a text: those of `std_lines`, or one empty
/// line for a text that has none.
pub open spec fn text_lines_of(s: Seq<char>) -> Seq<Line> {
    if std_lines(s).len() == 0 {
        seq![Seq::<char>::empty()]
    } else {
        std_lines(s)
    }
}

/// Cuts a text into the lines a buffer holds for it.
pub fn body_lines(s: &str) -> (r: Vec<Vec<char>>)
    ensures
        lines_view(r@) == text_lines_of(s@),
        r@.len() >= 1,
{
    broadcast use group_lines_view;

    let p = split_lines(s);
    let n = s.unicode_len();
    let ended = n == 0 || s.get_char(n - 1) == '\n';
    let m = if ended {
        p.len() - 1
    } else {
        p.len()
    };
    let ghost want = std_lines(s@);
    assert(want.len() == m);
    let mut r: Vec<Vec<char>> = Vec::new();
    let mut i: usize = 0;
    while i < m
        invariant
            i <= m,
            m <= p@.len(),
            want == std_lines(s@),
            want.len() == m,
            lines_view(p@) == lines_of(s@),
            m == (if s@.len() == 0 || s@.last() == '\n' { p@.len() - 1 } else { p@.len() as int }),
            lines_view(r@) == want.subrange(0, i as int),
        decreases m - i,
    {
        let l = &p[i];
        let k = l.len();
        let piece = if i < p.len() - 1 && k > 0 && l[k - 1] == '\r' {
            slice(l, 0, k - 1)
        } else {
            slice(l, 0, k)
        };
        proof {
            assert(piece@ =~= want[i as int]);
        }
        let ghost before = r@;
        let ghost pv = piece;
        r.push(piece);
        proof {
            lemma_lines_view_push(before, pv);
        }
        assert(lines_view(r@) =~= want.subrange(0, i + 1));
        i = i + 1;
    }
    assert(want.subrange(0, m as int) =~= want);
    if r.len() == 0 {
        r.push(Vec::new());
        assert(lines_view(r@) =~= text_lines_of(s@));
    }
    r
}

/// The lines of `t` joined with `'\n'` between them.
pub open spec fn joined(t: Seq<Line>) -> Seq<char>
    decreases t.len(),
{
    if t.len() == 0 {
        Seq::empty()
    } else if t.len() == 1 {
        t[0]
    } else {
        joined(t.drop_last()) + seq!['\n'] + t.last()
    }
}

/// The lines joined with `'\n'` between them, as one text.
pub fn join_lines(v: &Vec<Vec<char>>) -> (r: Vec<char>)
    ensures
        r@ == joined(lines_view(v@)),
{
    broadcast use group_lines_view;

    let n = v.len();
    if n == 0 {
        return Vec::new();
    }
    let ghost t = lines_view(v@);
    let mut r = slice(&v[0], 0, v[0].len());
    assert(t.subrange(0, 1) =~= seq![t[0]]);
    assert(r@ =~= joined(t.subrange(0, 1)));
    let mut i: usize = 1;
    while i < n
        invariant
            1 <= i <= n,
            n == v@.len(),
            t == lines_view(v@),
            r@ == joined(t.subrange(0, i as int)),
        decreases n - i,
    {
        let mut sep: Vec<char> = Vec::new();
        sep.push('\n');
        let with_sep = concat(&r, &sep);
        r = concat(&with_sep, &v[i]);
        let ghost pre = t.subrange(0, i + 1);
        assert(pre.drop_last() =~= t.subrange(0, i as int));
        assert(sep@ =~= seq!['\n']);
        assert(r@ =~= joined(pre));
        i = i + 1;
    }
    assert(t.subrange(0, n as int) =~= t);
    r
}

/// A copy of the text between two positions.
pub fn extract_range(v: &Vec<Vec<char>>, sr: usize, sc: usize, er: usize, ec: usize) -> (r: Vec<
    Vec<char>,
>)
    requires
        range_ok(lines_view(v@), sr as int, sc as int, er as int, ec as int),
    ensures
        lines_view(r@) == extract(lines_view(v@), sr as int, sc as int, er as int, ec as int),
{
    broadcast use group_lines_view;

    let ghost t = lines_view(v@);
    let mut r: Vec<Vec<char>> = Vec::new();
    if sr == er {
        r.push(slice(&v[sr], sc, ec));
        assert(lines_view(r@) =~= extract(t, sr as int, sc as int, er as int, ec as int));
    } else {
        r.push(slice(&v[sr], sc, v[sr].len()));
        let mut i = sr + 1;
        while i < er
            invariant
                sr < i <= er < v@.len(),
                t == lines_view(v@),
                t.len() == v@.len(),
                range_ok(t, sr as int, sc as int, er as int, ec as int),
                lines_view(r@) == seq![t[sr as int].subrange(sc as int, t[sr as int].len() as int)]
                    + t.subrange(sr + 1, i as int),
            decreases er - i,
        {
            let piece = slice(&v[i], 0, v[i].len());
            let ghost before = r@;
            let ghost pv = piece;
            r.push(piece);
            proof {
                lemma_lines_view_push(before, pv);
                assert(pv@ =~= t[i as int]);
            }
            assert(lines_view(r@) =~= seq![t[sr as int].subrange(sc as int, t[sr as int].len() as int)]
                + t.subrange(sr + 1, i + 1));
            i = i + 1;
        }
        r.push(slice(&v[er], 0, ec));
        assert(lines_view(r@) =~= extract(t, sr as int, sc as int, er as int, ec as int));
    }
    r
}

/// Takes out the text between two positions.
pub fn remove_range_in(v: &mut Vec<Vec<char>>, sr: usize, sc: usize, er: usize, ec: usize)
    requires
        range_ok(lines_view(old(v)@), sr as int, sc as int, er as int, ec as int),
    ensures
        lines_view(final(v)@) == remove_range(
            lines_view(old(v)@),
            sr as int,
            sc as int,
            er as int,
            ec as int,
        ),
{
    broadcast use group_lines_view;

    let ghost t = lines_view(v@);
    let head = slice(&v[sr], 0, sc);
    let tail = slice(&v[er], ec, v[er].len());
    let joined = concat(&head, &tail);
    let mut k = sr;
    assert(t.subrange(0, sr + 1) + t.subrange(sr + 1, t.len() as int) =~= t);
    while k < er
        invariant
            sr <= k <= er < t.len(),
            v@.len() == t.len() - (k - sr),
            lines_view(v@).len() == v@.len(),
            range_ok(t, sr as int, sc as int, er as int, ec as int),
            joined@ == t[sr as int].subrange(0, sc as int) + t[er as int].subrange(ec as int, t[er as int].len() as int),
            lines_view(v@) == t.subrange(0, sr + 1) + t.subrange(k + 1, t.len() as int),
        decreases er - k,
    {
        let ghost before = v@;
        v.remove(sr + 1);
        proof {
            lemma_lines_view_remove(before, sr + 1);
        }
        assert(lines_view(v@) =~= t.subrange(0, sr + 1) + t.subrange(k + 2, t.len() as int));
        k = k + 1;
    }
    v.set(sr, joined);
    assert(lines_view(v@) =~= remove_range(t, sr as int, sc as int, er as int, ec as int));
}

/// Puts the pieces `p` in at position `(r, c)`.
pub fn insert_pieces_in(v: &mut Vec<Vec<char>>, r: usize, c: usize, p: &Vec<Vec<char>>)
    requires
        r < old(v)@.len(),
        c <= old(v)@[r as int]@.len(),
        p@.len() >= 1,
    ensures
        lines_view(final(v)@) == insert_pieces(lines_view(old(v)@), r as int, c as int, lines_view(p@)),
{
    broadcast use group_lines_view;

    let ghost t = lines_view(v@);
    let ghost q = lines_view(p@);
    let pre = slice(&v[r], 0, c);
    let post = slice(&v[r], c, v[r].len());
    let n = p.len();
    if n == 1 {
        let a = concat(&pre, &p[0]);
        let b = concat(&a, &post);
        v.set(r, b);
        assert(lines_view(v@) =~= insert_pieces(t, r as int, c as int, q));
    } else {
        let first = concat(&pre, &p[0]);
        let last = concat(&p[n - 1], &post);
        v.set(r, first);
        let mut i: usize = 1;
        while i < n - 1
            invariant
                1 <= i <= n - 1,
                n == p@.len(),
                q == lines_view(p@),
                r < t.len(),
                v@.len() == t.len() + i - 1,
                r + i <= v@.len(),
                t.len() == v@.len() + 1 - i,
                c <= t[r as int].len(),
                pre@ == t[r as int].subrange(0, c as int),
                last@ == q[n - 1] + t[r as int].subrange(c as int, t[r as int].len() as int),
                lines_view(v@) == t.subrange(0, r as int) + seq![pre@ + q[0]] + q.subrange(1, i as int)
                    + t.subrange(r + 1, t.len() as int),
            decreases n - i,
        {
            let cur = v.len();
            assert(r + i <= cur);
            let piece = slice(&p[i], 0, p[i].len());
            let ghost before = v@;
            let ghost pv = piece;
            v.insert(r + i, piece);
            proof {
                lemma_lines_view_insert(before, r + i, pv);
                assert(pv@ =~= q[i as int]);
            }
            assert(lines_view(v@) =~= t.subrange(0, r as int) + seq![pre@ + q[0]] + q.subrange(1, i + 1)
                + t.subrange(r + 1, t.len() as int));
            i = i + 1;
        }
        let cur = v.len();
        assert(r + (n - 1) <= cur);
        v.insert(r + (n - 1), last);
        assert(lines_view(v@) =~= insert_pieces(t, r as int, c as int, q));
    }
}

} // verus!
