//! Character-level text primitives with their mathematical meaning.
//!
//! Every function here works on the `Seq<char>` view of a string. The spec
//! functions state what `str::trim`, `str::lines`, `str::split_whitespace`,
//! `splitn(2, c)`, `strip_prefix` and `trim_end_matches` compute; the
//! executable functions are proved against them.

use vstd::prelude::*;

verus! {

// ---------------------------------------------------------------------------
// Specifications
// ---------------------------------------------------------------------------

/// Unicode `White_Space`, the property that `char::is_whitespace` tests.
pub open spec fn is_ws(c: char) -> bool {
    ||| ('\u{9}' <= c && c <= '\u{d}')
    ||| c == ' '
    ||| c == '\u{85}'
    ||| c == '\u{a0}'
    ||| c == '\u{1680}'
    ||| ('\u{2000}' <= c && c <= '\u{200a}')
    ||| c == '\u{2028}'
    ||| c == '\u{2029}'
    ||| c == '\u{202f}'
    ||| c == '\u{205f}'
    ||| c == '\u{3000}'
}

/// `s` with its leading whitespace removed.
pub open spec fn trim_start(s: Seq<char>) -> Seq<char>
    decreases s.len(),
{
    if s.len() > 0 && is_ws(s[0]) {
        trim_start(s.drop_first())
    } else {
        s
    }
}

/// `s` with its trailing whitespace removed.
pub open spec fn trim_end(s: Seq<char>) -> Seq<char>
    decreases s.len(),
{
    if s.len() > 0 && is_ws(s.last()) {
        trim_end(s.drop_last())
    } else {
        s
    }
}

/// `s` with whitespace removed at both ends (`str::trim`).
pub open spec fn trimmed(s: Seq<char>) -> Seq<char> {
    trim_end(trim_start(s))
}

/// Index of the first occurrence of `c` in `s`.
pub open spec fn index_of(s: Seq<char>, c: char) -> Option<int>
    decreases s.len(),
{
    if s.len() == 0 {
        None
    } else if s[0] == c {
        Some(0)
    } else {
        match index_of(s.drop_first(), c) {
            Some(i) => Some(i + 1),
            None => None,
        }
    }
}

/// The part of `s` before the first `c` (all of `s` when there is none): the
/// first item of `s.splitn(2, c)`.
pub open spec fn before(s: Seq<char>, c: char) -> Seq<char> {
    match index_of(s, c) {
        Some(i) => s.take(i),
        None => s,
    }
}

/// The part of `s` after the first `c` (empty when there is none): the second
/// item of `s.splitn(2, c)`, defaulted to the empty string.
pub open spec fn after(s: Seq<char>, c: char) -> Seq<char> {
    match index_of(s, c) {
        Some(i) => s.skip(i + 1),
        None => Seq::empty(),
    }
}

/// Whether `s` begins with `p`.
pub open spec fn starts_with(s: Seq<char>, p: Seq<char>) -> bool {
    p.len() <= s.len() && s.take(p.len() as int) == p
}

/// Whether `s` ends with `p`.
pub open spec fn ends_with(s: Seq<char>, p: Seq<char>) -> bool {
    p.len() <= s.len() && s.skip(s.len() - p.len()) == p
}

/// `s` with every trailing `c` removed (`trim_end_matches(c)`).
pub open spec fn trim_end_char(s: Seq<char>, c: char) -> Seq<char>
    decreases s.len(),
{
    if s.len() > 0 && s.last() == c {
        trim_end_char(s.drop_last(), c)
    } else {
        s
    }
}

/// `s` with the suffix `p` removed as often as it occurs (`trim_end_matches(p)`).
pub open spec fn trim_end_str(s: Seq<char>, p: Seq<char>) -> Seq<char>
    decreases s.len(),
{
    if p.len() > 0 && ends_with(s, p) {
        trim_end_str(s.take(s.len() - p.len()), p)
    } else {
        s
    }
}

/// One line with a trailing carriage return removed.
pub open spec fn strip_cr(l: Seq<char>) -> Seq<char> {
    if l.len() > 0 && l.last() == '\r' {
        l.drop_last()
    } else {
        l
    }
}

/// The lines of `s` (`str::lines`): split at `\n`, a `\r` before the `\n`
/// removed, no empty line after a final `\n`.
pub open spec fn lines(s: Seq<char>) -> Seq<Seq<char>>
    decreases s.len(),
{
    if s.len() == 0 {
        Seq::empty()
    } else {
        match index_of(s, '\n') {
            None => seq![s],
            Some(i) => {
                proof {
                    lemma_index_of_bounds(s, '\n');
                }
                seq![strip_cr(s.take(i))] + lines(s.skip(i + 1))
            },
        }
    }
}

/// Number of non-whitespace characters at the start of `s`.
pub open spec fn word_len(s: Seq<char>) -> nat
    decreases s.len(),
{
    if s.len() == 0 || is_ws(s[0]) {
        0
    } else {
        1 + word_len(s.drop_first())
    }
}

/// The whitespace-separated words of `s` (`str::split_whitespace`).
pub open spec fn words(s: Seq<char>) -> Seq<Seq<char>>
    decreases s.len(),
{
    if s.len() == 0 {
        Seq::empty()
    } else if is_ws(s[0]) {
        words(s.drop_first())
    } else {
        let k = word_len(s);
        proof {
            lemma_word_len_bounds(s);
        }
        seq![s.take(k as int)] + words(s.skip(k as int))
    }
}

/// `items` joined with `sep` between consecutive items.
pub open spec fn join(items: Seq<Seq<char>>, sep: Seq<char>) -> Seq<char>
    decreases items.len(),
{
    if items.len() == 0 {
        Seq::empty()
    } else if items.len() == 1 {
        items[0]
    } else {
        join(items.drop_last(), sep) + sep + items.last()
    }
}

/// The decimal digit for `d < 10`.
pub open spec fn digit(d: nat) -> char {
    ((48 + d) as u8) as char
}

/// The decimal notation of `n`, as `u64`'s `Display` writes it.
pub open spec fn decimal(n: nat) -> Seq<char>
    decreases n,
{
    if n < 10 {
        seq![digit(n)]
    } else {
        decimal(n / 10).push(digit(n % 10))
    }
}

// ---------------------------------------------------------------------------
// Lemmas
// ---------------------------------------------------------------------------

pub proof fn lemma_index_of_bounds(s: Seq<char>, c: char)
    ensures
        match index_of(s, c) {
            Some(i) => 0 <= i < s.len() && s[i] == c && forall|j: int| 0 <= j < i ==> s[j] != c,
            None => forall|j: int| 0 <= j < s.len() ==> s[j] != c,
        },
    decreases s.len(),
{
    if s.len() > 0 && s[0] != c {
        lemma_index_of_bounds(s.drop_first(), c);
        match index_of(s.drop_first(), c) {
            Some(i) => {
                assert forall|j: int| 0 <= j < i + 1 implies s[j] != c by {
                    if j > 0 {
                        assert(s[j] == s.drop_first()[j - 1]);
                    }
                }
            },
            None => {
                assert forall|j: int| 0 <= j < s.len() implies s[j] != c by {
                    if j > 0 {
                        assert(s[j] == s.drop_first()[j - 1]);
                    }
                }
            },
        }
    }
}

/// `index_of` is pinned down by the position of the first occurrence.
pub proof fn lemma_index_of_at(s: Seq<char>, c: char, k: int)
    requires
        0 <= k <= s.len(),
        forall|j: int| 0 <= j < k ==> s[j] != c,
        k < s.len() ==> s[k] == c,
    ensures
        index_of(s, c) == (if k < s.len() { Some(k) } else { None::<int> }),
{
    lemma_index_of_bounds(s, c);
}

pub proof fn lemma_word_len_bounds(s: Seq<char>)
    ensures
        word_len(s) <= s.len(),
        forall|j: int| 0 <= j < word_len(s) ==> !is_ws(s[j]),
        word_len(s) < s.len() ==> is_ws(s[word_len(s) as int]),
    decreases s.len(),
{
    if s.len() > 0 && !is_ws(s[0]) {
        lemma_word_len_bounds(s.drop_first());
        assert forall|j: int| 0 <= j < word_len(s) implies !is_ws(s[j]) by {
            if j > 0 {
                assert(s[j] == s.drop_first()[j - 1]);
            }
        }
    }
}

/// `word_len` is pinned down by the position of the first whitespace.
pub proof fn lemma_word_len_at(s: Seq<char>, k: int)
    requires
        0 <= k <= s.len(),
        forall|j: int| 0 <= j < k ==> !is_ws(s[j]),
        k < s.len() ==> is_ws(s[k]),
    ensures
        word_len(s) == k,
    decreases s.len(),
{
    if k > 0 {
        assert forall|j: int| 0 <= j < k - 1 implies !is_ws(s.drop_first()[j]) by {
            assert(s.drop_first()[j] == s[j + 1]);
        }
        lemma_word_len_at(s.drop_first(), k - 1);
    }
}

pub proof fn lemma_trim_start_skip(s: Seq<char>, i: int)
    requires
        0 <= i < s.len(),
        is_ws(s[i]),
    ensures
        trim_start(s.skip(i)) == trim_start(s.skip(i + 1)),
{
    assert(s.skip(i).drop_first() =~= s.skip(i + 1));
}

pub proof fn lemma_trim_end_take(s: Seq<char>, j: int)
    requires
        0 < j <= s.len(),
        is_ws(s[j - 1]),
    ensures
        trim_end(s.take(j)) == trim_end(s.take(j - 1)),
{
    assert(s.take(j).drop_last() =~= s.take(j - 1));
}

/// The lines of `p + y`, when `p` is empty or ends a line, are those of `p`
/// followed by those of `y`.
pub proof fn lemma_lines_append(p: Seq<char>, y: Seq<char>)
    requires
        p.len() == 0 || p.last() == '\n',
    ensures
        lines(p + y) == lines(p) + lines(y),
    decreases p.len(),
{
    if p.len() == 0 {
        assert(p + y =~= y);
        assert(lines(p) + lines(y) =~= lines(y));
    } else {
        lemma_index_of_bounds(p, '\n');
        let i = index_of(p, '\n')->0;
        assert(index_of(p, '\n') is Some);
        let s = p + y;
        assert forall|j: int| 0 <= j < i implies s[j] != '\n' by {
            assert(s[j] == p[j]);
        }
        lemma_index_of_at(s, '\n', i);
        let q = p.skip(i + 1);
        assert(s.skip(i + 1) =~= q + y);
        assert(s.take(i) =~= p.take(i));
        if q.len() > 0 {
            assert(q.last() == p.last());
        }
        lemma_lines_append(q, y);
        assert(lines(s) =~= seq![strip_cr(p.take(i))] + lines(q + y));
        assert(lines(p) =~= seq![strip_cr(p.take(i))] + lines(q));
        assert(lines(s) =~= lines(p) + lines(y));
    }
}

/// A line without a newline, followed by one, is a single line.
pub proof fn lemma_lines_single(l: Seq<char>)
    requires
        forall|j: int| 0 <= j < l.len() ==> l[j] != '\n',
    ensures
        lines(l + "\n"@) == seq![strip_cr(l)],
{
    reveal_strlit("\n");
    let s = l + "\n"@;
    assert forall|j: int| 0 <= j < l.len() implies s[j] != '\n' by {
        assert(s[j] == l[j]);
    }
    lemma_index_of_at(s, '\n', l.len() as int);
    assert(s.take(l.len() as int) =~= l);
    assert(s.skip(l.len() as int + 1) =~= Seq::<char>::empty());
    assert(lines(Seq::<char>::empty()) =~= Seq::<Seq<char>>::empty());
    assert(lines(s) =~= seq![strip_cr(l)]);
}

/// A text that stays on one line: no line feed and no carriage return.
pub open spec fn plain_line(s: Seq<char>) -> bool {
    forall|i: int| 0 <= i < s.len() ==> s[i] != '\n' && s[i] != '\r'
}

/// Two one-line texts side by side stay on one line.
pub proof fn lemma_plain_concat(a: Seq<char>, b: Seq<char>)
    requires
        plain_line(a),
        plain_line(b),
    ensures
        plain_line(a + b),
{
    assert forall|i: int| 0 <= i < (a + b).len() implies (a + b)[i] != '\n' && (a + b)[i] != '\r' by {
        if i < a.len() {
            assert((a + b)[i] == a[i]);
        } else {
            assert((a + b)[i] == b[i - a.len()]);
        }
    }
}

/// A one-line text followed by a line feed is the first line of what
/// follows.
pub proof fn lemma_lines_cons(l: Seq<char>, rest: Seq<char>)
    requires
        plain_line(l),
    ensures
        lines(l + "\n"@ + rest) == seq![l] + lines(rest),
{
    reveal_strlit("\n");
    let head = l + "\n"@;
    assert(head.last() == '\n');
    lemma_lines_append(head, rest);
    lemma_lines_single(l);
    assert(strip_cr(l) == l);
}

/// Decimal notation has no line breaks.
pub proof fn lemma_decimal_plain(n: nat)
    ensures
        plain_line(decimal(n)),
    decreases n,
{
    if n >= 10 {
        lemma_decimal_plain(n / 10);
        let d = decimal(n / 10);
        let e = d.push(digit(n % 10));
        assert(digit(n % 10) != '\n' && digit(n % 10) != '\r');
        assert forall|i: int| 0 <= i < e.len() implies #[trigger] e[i] != '\n' && e[i] != '\r' by {
            if i < d.len() {
                assert(e[i] == d[i]);
            }
        }
    } else {
        assert(digit(n) != '\n' && digit(n) != '\r');
    }
}

// ---------------------------------------------------------------------------
// Executable functions
// ---------------------------------------------------------------------------

/// `char::is_whitespace`.
pub fn is_whitespace(c: char) -> (b: bool)
    ensures
        b == is_ws(c),
{
    ('\u{9}' <= c && c <= '\u{d}') || c == ' ' || c == '\u{85}' || c == '\u{a0}' || c == '\u{1680}'
        || ('\u{2000}' <= c && c <= '\u{200a}') || c == '\u{2028}' || c == '\u{2029}' || c
        == '\u{202f}' || c == '\u{205f}' || c == '\u{3000}'
}

/// The characters of `s`, in order.
pub fn chars_of(s: &str) -> (v: Vec<char>)
    ensures
        v@ == s@,
{
    let mut v: Vec<char> = Vec::new();
    for c in it: s.chars()
        invariant
            it.seq() == s@,
            v@ == s@.take(it.index() as int),
    {
        v.push(c);
        assert(v@ =~= s@.take(it.index() as int + 1));
    }
    assert(v@ =~= s@);
    v
}

/// `String::push`.
#[verifier::external_body]
pub(crate) fn push_char(s: &mut String, c: char)
    ensures
        final(s)@ == old(s)@.push(c),
{
    s.push(c);
}

/// A new string holding `cs[from..to]`.
pub fn string_from(cs: &Vec<char>, from: usize, to: usize) -> (r: String)
    requires
        from <= to <= cs@.len(),
    ensures
        r@ == cs@.subrange(from as int, to as int),
{
    let mut r = String::new();
    let mut i = from;
    while i < to
        invariant
            from <= i <= to <= cs@.len(),
            r@ == cs@.subrange(from as int, i as int),
        decreases to - i,
    {
        push_char(&mut r, cs[i]);
        assert(r@ =~= cs@.subrange(from as int, i + 1));
        i = i + 1;
    }
    r
}

/// Whether two strings hold the same characters.
pub fn str_eq(a: &str, b: &str) -> (r: bool)
    ensures
        r == (a@ == b@),
{
    let x = String::from_str(a);
    let y = String::from_str(b);
    x.eq(&y)
}

/// Index of the first `c` in `cs[from..]`, as an absolute index.
pub fn find_char(cs: &Vec<char>, from: usize, c: char) -> (r: Option<usize>)
    requires
        from <= cs@.len(),
    ensures
        match index_of(cs@.skip(from as int), c) {
            Some(i) => r == Some((from + i) as usize),
            None => r is None,
        },
{
    let mut k = from;
    while k < cs.len()
        invariant
            from <= k <= cs@.len(),
            forall|j: int| from <= j < k ==> cs@[j] != c,
        decreases cs@.len() - k,
    {
        if cs[k] == c {
            proof {
                lemma_index_of_at(cs@.skip(from as int), c, k - from);
            }
            return Some(k);
        }
        k = k + 1;
    }
    proof {
        lemma_index_of_at(cs@.skip(from as int), c, k - from);
    }
    None
}

/// `str::trim`.
pub fn trim(s: &str) -> (r: String)
    ensures
        r@ == trimmed(s@),
{
    let cs = chars_of(s);
    let n = cs.len();
    let mut i: usize = 0;
    assert(cs@.skip(0) =~= cs@);
    while i < n && is_whitespace(cs[i])
        invariant
            i <= n == cs@.len(),
            trim_start(cs@) == trim_start(cs@.skip(i as int)),
        decreases n - i,
    {
        proof {
            lemma_trim_start_skip(cs@, i as int);
        }
        i = i + 1;
    }
    let ghost rest = cs@.skip(i as int);
    assert(trim_start(rest) == rest);
    let mut j: usize = n;
    assert(rest.take(rest.len() as int) =~= rest);
    while j > i && is_whitespace(cs[j - 1])
        invariant
            i <= j <= n == cs@.len(),
            rest == cs@.skip(i as int),
            trim_end(rest) == trim_end(rest.take(j - i)),
        decreases j,
    {
        proof {
            lemma_trim_end_take(rest, (j - i) as int);
            assert(rest.take(j - i - 1) =~= rest.take((j - 1 - i) as int));
        }
        j = j - 1;
    }
    assert(trim_end(rest.take(j - i)) == rest.take(j - i));
    assert(rest.take(j - i) =~= cs@.subrange(i as int, j as int));
    string_from(&cs, i, j)
}

/// The lines of `s` (`str::lines`).
pub fn lines_of(s: &str) -> (v: Vec<String>)
    ensures
        v.deep_view() == lines(s@),
{
    let cs = chars_of(s);
    let n = cs.len();
    let mut v: Vec<String> = Vec::new();
    let mut pos: usize = 0;
    assert(cs@.skip(0) =~= cs@);
    while pos < n
        invariant
            pos <= n == cs@.len(),
            lines(cs@) == v.deep_view() + lines(cs@.skip(pos as int)),
        decreases n - pos,
    {
        let ghost rest = cs@.skip(pos as int);
        proof {
            lemma_index_of_bounds(rest, '\n');
        }
        match find_char(&cs, pos, '\n') {
            None => {
                let line = string_from(&cs, pos, n);
                assert(line@ =~= rest);
                assert(lines(rest) == seq![rest]);
                v.push(line);
                assert(cs@.skip(n as int) =~= Seq::<char>::empty());
                assert(v.deep_view() =~= v.deep_view().drop_last().push(line@));
                pos = n;
            },
            Some(k) => {
                let mut end = k;
                if end > pos && cs[end - 1] == '\r' {
                    end = end - 1;
                }
                let line = string_from(&cs, pos, end);
                assert(rest.take(k - pos) =~= cs@.subrange(pos as int, k as int));
                assert(line@ =~= strip_cr(rest.take(k - pos)));
                assert(rest.skip(k - pos + 1) =~= cs@.skip(k + 1));
                v.push(line);
                assert(v.deep_view() =~= v.deep_view().drop_last().push(line@));
                pos = k + 1;
            },
        }
    }
    assert(cs@.skip(n as int) =~= Seq::<char>::empty());
    assert(v.deep_view() + Seq::<Seq<char>>::empty() =~= v.deep_view());
    v
}

/// The whitespace-separated words of `s` (`str::split_whitespace`).
pub fn words_of(s: &str) -> (v: Vec<String>)
    ensures
        v.deep_view() == words(s@),
{
    let cs = chars_of(s);
    let n = cs.len();
    let mut v: Vec<String> = Vec::new();
    let mut pos: usize = 0;
    assert(cs@.skip(0) =~= cs@);
    while pos < n
        invariant
            pos <= n == cs@.len(),
            words(cs@) == v.deep_view() + words(cs@.skip(pos as int)),
        decreases n - pos,
    {
        let ghost rest = cs@.skip(pos as int);
        if is_whitespace(cs[pos]) {
            assert(rest.drop_first() =~= cs@.skip(pos + 1));
            pos = pos + 1;
        } else {
            let mut end = pos + 1;
            while end < n && !is_whitespace(cs[end])
                invariant
                    pos < end <= n == cs@.len(),
                    forall|j: int| pos <= j < end ==> !is_ws(cs@[j]),
                decreases n - end,
            {
                end = end + 1;
            }
            proof {
                lemma_word_len_at(rest, end - pos);
            }
            let w = string_from(&cs, pos, end);
            assert(rest.take(end - pos) =~= w@);
            assert(rest.skip(end - pos) =~= cs@.skip(end as int));
            v.push(w);
            assert(v.deep_view() =~= v.deep_view().drop_last().push(w@));
            pos = end;
        }
    }
    assert(cs@.skip(n as int) =~= Seq::<char>::empty());
    assert(v.deep_view() + Seq::<Seq<char>>::empty() =~= v.deep_view());
    v
}

/// `s.splitn(2, c)`: the part before the first `c` and, where there is a `c`,
/// the part after it.
pub fn split_once_char(s: &str, c: char) -> (r: (String, Option<String>))
    ensures
        r.0@ == before(s@, c),
        match index_of(s@, c) {
            Some(i) => r.1 is Some && r.1->0@ == after(s@, c),
            None => r.1 is None,
        },
{
    let cs = chars_of(s);
    assert(cs@.skip(0) =~= cs@);
    proof {
        lemma_index_of_bounds(cs@, c);
    }
    match find_char(&cs, 0, c) {
        Some(k) => {
            assert(k < cs@.len());
            let a = string_from(&cs, 0, k);
            let b = string_from(&cs, k + 1, cs.len());
            assert(a@ =~= cs@.take(k as int));
            assert(b@ =~= cs@.skip(k + 1));
            (a, Some(b))
        },
        None => {
            let a = string_from(&cs, 0, cs.len());
            assert(a@ =~= cs@);
            (a, None)
        },
    }
}

/// `s.strip_prefix(p)`.
pub fn strip_prefix(s: &str, p: &str) -> (r: Option<String>)
    ensures
        starts_with(s@, p@) ==> r is Some && r->0@ == s@.skip(p@.len() as int),
        !starts_with(s@, p@) ==> r is None,
{
    let cs = chars_of(s);
    let ps = chars_of(p);
    if ps.len() > cs.len() {
        return None;
    }
    let mut i: usize = 0;
    while i < ps.len()
        invariant
            i <= ps@.len() <= cs@.len(),
            cs@ == s@,
            ps@ == p@,
            forall|j: int| 0 <= j < i ==> cs@[j] == ps@[j],
        decreases ps@.len() - i,
    {
        if cs[i] != ps[i] {
            assert(s@.take(p@.len() as int)[i as int] != p@[i as int]);
            return None;
        }
        i = i + 1;
    }
    assert(s@.take(p@.len() as int) =~= p@);
    let r = string_from(&cs, ps.len(), cs.len());
    assert(r@ =~= s@.skip(p@.len() as int));
    Some(r)
}

/// Whether `s` ends with `p`, over character vectors.
fn ends_with_chars(s: &Vec<char>, len: usize, p: &Vec<char>) -> (b: bool)
    requires
        len <= s@.len(),
    ensures
        b == ends_with(s@.take(len as int), p@),
{
    if p.len() > len {
        return false;
    }
    let start = len - p.len();
    let mut i: usize = 0;
    while i < p.len()
        invariant
            start + p@.len() == len <= s@.len(),
            i <= p@.len(),
            forall|j: int| 0 <= j < i ==> s@[start + j] == p@[j],
        decreases p@.len() - i,
    {
        if s[start + i] != p[i] {
            assert(s@.take(len as int).skip(start as int)[i as int] != p@[i as int]);
            return false;
        }
        i = i + 1;
    }
    assert(s@.take(len as int).skip(start as int) =~= p@);
    true
}

/// `s.trim_end_matches(c)` for a character `c`.
pub fn trim_end_char_of(s: &str, c: char) -> (r: String)
    ensures
        r@ == trim_end_char(s@, c),
{
    let cs = chars_of(s);
    let mut len = cs.len();
    assert(cs@.take(len as int) =~= cs@);
    while len > 0 && cs[len - 1] == c
        invariant
            len <= cs@.len(),
            trim_end_char(cs@, c) == trim_end_char(cs@.take(len as int), c),
        decreases len,
    {
        assert(cs@.take(len as int).drop_last() =~= cs@.take(len - 1));
        len = len - 1;
    }
    string_from(&cs, 0, len)
}

/// `s.trim_end_matches(p)` for a string pattern `p`.
pub fn trim_end_str_of(s: &str, p: &str) -> (r: String)
    ensures
        r@ == trim_end_str(s@, p@),
{
    let cs = chars_of(s);
    let ps = chars_of(p);
    let mut len = cs.len();
    assert(cs@.take(len as int) =~= cs@);
    while ps.len() > 0 && ends_with_chars(&cs, len, &ps)
        invariant
            len <= cs@.len(),
            trim_end_str(cs@, p@) == trim_end_str(cs@.take(len as int), p@),
            ps@ == p@,
        decreases len,
    {
        assert(cs@.take(len as int).take(len - ps@.len()) =~= cs@.take(len - ps@.len()));
        len = len - ps.len();
    }
    let r = string_from(&cs, 0, len);
    assert(r@ =~= cs@.take(len as int));
    r
}

/// `items.join(sep)`.
pub fn join_with(items: &Vec<String>, sep: &str) -> (r: String)
    ensures
        r@ == join(items.deep_view(), sep@),
{
    let mut r = String::new();
    let mut i: usize = 0;
    while i < items.len()
        invariant
            i <= items@.len(),
            r@ == join(items.deep_view().take(i as int), sep@),
        decreases items@.len() - i,
    {
        let ghost prev = items.deep_view().take(i as int);
        if i > 0 {
            r.append(sep);
        }
        r.append(items[i].as_str());
        assert(items.deep_view().take(i + 1).drop_last() =~= prev);
        assert(items.deep_view()[i as int] == items@[i as int]@);
        i = i + 1;
    }
    assert(items.deep_view().take(i as int) =~= items.deep_view());
    r
}

/// The decimal digit character for `d < 10`.
pub fn digit_char(d: u64) -> (c: char)
    requires
        d < 10,
    ensures
        c == digit(d as nat),
{
    ((48 + d) as u8) as char
}

/// Appends the decimal notation of `n` to `s`.
pub fn push_decimal(s: &mut String, n: u64)
    ensures
        final(s)@ == old(s)@ + decimal(n as nat),
    decreases n,
{
    if n >= 10 {
        push_decimal(s, n / 10);
    }
    push_char(s, digit_char(n % 10));
    assert(final(s)@ =~= old(s)@ + decimal(n as nat));
}

/// The decimal notation of `n` (`n.to_string()`).
pub fn decimal_string(n: u64) -> (r: String)
    ensures
        r@ == decimal(n as nat),
{
    let mut r = String::new();
    push_decimal(&mut r, n);
    assert(r@ =~= decimal(n as nat));
    r
}

} // verus!
