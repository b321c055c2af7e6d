//! Character-level string helpers shared by the library.

use vstd::prelude::*;

verus! {

/// Unicode `White_Space` code points, the set that `char::is_whitespace`
/// (and therefore `str::split_whitespace` and `str::trim`) uses.
pub open spec fn is_ws(c: char) -> bool {
    let u = c as u32;
    ||| (0x09 <= u && u <= 0x0D)
    ||| u == 0x20
    ||| u == 0x85
    ||| u == 0xA0
    ||| u == 0x1680
    ||| (0x2000 <= u && u <= 0x200A)
    ||| u == 0x2028
    ||| u == 0x2029
    ||| u == 0x202F
    ||| u == 0x205F
    ||| u == 0x3000
}

/// Executable test for [`is_ws`].
pub fn is_whitespace(c: char) -> (res: bool)
    ensures
        res == is_ws(c),
{
    let u = c as u32;
    (0x09 <= u && u <= 0x0D) || u == 0x20 || u == 0x85 || u == 0xA0 || u == 0x1680 || (0x2000
        <= u && u <= 0x200A) || u == 0x2028 || u == 0x2029 || u == 0x202F || u == 0x205F || u
        == 0x3000
}

/// Appends one character to a string (`String::push`).
#[verifier::external_body]
pub(crate) fn push_char(s: &mut String, c: char)
    ensures
        final(s)@ == old(s)@.push(c),
{
    s.push(c);
}

/// The characters of `s`, in order.
pub fn chars_of(s: &str) -> (res: Vec<char>)
    ensures
        res@ == s@,
{
    let mut out: Vec<char> = Vec::new();
    for c in it: s.chars()
        invariant
            it.seq() == s@,
            out@ == it.seq().take(it.index() as int),
    {
        out.push(c);
    }
    out
}

/// The string made of the characters of `v` from index `lo` up to (not including) `hi`.
pub fn string_from_range(v: &Vec<char>, lo: usize, hi: usize) -> (res: String)
    requires
        lo <= hi <= v.len(),
    ensures
        res@ == v@.subrange(lo as int, hi as int),
{
    let mut out = String::new();
    for i in lo..hi
        invariant
            lo <= hi <= v.len(),
            out@ == v@.subrange(lo as int, i as int),
    {
        push_char(&mut out, v[i]);
        assert(v@.subrange(lo as int, i + 1) == v@.subrange(lo as int, i as int).push(
            v@[i as int],
        ));
    }
    out
}

/// The string made of the first `n` characters of `v`.
pub fn string_from_prefix(v: &Vec<char>, n: usize) -> (res: String)
    requires
        n <= v.len(),
    ensures
        res@ == v@.take(n as int),
{
    string_from_range(v, 0, n)
}

/// `s` without its leading whitespace.
pub open spec fn trim_start(s: Seq<char>) -> Seq<char>
    decreases s.len(),
{
    if s.len() > 0 && is_ws(s[0]) {
        trim_start(s.drop_first())
    } else {
        s
    }
}

/// `s` without its trailing whitespace.
pub open spec fn trim_end(s: Seq<char>) -> Seq<char>
    decreases s.len(),
{
    if s.len() > 0 && is_ws(s.last()) {
        trim_end(s.drop_last())
    } else {
        s
    }
}

/// `s` without leading and trailing whitespace (`str::trim`).
pub open spec fn trim(s: Seq<char>) -> Seq<char> {
    trim_end(trim_start(s))
}

/// `trim_start(s)` drops exactly the leading whitespace of `s`: it is a
/// suffix `s[i..]` with only whitespace before `i` and a non-whitespace
/// character at `i` when anything is left.
pub proof fn lemma_trim_start(s: Seq<char>) -> (i: int)
    ensures
        0 <= i <= s.len(),
        trim_start(s) == s.subrange(i, s.len() as int),
        forall|k: int| 0 <= k < i ==> is_ws(#[trigger] s[k]),
        i < s.len() ==> !is_ws(s[i]),
    decreases s.len(),
{
    if s.len() > 0 && is_ws(s[0]) {
        let j = lemma_trim_start(s.drop_first());
        assert(s.drop_first().subrange(j, s.drop_first().len() as int) == s.subrange(
            j + 1,
            s.len() as int,
        ));
        assert forall|k: int| 0 <= k < j + 1 implies is_ws(#[trigger] s[k]) by {
            if k > 0 {
                assert(s[k] == s.drop_first()[k - 1]);
            }
        }
        assert(j + 1 < s.len() ==> s[j + 1] == s.drop_first()[j]);
        j + 1
    } else {
        assert(s.subrange(0, s.len() as int) == s);
        0
    }
}

/// `trim_end(s)` drops exactly the trailing whitespace of `s`.
pub proof fn lemma_trim_end(s: Seq<char>) -> (j: int)
    ensures
        0 <= j <= s.len(),
        trim_end(s) == s.subrange(0, j),
        forall|k: int| j <= k < s.len() ==> is_ws(#[trigger] s[k]),
        j > 0 ==> !is_ws(s[j - 1]),
    decreases s.len(),
{
    if s.len() > 0 && is_ws(s.last()) {
        let j = lemma_trim_end(s.drop_last());
        assert(s.drop_last().subrange(0, j) == s.subrange(0, j));
        assert forall|k: int| j <= k < s.len() implies is_ws(#[trigger] s[k]) by {
            if k < s.len() - 1 {
                assert(s[k] == s.drop_last()[k]);
            }
        }
        assert(j > 0 ==> s[j - 1] == s.drop_last()[j - 1]);
        j
    } else {
        assert(s.subrange(0, s.len() as int) == s);
        s.len() as int
    }
}

/// Trimming keeps a contiguous middle part `s[i..j]` of the text, unchanged:
/// everything before `i` and from `j` on is whitespace, and what is kept
/// starts and ends with a non-whitespace character.
pub proof fn law_trim_keeps_middle(s: Seq<char>)
    ensures
        exists|i: int, j: int|
            0 <= i <= j <= s.len() && trim(s) == s.subrange(i, j) && (forall|k: int|
                0 <= k < i ==> is_ws(#[trigger] s[k])) && (forall|k: int|
                j <= k < s.len() ==> is_ws(#[trigger] s[k])) && (i < j ==> !is_ws(s[i])
                && !is_ws(s[j - 1])),
{
    let i = lemma_trim_start(s);
    let t = trim_start(s);
    let j = lemma_trim_end(t);
    assert(trim(s) == s.subrange(i, i + j));
    assert forall|k: int| i + j <= k < s.len() implies is_ws(#[trigger] s[k]) by {
        assert(s[k] == t[k - i]);
    }
    if i < i + j {
        assert(s[i] == t[0]);
        assert(s[i + j - 1] == t[j - 1]);
        if j == t.len() {
        } else {
            assert(j > 0);
        }
        assert(i < s.len());
    }
    assert(0 <= i <= i + j <= s.len());
}

/// Removes leading and trailing whitespace, as `str::trim` does.
pub fn trim_string(s: &str) -> (res: String)
    ensures
        res@ == trim(s@),
{
    let v = chars_of(s);
    let n = v.len();
    let mut lo: usize = 0;
    assert(v@.subrange(0, n as int) == v@);
    while lo < n && is_whitespace(v[lo])
        invariant
            n == v.len(),
            lo <= n,
            trim_start(v@) == trim_start(v@.subrange(lo as int, n as int)),
        decreases n - lo,
    {
        assert(v@.subrange(lo as int, n as int).drop_first() == v@.subrange(lo + 1, n as int));
        lo = lo + 1;
    }
    let mut hi: usize = n;
    while hi > lo && is_whitespace(v[hi - 1])
        invariant
            n == v.len(),
            lo <= hi <= n,
            trim(v@) == trim_end(v@.subrange(lo as int, hi as int)),
        decreases hi - lo,
    {
        assert(v@.subrange(lo as int, hi as int).drop_last() == v@.subrange(lo as int, hi - 1));
        hi = hi - 1;
    }
    string_from_range(&v, lo, hi)
}

/// Whether two strings hold the same characters.
pub fn same_text(a: &str, b: &str) -> (res: bool)
    ensures
        res == (a@ == b@),
{
    let x = chars_of(a);
    let y = chars_of(b);
    if x.len() != y.len() {
        return false;
    }
    let n = x.len();
    for i in 0..n
        invariant
            n == x.len() == y.len(),
            x@ == a@,
            y@ == b@,
            forall|j: int| 0 <= j < i ==> x@[j] == y@[j],
    {
        if x[i] != y[i] {
            return false;
        }
    }
    assert(x@ == y@);
    true
}

/// ASCII lower-casing of one character; other characters are unchanged.
pub open spec fn ascii_lower(c: char) -> char {
    if 'A' <= c && c <= 'Z' {
        ((c as u32) + 32) as char
    } else {
        c
    }
}

/// Equality up to ASCII case (`str::eq_ignore_ascii_case`).
pub open spec fn eq_ignore_ascii_case(a: Seq<char>, b: Seq<char>) -> bool {
    a.len() == b.len() && forall|i: int| 0 <= i < a.len() ==> ascii_lower(#[trigger] a[i])
        == ascii_lower(b[i])
}

fn lower_char(c: char) -> (res: char)
    ensures
        res == ascii_lower(c),
{
    if 'A' <= c && c <= 'Z' {
        ((c as u32 + 32) as u8) as char
    } else {
        c
    }
}

/// Compares two strings ignoring ASCII case.
pub fn same_text_ignore_ascii_case(a: &str, b: &str) -> (res: bool)
    ensures
        res == eq_ignore_ascii_case(a@, b@),
{
    let x = chars_of(a);
    let y = chars_of(b);
    if x.len() != y.len() {
        return false;
    }
    let n = x.len();
    for i in 0..n
        invariant
            n == x.len() == y.len(),
            x@ == a@,
            y@ == b@,
            forall|j: int| 0 <= j < i ==> ascii_lower(#[trigger] x@[j]) == ascii_lower(y@[j]),
    {
        if lower_char(x[i]) != lower_char(y[i]) {
            return false;
        }
    }
    true
}

/// The string made of all characters of `v`.
pub fn string_from_chars(v: &Vec<char>) -> (res: String)
    ensures
        res@ == v@,
{
    assert(v@.take(v.len() as int) == v@);
    string_from_prefix(v, v.len())
}

/// `list[0] + sep + list[1] + sep + ... + list[n-1]`, the empty sequence for an empty list.
pub open spec fn join(list: Seq<Seq<char>>, sep: Seq<char>) -> Seq<char>
    decreases list.len(),
{
    if list.len() == 0 {
        seq![]
    } else if list.len() == 1 {
        list[0]
    } else {
        join(list.drop_last(), sep) + sep + list.last()
    }
}

/// The maximal runs of non-whitespace characters of `s`, in order
/// (what `str::split_whitespace` yields).
pub open spec fn words(s: Seq<char>) -> Seq<Seq<char>>
    decreases s.len(),
{
    if s.len() == 0 {
        seq![]
    } else {
        let w = words(s.drop_last());
        let c = s.last();
        if is_ws(c) {
            w
        } else if s.len() > 1 && !is_ws(s[s.len() - 2]) {
            w.update(w.len() - 1, w.last().push(c))
        } else {
            w.push(seq![c])
        }
    }
}

/// The words of `s` joined by single spaces.
pub open spec fn collapse_ws(s: Seq<char>) -> Seq<char> {
    join(words(s), seq![' '])
}

/// Appending a character to the last element appends it to the joined sequence.
pub proof fn lemma_join_extend_last(list: Seq<Seq<char>>, sep: Seq<char>, c: char)
    requires
        list.len() > 0,
    ensures
        join(list.update(list.len() - 1, list.last().push(c)), sep) == join(list, sep).push(c),
{
    let l2 = list.update(list.len() - 1, list.last().push(c));
    if list.len() > 1 {
        assert(l2.drop_last() == list.drop_last());
    }
}

/// A non-empty input ending in a non-whitespace character has at least one word.
pub proof fn lemma_words_nonempty(s: Seq<char>)
    requires
        s.len() > 0,
        !is_ws(s.last()),
    ensures
        words(s).len() > 0,
    decreases s.len(),
{
    if s.len() > 1 && !is_ws(s[s.len() - 2]) {
        lemma_words_nonempty(s.drop_last());
    }
}

/// Every whitespace character of `s` is a space that follows a non-whitespace
/// character (so `s` has no leading whitespace and no two whitespace characters in a row).
pub open spec fn spaces_single(s: Seq<char>) -> bool {
    forall|i: int|
        0 <= i < s.len() && is_ws(#[trigger] s[i]) ==> s[i] == ' ' && i > 0 && !is_ws(s[i - 1])
}

/// `s` is in collapsed form: single spaces between non-whitespace runs,
/// no whitespace at either end.
pub open spec fn is_collapsed(s: Seq<char>) -> bool {
    &&& spaces_single(s)
    &&& s.len() > 0 ==> !is_ws(s.last())
}

/// Every word is non-empty.
pub proof fn lemma_words_elements_nonempty(s: Seq<char>)
    ensures
        forall|k: int| 0 <= k < words(s).len() ==> #[trigger] words(s)[k].len() > 0,
    decreases s.len(),
{
    if s.len() > 0 {
        lemma_words_elements_nonempty(s.drop_last());
        if !is_ws(s.last()) && s.len() > 1 && !is_ws(s[s.len() - 2]) {
            lemma_words_nonempty(s.drop_last());
        }
    }
}

/// Joining a list of non-empty pieces is empty exactly when the list is.
pub proof fn lemma_join_empty(list: Seq<Seq<char>>, sep: Seq<char>)
    requires
        forall|k: int| 0 <= k < list.len() ==> #[trigger] list[k].len() > 0,
    ensures
        (join(list, sep).len() == 0) == (list.len() == 0),
{
    if list.len() > 1 {
        assert(list[list.len() - 1].len() > 0);
    } else if list.len() == 1 {
        assert(list[0].len() > 0);
    }
}

/// The collapsed text is empty exactly when there are no words.
pub proof fn lemma_collapse_empty(s: Seq<char>)
    ensures
        (collapse_ws(s).len() == 0) == (words(s).len() == 0),
{
    lemma_words_elements_nonempty(s);
    lemma_join_empty(words(s), seq![' ']);
}

/// `collapse_ws` always yields collapsed text.
pub proof fn lemma_collapse_is_collapsed(s: Seq<char>)
    ensures
        is_collapsed(collapse_ws(s)),
    decreases s.len(),
{
    if s.len() > 0 {
        let p = s.drop_last();
        let c = s.last();
        lemma_collapse_is_collapsed(p);
        lemma_collapse_empty(p);
        let cp = collapse_ws(p);
        if is_ws(c) {
        } else if s.len() > 1 && !is_ws(s[s.len() - 2]) {
            lemma_words_nonempty(p);
            lemma_join_extend_last(words(p), seq![' '], c);
            let r = cp.push(c);
            assert forall|i: int| 0 <= i < r.len() && is_ws(#[trigger] r[i]) implies r[i] == ' '
                && i > 0 && !is_ws(r[i - 1]) by {
                assert(r[i] == cp[i]);
            }
        } else {
            let w = words(p);
            assert(w.push(seq![c]).drop_last() == w);
            if w.len() == 0 {
                assert(collapse_ws(s) == seq![c]);
            } else {
                let r = cp + seq![' '] + seq![c];
                assert(collapse_ws(s) == r);
                assert forall|i: int| 0 <= i < r.len() && is_ws(#[trigger] r[i]) implies r[i]
                    == ' ' && i > 0 && !is_ws(r[i - 1]) by {
                    if i < cp.len() {
                        assert(r[i] == cp[i]);
                    } else if i == cp.len() {
                        assert(r[i - 1] == cp.last());
                    }
                }
            }
        }
    }
}

/// Text whose whitespace already consists of single spaces after non-whitespace
/// characters collapses to itself, less a trailing space.
pub proof fn lemma_collapse_of_single_spaced(s: Seq<char>)
    requires
        spaces_single(s),
    ensures
        collapse_ws(s) == (if s.len() > 0 && is_ws(s.last()) {
            s.drop_last()
        } else {
            s
        }),
    decreases s.len(),
{
    if s.len() > 0 {
        let p = s.drop_last();
        let c = s.last();
        assert forall|i: int| 0 <= i < p.len() && is_ws(#[trigger] p[i]) implies p[i] == ' ' && i
            > 0 && !is_ws(p[i - 1]) by {
            assert(p[i] == s[i]);
        }
        lemma_collapse_of_single_spaced(p);
        if is_ws(c) {
            assert(s[s.len() - 1] == c);
        } else if s.len() > 1 && !is_ws(s[s.len() - 2]) {
            lemma_words_nonempty(p);
            lemma_join_extend_last(words(p), seq![' '], c);
            assert(p.push(c) == s);
        } else if s.len() == 1 {
            assert(collapse_ws(s) == seq![c]);
            assert(s == seq![c]);
        } else {
            assert(is_ws(s[s.len() - 2]));
            assert(p.len() >= 2);
            let w = words(p);
            lemma_collapse_empty(p);
            assert(w.push(seq![c]).drop_last() == w);
            assert(collapse_ws(s) == collapse_ws(p) + seq![' '] + seq![c]);
            assert(s == p.drop_last() + seq![' '] + seq![c]);
        }
    }
}

/// Collapsing whitespace twice is the same as collapsing it once.
pub proof fn law_collapse_idempotent(s: Seq<char>)
    ensures
        collapse_ws(collapse_ws(s)) == collapse_ws(s),
{
    lemma_collapse_is_collapsed(s);
    lemma_collapse_of_single_spaced(collapse_ws(s));
}

/// The non-whitespace characters of `s`, in order.
pub open spec fn non_ws_chars(s: Seq<char>) -> Seq<char>
    decreases s.len(),
{
    if s.len() == 0 {
        seq![]
    } else if is_ws(s.last()) {
        non_ws_chars(s.drop_last())
    } else {
        non_ws_chars(s.drop_last()).push(s.last())
    }
}

/// Non-whitespace characters of a concatenation.
pub proof fn lemma_non_ws_chars_add(a: Seq<char>, b: Seq<char>)
    ensures
        non_ws_chars(a + b) == non_ws_chars(a) + non_ws_chars(b),
    decreases b.len(),
{
    if b.len() == 0 {
        assert(a + b == a);
    } else {
        lemma_non_ws_chars_add(a, b.drop_last());
        assert((a + b).drop_last() == a + b.drop_last());
        assert((a + b).last() == b.last());
    }
}

/// Collapsing whitespace keeps every non-whitespace character, in order,
/// and adds none: only whitespace is dropped or turned into spaces.
pub proof fn law_collapse_keeps_non_ws(s: Seq<char>)
    ensures
        non_ws_chars(collapse_ws(s)) == non_ws_chars(s),
    decreases s.len(),
{
    if s.len() > 0 {
        let p = s.drop_last();
        let c = s.last();
        law_collapse_keeps_non_ws(p);
        if is_ws(c) {
        } else if s.len() > 1 && !is_ws(s[s.len() - 2]) {
            lemma_words_nonempty(p);
            lemma_join_extend_last(words(p), seq![' '], c);
            assert(collapse_ws(p).push(c).drop_last() == collapse_ws(p));
        } else {
            let w = words(p);
            assert(w.push(seq![c]).drop_last() == w);
            if w.len() == 0 {
                lemma_collapse_empty(p);
                assert(collapse_ws(p) =~= Seq::<char>::empty());
                assert(collapse_ws(s) == seq![c]);
                lemma_collapse_empty(p);
                assert(seq![c].drop_last() == Seq::<char>::empty());
                assert(non_ws_chars(seq![c]) == seq![c]);
                assert(non_ws_chars(s) == non_ws_chars(p).push(c));
            } else {
                let cp = collapse_ws(p);
                assert(collapse_ws(s) == cp + seq![' '] + seq![c]);
                lemma_non_ws_chars_add(cp + seq![' '], seq![c]);
                lemma_non_ws_chars_add(cp, seq![' ']);
                assert(non_ws_chars(seq![' ']) == non_ws_chars(Seq::<char>::empty())) by {
                    assert(seq![' '].drop_last() == Seq::<char>::empty());
                }
                assert(non_ws_chars(seq![c]) == non_ws_chars(Seq::<char>::empty()).push(c)) by {
                    assert(seq![c].drop_last() == Seq::<char>::empty());
                }
            }
        }
    }
}

/// The words of two texts separated by whitespace are the words of each.
pub proof fn lemma_words_concat(x: Seq<char>, y: Seq<char>)
    requires
        x.len() > 0,
        is_ws(x.last()),
    ensures
        words(x + y) == words(x) + words(y),
    decreases y.len(),
{
    if y.len() == 0 {
        assert(x + y == x);
        assert(words(x) + words(y) == words(x));
    } else {
        let yp = y.drop_last();
        let c = y.last();
        lemma_words_concat(x, yp);
        let xy = x + y;
        assert(xy.drop_last() == x + yp);
        assert(xy.last() == c);
        if is_ws(c) {
        } else if yp.len() > 0 && !is_ws(yp.last()) {
            assert(xy[xy.len() - 2] == yp.last());
            lemma_words_nonempty(yp);
            let w1 = words(x);
            let w2 = words(yp);
            assert(y[y.len() - 2] == yp.last());
            assert((w1 + w2).update(
                (w1 + w2).len() - 1,
                (w1 + w2).last().push(c),
            ) == w1 + w2.update(w2.len() - 1, w2.last().push(c)));
        } else {
            if yp.len() > 0 {
                assert(xy[xy.len() - 2] == yp.last());
                assert(y[y.len() - 2] == yp.last());
            } else {
                assert(xy[xy.len() - 2] == x.last());
            }
            assert((words(x) + words(yp)).push(seq![c]) == words(x) + words(yp).push(seq![c]));
        }
    }
}

/// Joining two non-empty lists is joining each and putting the separator between.
pub proof fn lemma_join_concat(l1: Seq<Seq<char>>, l2: Seq<Seq<char>>, sep: Seq<char>)
    requires
        l1.len() > 0,
        l2.len() > 0,
    ensures
        join(l1 + l2, sep) == join(l1, sep) + sep + join(l2, sep),
    decreases l2.len(),
{
    if l2.len() == 1 {
        assert((l1 + l2).drop_last() == l1);
        assert((l1 + l2).last() == l2[0]);
    } else {
        lemma_join_concat(l1, l2.drop_last(), sep);
        assert((l1 + l2).drop_last() == l1 + l2.drop_last());
        assert((l1 + l2).last() == l2.last());
    }
}

/// Texts put side by side with whitespace between them collapse to their
/// collapsed forms joined by one space: words on the two sides are never
/// merged, split or dropped.
pub proof fn law_collapse_concat(a: Seq<char>, b: Seq<char>)
    requires
        collapse_ws(a).len() > 0,
        collapse_ws(b).len() > 0,
    ensures
        collapse_ws(a + seq![' '] + b) == collapse_ws(a) + seq![' '] + collapse_ws(b),
{
    let x = a + seq![' '];
    assert(x.drop_last() == a);
    assert(is_ws(x.last()));
    assert(words(x) == words(a));
    lemma_words_concat(x, b);
    lemma_collapse_empty(a);
    lemma_collapse_empty(b);
    lemma_join_concat(words(a), words(b), seq![' ']);
}

/// `text` with every run of whitespace turned into one space and no
/// whitespace at either end (`split_whitespace` joined by `" "`).
pub fn collapse_whitespace(text: &str) -> (res: Vec<char>)
    ensures
        res@ == collapse_ws(text@),
{
    let t = chars_of(text);
    let mut out: Vec<char> = Vec::new();
    let mut in_word = false;
    let n = t.len();
    for i in 0..n
        invariant
            n == t.len(),
            t@ == text@,
            out@ == collapse_ws(t@.take(i as int)),
            in_word == (i > 0 && !is_ws(t@[i - 1])),
            (out@.len() == 0) == (words(t@.take(i as int)).len() == 0),
    {
        let c = t[i];
        let ghost p = t@.take(i as int);
        let ghost q = t@.take(i + 1);
        assert(q.drop_last() == p);
        assert(q.last() == c);
        if is_whitespace(c) {
            in_word = false;
        } else if in_word {
            proof {
                lemma_words_nonempty(p);
                lemma_join_extend_last(words(p), seq![' '], c);
            }
            out.push(c);
            in_word = true;
        } else {
            let ghost w = words(p);
            assert(words(q) == w.push(seq![c]));
            assert(w.push(seq![c]).drop_last() == w);
            if out.len() > 0 {
                out.push(' ');
            }
            out.push(c);
            in_word = true;
        }
    }
    assert(t@.take(n as int) == t@);
    out
}

/// The ASCII digit for `d < 10`.
pub open spec fn digit_char(d: nat) -> char {
    ((48 + d) as u32) as char
}

/// Decimal representation of `n`, without leading zeros (`"0"` for zero).
pub open spec fn decimal(n: nat) -> Seq<char>
    decreases n,
{
    if n < 10 {
        seq![digit_char(n)]
    } else {
        decimal(n / 10).push(digit_char(n % 10))
    }
}

/// Appends the decimal representation of `n` to `out`.
pub fn push_decimal(out: &mut String, n: usize)
    ensures
        final(out)@ == old(out)@ + decimal(n as nat),
    decreases n,
{
    if n >= 10 {
        push_decimal(out, n / 10);
    }
    let d = (n % 10) as u8;
    let c = (48u8 + d) as char;
    assert(c == digit_char((n % 10) as nat));
    push_char(out, c);
}

/// The decimal representation of `n` (what `n.to_string()` gives).
pub fn decimal_string(n: usize) -> (res: String)
    ensures
        res@ == decimal(n as nat),
{
    let mut out = String::new();
    push_decimal(&mut out, n);
    out
}

} // verus!
