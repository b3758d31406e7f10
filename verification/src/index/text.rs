//! Character-sequence operations used by the source scanner, each with its
//! mathematical meaning over `Seq<char>`.
use vstd::prelude::*;

verus! {

/// The Unicode `White_Space` property, as `char::is_whitespace` documents it.
pub open spec fn is_ws(c: char) -> bool {
    let u = c as u32;
    (0x09 <= u && u <= 0x0D) || u == 0x20 || u == 0x85 || u == 0xA0 || u == 0x1680
        || (0x2000 <= u && u <= 0x200A) || u == 0x2028 || u == 0x2029 || u == 0x202F
        || u == 0x205F || u == 0x3000
}

/// Whether `c` is white space.
pub fn char_is_ws(c: char) -> (r: bool)
    ensures
        r == is_ws(c),
{
    let u = c as u32;
    (0x09 <= u && u <= 0x0D) || u == 0x20 || u == 0x85 || u == 0xA0 || u == 0x1680
        || (0x2000 <= u && u <= 0x200A) || u == 0x2028 || u == 0x2029 || u == 0x202F
        || u == 0x205F || u == 0x3000
}

/// Index of the first non-white-space character at or after `i`.
pub open spec fn skip_ws_from(s: Seq<char>, i: int) -> int
    decreases s.len() - i,
{
    if i < 0 || i >= s.len() {
        s.len() as int
    } else if is_ws(s[i]) {
        skip_ws_from(s, i + 1)
    } else {
        i
    }
}

/// Length of `s` once its trailing white space is removed, scanning down from `j`.
pub open spec fn end_ws_from(s: Seq<char>, j: int) -> int
    decreases j,
{
    if j <= 0 || j > s.len() {
        if j > s.len() { s.len() as int } else { 0 }
    } else if is_ws(s[j - 1]) {
        end_ws_from(s, j - 1)
    } else {
        j
    }
}

/// `s` without leading white space.
pub open spec fn trim_start(s: Seq<char>) -> Seq<char> {
    s.subrange(skip_ws_from(s, 0), s.len() as int)
}

/// `s` without trailing white space.
pub open spec fn trim_end(s: Seq<char>) -> Seq<char> {
    s.subrange(0, end_ws_from(s, s.len() as int))
}

/// `s` without leading and trailing white space (`str::trim`).
pub open spec fn trim(s: Seq<char>) -> Seq<char> {
    trim_end(trim_start(s))
}

pub proof fn lemma_skip_ws_bounds(s: Seq<char>, i: int)
    requires
        0 <= i <= s.len(),
    ensures
        i <= skip_ws_from(s, i) <= s.len(),
        forall|k: int| i <= k < skip_ws_from(s, i) ==> is_ws(#[trigger] s[k]),
        skip_ws_from(s, i) < s.len() ==> !is_ws(s[skip_ws_from(s, i)]),
    decreases s.len() - i,
{
    if i < s.len() && is_ws(s[i]) {
        lemma_skip_ws_bounds(s, i + 1);
    }
}

pub proof fn lemma_end_ws_bounds(s: Seq<char>, j: int)
    requires
        0 <= j <= s.len(),
    ensures
        0 <= end_ws_from(s, j) <= j,
        forall|k: int| end_ws_from(s, j) <= k < j ==> is_ws(#[trigger] s[k]),
        end_ws_from(s, j) > 0 ==> !is_ws(s[end_ws_from(s, j) - 1]),
    decreases j,
{
    if j > 0 && is_ws(s[j - 1]) {
        lemma_end_ws_bounds(s, j - 1);
    }
}

/// Copy of `v[lo..hi]`.
pub fn slice_chars(v: &Vec<char>, lo: usize, hi: usize) -> (r: Vec<char>)
    requires
        lo <= hi <= v.len(),
    ensures
        r@ == v@.subrange(lo as int, hi as int),
{
    let mut r: Vec<char> = Vec::new();
    let mut k = lo;
    while k < hi
        invariant
            lo <= k <= hi <= v.len(),
            r@ == v@.subrange(lo as int, k as int),
        decreases hi - k,
    {
        r.push(v[k]);
        k = k + 1;
    }
    r
}

/// `str::trim` on a character vector.
pub fn trim_chars(v: &Vec<char>) -> (r: Vec<char>)
    ensures
        r@ == trim(v@),
{
    let n = v.len();
    let mut i: usize = 0;
    while i < n && char_is_ws(v[i])
        invariant
            0 <= i <= n == v@.len(),
            skip_ws_from(v@, 0) == skip_ws_from(v@, i as int),
        decreases n - i,
    {
        i = i + 1;
    }
    let t = slice_chars(v, i, n);
    let m = t.len();
    let mut j: usize = m;
    while j > 0 && char_is_ws(t[j - 1])
        invariant
            0 <= j <= m == t@.len(),
            end_ws_from(t@, m as int) == end_ws_from(t@, j as int),
        decreases j,
    {
        j = j - 1;
    }
    slice_chars(&t, 0, j)
}

/// Whether `p` is a prefix of `s`.
pub open spec fn starts_with(s: Seq<char>, p: Seq<char>) -> bool {
    p.len() <= s.len() && s.subrange(0, p.len() as int) == p
}

/// Whether `p` is a suffix of `s`.
pub open spec fn ends_with(s: Seq<char>, p: Seq<char>) -> bool {
    p.len() <= s.len() && s.subrange(s.len() - p.len(), s.len() as int) == p
}

/// Whether `p` occurs in `s` at position `k`.
pub open spec fn occurs_at(s: Seq<char>, p: Seq<char>, k: int) -> bool {
    0 <= k && k + p.len() <= s.len() && s.subrange(k, k + p.len()) == p
}

/// Whether `p` occurs anywhere in `s` (`str::contains`).
pub open spec fn contains_seq(s: Seq<char>, p: Seq<char>) -> bool {
    exists|k: int| occurs_at(s, p, k)
}

/// `str::starts_with`.
pub fn chars_start_with(s: &Vec<char>, p: &Vec<char>) -> (r: bool)
    ensures
        r == starts_with(s@, p@),
{
    if p.len() > s.len() {
        return false;
    }
    let mut k: usize = 0;
    while k < p.len()
        invariant
            p@.len() <= s@.len(),
            0 <= k <= p@.len(),
            forall|i: int| 0 <= i < k ==> s@[i] == p@[i],
        decreases p.len() - k,
    {
        if s[k] != p[k] {
            assert(s@.subrange(0, p@.len() as int)[k as int] != p@[k as int]);
            return false;
        }
        k = k + 1;
    }
    assert(s@.subrange(0, p@.len() as int) =~= p@);
    true
}

/// Whether `p` occurs in `s` at position `k` (executable form).
pub fn chars_occur_at(s: &Vec<char>, p: &Vec<char>, k: usize) -> (r: bool)
    ensures
        r == occurs_at(s@, p@, k as int),
{
    if k > s.len() || p.len() > s.len() - k {
        return false;
    }
    let mut j: usize = 0;
    while j < p.len()
        invariant
            k + p@.len() <= s@.len(),
            s@.len() <= usize::MAX,
            0 <= j <= p@.len(),
            forall|i: int| 0 <= i < j ==> s@[k + i] == p@[i],
        decreases p.len() - j,
    {
        if s[k + j] != p[j] {
            assert(s@.subrange(k as int, k + p@.len())[j as int] != p@[j as int]);
            return false;
        }
        j = j + 1;
    }
    assert(s@.subrange(k as int, k + p@.len()) =~= p@);
    true
}

/// `str::ends_with`.
pub fn chars_end_with(s: &Vec<char>, p: &Vec<char>) -> (r: bool)
    ensures
        r == ends_with(s@, p@),
{
    if p.len() > s.len() {
        return false;
    }
    chars_occur_at(s, p, s.len() - p.len())
}

/// Position of the first occurrence of `p` in `s` at or after `k`, if any.
pub open spec fn find_from(s: Seq<char>, p: Seq<char>, k: int) -> Option<int>
    decreases s.len() + 1 - k,
{
    if k < 0 || k + p.len() > s.len() {
        None
    } else if occurs_at(s, p, k) {
        Some(k)
    } else {
        find_from(s, p, k + 1)
    }
}

pub proof fn lemma_find_from(s: Seq<char>, p: Seq<char>, k: int)
    requires
        0 <= k,
    ensures
        find_from(s, p, k) matches Some(j) ==> k <= j && occurs_at(s, p, j) && forall|i: int|
            k <= i < j ==> !occurs_at(s, p, i),
        find_from(s, p, k) is None ==> forall|i: int| k <= i ==> !occurs_at(s, p, i),
    decreases s.len() + 1 - k,
{
    if k + p.len() <= s.len() && !occurs_at(s, p, k) {
        lemma_find_from(s, p, k + 1);
    }
}

/// First occurrence of `p` in `s` at or after `k` (executable form).
pub fn chars_find_from(s: &Vec<char>, p: &Vec<char>, k: usize) -> (r: Option<usize>)
    requires
        k <= s.len(),
    ensures
        r matches Some(j) ==> find_from(s@, p@, k as int) == Some(j as int),
        r is None ==> find_from(s@, p@, k as int) is None,
{
    if p.len() > s.len() {
        assert(find_from(s@, p@, k as int) is None);
        return None;
    }
    let last = s.len() - p.len();
    let mut i = k;
    while i <= last
        invariant
            k <= i,
            last + p@.len() == s@.len(),
            s@.len() <= usize::MAX,
            find_from(s@, p@, k as int) == find_from(s@, p@, i as int),
        decreases last + 1 - i,
    {
        if chars_occur_at(s, p, i) {
            return Some(i);
        }
        if i == last {
            assert(find_from(s@, p@, i + 1) is None);
            return None;
        }
        i = i + 1;
    }
    None
}

/// `str::contains` with a string pattern.
pub fn chars_contain(s: &Vec<char>, p: &Vec<char>) -> (r: bool)
    ensures
        r == contains_seq(s@, p@),
{
    proof {
        lemma_find_from(s@, p@, 0);
    }
    match chars_find_from(s, p, 0) {
        Some(j) => {
            assert(occurs_at(s@, p@, j as int));
            true
        },
        None => false,
    }
}

/// `str::contains` with a character pattern.
pub fn chars_contain_char(s: &Vec<char>, c: char) -> (r: bool)
    ensures
        r == s@.contains(c),
{
    let mut k: usize = 0;
    while k < s.len()
        invariant
            0 <= k <= s@.len(),
            forall|i: int| 0 <= i < k ==> s@[i] != c,
        decreases s.len() - k,
    {
        if s[k] == c {
            assert(s@[k as int] == c);
            return true;
        }
        k = k + 1;
    }
    false
}

/// Number of occurrences of `c` in `s` (`str::matches(c).count()`).
pub open spec fn count_char(s: Seq<char>, c: char) -> nat
    decreases s.len(),
{
    if s.len() == 0 {
        0
    } else {
        count_char(s.drop_last(), c) + if s.last() == c { 1nat } else { 0nat }
    }
}

pub proof fn lemma_count_char_le(s: Seq<char>, c: char)
    ensures
        count_char(s, c) <= s.len(),
    decreases s.len(),
{
    if s.len() > 0 {
        lemma_count_char_le(s.drop_last(), c);
    }
}

/// Number of occurrences of `c` in `s` (executable form).
pub fn chars_count(s: &Vec<char>, c: char) -> (r: usize)
    ensures
        r == count_char(s@, c),
{
    let mut n: usize = 0;
    let mut k: usize = 0;
    while k < s.len()
        invariant
            0 <= k <= s@.len(),
            n == count_char(s@.subrange(0, k as int), c),
            n <= k,
        decreases s.len() - k,
    {
        proof {
            assert(s@.subrange(0, k + 1).drop_last() =~= s@.subrange(0, k as int));
        }
        if s[k] == c {
            n = n + 1;
        }
        k = k + 1;
    }
    assert(s@.subrange(0, s@.len() as int) =~= s@);
    n
}

/// `s` with all trailing copies of `c` removed (`str::trim_end_matches(c)`).
pub open spec fn trim_end_char(s: Seq<char>, c: char) -> Seq<char>
    decreases s.len(),
{
    if s.len() > 0 && s.last() == c {
        trim_end_char(s.drop_last(), c)
    } else {
        s
    }
}

/// `str::trim_end_matches` with a character pattern.
pub fn chars_trim_end_char(s: &Vec<char>, c: char) -> (r: Vec<char>)
    ensures
        r@ == trim_end_char(s@, c),
{
    let mut j = s.len();
    proof {
        assert(s@.subrange(0, s@.len() as int) =~= s@);
    }
    while j > 0 && s[j - 1] == c
        invariant
            0 <= j <= s@.len(),
            trim_end_char(s@, c) == trim_end_char(s@.subrange(0, j as int), c),
        decreases j,
    {
        proof {
            assert(s@.subrange(0, j as int).drop_last() =~= s@.subrange(0, j - 1));
        }
        j = j - 1;
    }
    proof {
        assert(s@.subrange(0, s@.len() as int) =~= s@);
    }
    slice_chars(s, 0, j)
}

/// Index of the first `c` at or after `i`, or `s.len()` when there is none.
pub open spec fn next_char_from(s: Seq<char>, c: char, i: int) -> int
    decreases s.len() - i,
{
    if i < 0 || i >= s.len() {
        s.len() as int
    } else if s[i] == c {
        i
    } else {
        next_char_from(s, c, i + 1)
    }
}

pub proof fn lemma_next_char_from(s: Seq<char>, c: char, i: int)
    requires
        0 <= i <= s.len(),
    ensures
        i <= next_char_from(s, c, i) <= s.len(),
        next_char_from(s, c, i) < s.len() ==> s[next_char_from(s, c, i)] == c,
        forall|k: int| i <= k < next_char_from(s, c, i) ==> s[k] != c,
    decreases s.len() - i,
{
    if i < s.len() && s[i] != c {
        lemma_next_char_from(s, c, i + 1);
    }
}

/// Index of the first `c` at or after `i`, or `s.len()` (executable form).
pub fn chars_next_char(s: &Vec<char>, c: char, i: usize) -> (r: usize)
    requires
        i <= s.len(),
    ensures
        r == next_char_from(s@, c, i as int),
{
    let mut k = i;
    while k < s.len() && s[k] != c
        invariant
            i <= k <= s@.len(),
            next_char_from(s@, c, i as int) == next_char_from(s@, c, k as int),
        decreases s.len() - k,
    {
        k = k + 1;
    }
    k
}

/// The lines of `s` from position `i` on, as `str::lines` yields them: split
/// after each `'\n'`, which is dropped together with a `'\r'` just before it.
pub open spec fn lines_from(s: Seq<char>, i: int) -> Seq<Seq<char>>
    decreases s.len() - i,
{
    if i < 0 || i >= s.len() {
        Seq::empty()
    } else {
        let j = next_char_from(s, '\n', i);
        proof {
            lemma_next_char_from(s, '\n', i);
        }
        let raw = s.subrange(i, j);
        let line = if j < s.len() && raw.len() > 0 && raw.last() == '\r' {
            raw.drop_last()
        } else {
            raw
        };
        if j >= s.len() {
            seq![line]
        } else {
            seq![line] + lines_from(s, j + 1)
        }
    }
}

/// `str::lines`.
pub open spec fn lines(s: Seq<char>) -> Seq<Seq<char>> {
    lines_from(s, 0)
}

/// The views of a vector of character vectors.
pub open spec fn views(v: Seq<Vec<char>>) -> Seq<Seq<char>> {
    v.map_values(|x: Vec<char>| x@)
}

/// `str::lines` on a character vector.
pub fn chars_lines(s: &Vec<char>) -> (r: Vec<Vec<char>>)
    ensures
        views(r@) == lines(s@),
{
    let mut r: Vec<Vec<char>> = Vec::new();
    let mut i: usize = 0;
    while i < s.len()
        invariant
            0 <= i <= s@.len(),
            lines(s@) == views(r@) + lines_from(s@, i as int),
        decreases s.len() - i,
    {
        let j = chars_next_char(s, '\n', i);
        proof {
            lemma_next_char_from(s@, '\n', i as int);
        }
        let mut line = slice_chars(s, i, j);
        if j < s.len() && line.len() > 0 && line[line.len() - 1] == '\r' {
            line.pop();
        }
        proof {
            let raw = s@.subrange(i as int, j as int);
            if j < s@.len() && raw.len() > 0 && raw.last() == '\r' {
                assert(line@ =~= raw.drop_last());
            }
            assert(views(r@.push(line)) =~= views(r@) + seq![line@]);
            if j < s@.len() {
                assert(lines_from(s@, i as int) == seq![line@] + lines_from(s@, j + 1));
            } else {
                assert(lines_from(s@, i as int) == seq![line@]);
                assert(lines_from(s@, j as int) == Seq::<Seq<char>>::empty());
            }
        }
        r.push(line);
        if j >= s.len() {
            proof {
                assert(views(r@) + lines_from(s@, s@.len() as int) =~= views(r@));
            }
            i = s.len();
        } else {
            i = j + 1;
            proof {
                assert(lines(s@) =~= views(r@) + lines_from(s@, i as int));
            }
        }
    }
    proof {
        assert(views(r@) + lines_from(s@, i as int) =~= views(r@));
    }
    r
}

/// The pieces of `s` from position `i` on, split at each `c` (`str::split(c)`).
pub open spec fn split_char_from(s: Seq<char>, c: char, i: int) -> Seq<Seq<char>>
    decreases s.len() - i,
{
    if i < 0 || i > s.len() {
        Seq::empty()
    } else {
        let j = next_char_from(s, c, i);
        proof {
            lemma_next_char_from(s, c, i);
        }
        if j >= s.len() {
            seq![s.subrange(i, s.len() as int)]
        } else {
            seq![s.subrange(i, j)] + split_char_from(s, c, j + 1)
        }
    }
}

/// `str::split` with a character pattern.
pub open spec fn split_char(s: Seq<char>, c: char) -> Seq<Seq<char>> {
    split_char_from(s, c, 0)
}

/// `str::split` with a character pattern, on a character vector.
pub fn chars_split_char(s: &Vec<char>, c: char) -> (r: Vec<Vec<char>>)
    ensures
        views(r@) == split_char(s@, c),
{
    let mut r: Vec<Vec<char>> = Vec::new();
    let mut i: usize = 0;
    loop
        invariant
            0 <= i <= s@.len(),
            split_char(s@, c) == views(r@) + split_char_from(s@, c, i as int),
        decreases s@.len() - i,
    {
        let j = chars_next_char(s, c, i);
        proof {
            lemma_next_char_from(s@, c, i as int);
        }
        let piece = slice_chars(s, i, j);
        proof {
            assert(views(r@.push(piece)) =~= views(r@) + seq![piece@]);
        }
        r.push(piece);
        if j >= s.len() {
            proof {
                assert(split_char_from(s@, c, i as int) == seq![piece@]);
                assert(split_char(s@, c) =~= views(r@));
            }
            return r;
        }
        proof {
            assert(split_char(s@, c) =~= views(r@) + split_char_from(s@, c, j + 1));
        }
        i = j + 1;
    }
}

pub proof fn lemma_lines_from_len(s: Seq<char>, i: int)
    requires
        0 <= i <= s.len(),
    ensures
        lines_from(s, i).len() <= s.len() - i,
    decreases s.len() - i,
{
    if i < s.len() {
        let j = next_char_from(s, '\n', i);
        lemma_next_char_from(s, '\n', i);
        if j < s.len() {
            lemma_lines_from_len(s, j + 1);
        }
    }
}

/// Whether two character vectors are equal.
pub fn chars_eq(a: &Vec<char>, b: &Vec<char>) -> (r: bool)
    ensures
        r == (a@ == b@),
{
    if a.len() != b.len() {
        return false;
    }
    let mut k: usize = 0;
    while k < a.len()
        invariant
            a@.len() == b@.len(),
            0 <= k <= a@.len(),
            forall|i: int| 0 <= i < k ==> a@[i] == b@[i],
        decreases a.len() - k,
    {
        if a[k] != b[k] {
            return false;
        }
        k = k + 1;
    }
    assert(a@ =~= b@);
    true
}

/// Concatenation of two character vectors.
pub fn concat_chars(a: &Vec<char>, b: &Vec<char>) -> (r: Vec<char>)
    ensures
        r@ == a@ + b@,
{
    let mut r = slice_chars(a, 0, a.len());
    let mut k: usize = 0;
    while k < b.len()
        invariant
            0 <= k <= b@.len(),
            r@ == a@ + b@.subrange(0, k as int),
        decreases b.len() - k,
    {
        r.push(b[k]);
        k = k + 1;
        proof {
            assert(r@ =~= a@ + b@.subrange(0, k as int));
        }
    }
    proof {
        assert(a@.subrange(0, a@.len() as int) =~= a@);
        assert(b@.subrange(0, b@.len() as int) =~= b@);
    }
    r
}

} // verus!
