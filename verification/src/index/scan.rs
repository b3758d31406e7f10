//! Line-oriented recognisers for public items in Rust source text.
use vstd::prelude::*;
use super::text::{
    char_is_ws, chars_contain_char, chars_count, chars_find_from, chars_lines, count_char, lines, chars_next_char, chars_split_char, chars_start_with,
    chars_trim_end_char, find_from, is_ws, lemma_find_from, lemma_next_char_from, next_char_from,
    slice_chars, split_char, starts_with, trim, trim_chars, trim_end_char, views,
};

verus! {

/// The characters of a string, in order.
pub(crate) fn str_chars(s: &str) -> (r: Vec<char>)
    ensures
        r@ == s@,
{
    let mut r: Vec<char> = Vec::new();
    let chars = s.chars();
    proof {
        broadcast use vstd::string::axiom_spec_iter;

    }
    for c in it: chars
        invariant
            it.seq() == s@,
            r@.len() == it.index(),
            r@ == s@.take(r@.len() as int),
    {
        proof {
            assert(r@.push(c) =~= s@.take(r@.len() as int + 1));
        }
        r.push(c);
    }
    proof {
        assert(s@.take(s@.len() as int) =~= s@);
    }
    r
}

/// `String::push`.
///
/// Trusted: states that pushing a character appends it to the string's
/// characters, as the standard library documents.
#[verifier::external_body]
fn string_push(s: &mut String, c: char)
    ensures
        final(s)@ == old(s)@.push(c),
{
    s.push(c);
}

/// The string made of the characters, in order.
pub(crate) fn chars_string(v: &Vec<char>) -> (r: String)
    ensures
        r@ == v@,
{
    let mut r = String::new();
    let mut k: usize = 0;
    while k < v.len()
        invariant
            0 <= k <= v@.len(),
            r@ == v@.take(k as int),
        decreases v.len() - k,
    {
        string_push(&mut r, v[k]);
        k = k + 1;
        proof {
            assert(r@ =~= v@.take(k as int));
        }
    }
    proof {
        assert(v@.take(v@.len() as int) =~= v@);
    }
    r
}

/// Whether `c` ends an item name: white space, `<`, `{`, `:` or `;`.
pub open spec fn is_name_delim(c: char) -> bool {
    is_ws(c) || c == '<' || c == '{' || c == ':' || c == ';'
}

/// Length of the longest prefix of `s` from `i` on without a name delimiter.
pub open spec fn name_end_from(s: Seq<char>, i: int) -> int
    decreases s.len() - i,
{
    if i < 0 || i >= s.len() {
        s.len() as int
    } else if is_name_delim(s[i]) {
        i
    } else {
        name_end_from(s, i + 1)
    }
}

pub proof fn lemma_name_end_from(s: Seq<char>, i: int)
    requires
        0 <= i <= s.len(),
    ensures
        i <= name_end_from(s, i) <= s.len(),
    decreases s.len() - i,
{
    if i < s.len() && !is_name_delim(s[i]) {
        lemma_name_end_from(s, i + 1);
    }
}

/// `s` with the prefix `p` removed (meaningful when `p` is a prefix).
pub open spec fn after_prefix(s: Seq<char>, p: Seq<char>) -> Seq<char> {
    s.subrange(p.len() as int, s.len() as int)
}

/// The name that follows `prefix` at the start of `line`, up to the first
/// name delimiter; `None` without the prefix or when that name is empty.
pub open spec fn spec_extract_name(line: Seq<char>, prefix: Seq<char>) -> Option<Seq<char>> {
    if !starts_with(line, prefix) {
        None
    } else {
        let rest = after_prefix(line, prefix);
        let name = rest.subrange(0, name_end_from(rest, 0));
        if name.len() == 0 {
            None
        } else {
            Some(name)
        }
    }
}

/// The name of an item declared by `line` after `prefix`.
pub fn extract_name(line: &Vec<char>, prefix: &Vec<char>) -> (r: Option<Vec<char>>)
    ensures
        r is Some <==> spec_extract_name(line@, prefix@) is Some,
        r matches Some(n) ==> spec_extract_name(line@, prefix@) == Some(n@),
{
    if !chars_start_with(line, prefix) {
        return None;
    }
    let rest = slice_chars(line, prefix.len(), line.len());
    let mut k: usize = 0;
    while k < rest.len() && !(char_is_ws(rest[k]) || rest[k] == '<' || rest[k] == '{'
        || rest[k] == ':' || rest[k] == ';')
        invariant
            0 <= k <= rest@.len(),
            name_end_from(rest@, 0) == name_end_from(rest@, k as int),
        decreases rest.len() - k,
    {
        k = k + 1;
    }
    if k == 0 {
        None
    } else {
        Some(slice_chars(&rest, 0, k))
    }
}

/// The name of a function declared by `line` (`pub fn name(...)`): the text
/// before the first `(`, trimmed; `None` when that text is empty.
pub open spec fn spec_extract_fn_name(line: Seq<char>) -> Option<Seq<char>> {
    if !starts_with(line, "pub fn "@) {
        None
    } else {
        let rest = after_prefix(line, "pub fn "@);
        let name = rest.subrange(0, next_char_from(rest, '(', 0));
        if name.len() == 0 {
            None
        } else {
            Some(trim(name))
        }
    }
}

/// The name of the function declared by `line`.
pub fn extract_fn_name(line: &Vec<char>) -> (r: Option<Vec<char>>)
    ensures
        r is Some <==> spec_extract_fn_name(line@) is Some,
        r matches Some(n) ==> spec_extract_fn_name(line@) == Some(n@),
{
    let prefix = str_chars("pub fn ");
    if !chars_start_with(line, &prefix) {
        return None;
    }
    let rest = slice_chars(line, prefix.len(), line.len());
    let k = chars_next_char(&rest, '(', 0);
    proof {
        lemma_next_char_from(rest@, '(', 0);
    }
    if k == 0 {
        None
    } else {
        let name = slice_chars(&rest, 0, k);
        Some(trim_chars(&name))
    }
}

/// A supertrait entry after cleaning: trimmed, trailing `{` removed, trimmed.
pub open spec fn clean_bound(x: Seq<char>) -> Seq<char> {
    trim(trim_end_char(trim(x), '{'))
}

/// Whether a cleaned bound is kept: non-empty and not starting with `{`.
pub open spec fn keep_bound(x: Seq<char>) -> bool {
    x.len() > 0 && x[0] != '{'
}

/// The cleaned, kept bounds among `parts`, in order.
pub open spec fn clean_bounds(parts: Seq<Seq<char>>) -> Seq<Seq<char>>
    decreases parts.len(),
{
    if parts.len() == 0 {
        Seq::empty()
    } else {
        let rest = clean_bounds(parts.drop_last());
        let x = clean_bound(parts.last());
        if keep_bound(x) {
            rest.push(x)
        } else {
            rest
        }
    }
}

/// The supertraits listed by a trait declaration line: the text between the
/// first and second `:`, split at `+`, each piece cleaned, empty pieces and
/// pieces starting with `{` dropped.
pub open spec fn spec_extract_supertraits(line: Seq<char>) -> Seq<Seq<char>> {
    let pieces = split_char(line, ':');
    if pieces.len() >= 2 {
        clean_bounds(split_char(pieces[1], '+'))
    } else {
        Seq::empty()
    }
}

/// The supertraits listed by a trait declaration line.
pub fn extract_supertraits(line: &Vec<char>) -> (r: Vec<Vec<char>>)
    ensures
        views(r@) == spec_extract_supertraits(line@),
{
    let pieces = chars_split_char(line, ':');
    let mut r: Vec<Vec<char>> = Vec::new();
    if pieces.len() < 2 {
        proof {
            assert(views(pieces@).len() == pieces@.len());
            assert(views(r@) =~= Seq::<Seq<char>>::empty());
        }
        return r;
    }
    proof {
        assert(views(pieces@)[1] == pieces@[1]@);
    }
    let parts = chars_split_char(&pieces[1], '+');
    let mut k: usize = 0;
    while k < parts.len()
        invariant
            0 <= k <= parts@.len(),
            views(parts@) == split_char(pieces@[1]@, '+'),
            views(r@) == clean_bounds(views(parts@).subrange(0, k as int)),
        decreases parts.len() - k,
    {
        let t = trim_chars(&parts[k]);
        let u = chars_trim_end_char(&t, '{');
        let x = trim_chars(&u);
        proof {
            let pre = views(parts@).subrange(0, k + 1);
            assert(pre.drop_last() =~= views(parts@).subrange(0, k as int));
            assert(pre.last() == parts@[k as int]@);
        }
        if x.len() > 0 && x[0] != '{' {
            proof {
                assert(views(r@.push(x)) =~= views(r@).push(x@));
            }
            r.push(x);
        }
        k = k + 1;
    }
    proof {
        assert(views(parts@).subrange(0, parts@.len() as int) =~= views(parts@));
    }
    r
}

/// The trait and type named by an `impl Trait for Type` line: the text after
/// `impl ` must contain ` for ` exactly once (as `str::split` counts it); the
/// trait is the trimmed text before it, the type the text after it, trimmed,
/// without trailing `{`, trimmed again.
pub open spec fn spec_extract_impl(line: Seq<char>) -> Option<(Seq<char>, Seq<char>)> {
    if !starts_with(line, "impl "@) {
        None
    } else {
        let rest = after_prefix(line, "impl "@);
        let pat = " for "@;
        match find_from(rest, pat, 0) {
            None => None,
            Some(k) => {
                if find_from(rest, pat, k + pat.len()) is Some {
                    None
                } else {
                    Some(
                        (
                            trim(rest.subrange(0, k)),
                            clean_bound(rest.subrange(k + pat.len(), rest.len() as int)),
                        ),
                    )
                }
            },
        }
    }
}

/// The trait and type named by an `impl Trait for Type` line.
pub fn extract_impl(line: &Vec<char>) -> (r: Option<(Vec<char>, Vec<char>)>)
    ensures
        r is Some <==> spec_extract_impl(line@) is Some,
        r matches Some(p) ==> spec_extract_impl(line@) == Some((p.0@, p.1@)),
{
    let prefix = str_chars("impl ");
    if !chars_start_with(line, &prefix) {
        return None;
    }
    let rest = slice_chars(line, prefix.len(), line.len());
    let pat = str_chars(" for ");
    proof {
        lemma_find_from(rest@, pat@, 0);
    }
    match chars_find_from(&rest, &pat, 0) {
        None => None,
        Some(k) => {
            let after = k + pat.len();
            if chars_find_from(&rest, &pat, after).is_some() {
                None
            } else {
                let a = slice_chars(&rest, 0, k);
                let b = slice_chars(&rest, after, rest.len());
                let tr = trim_chars(&a);
                let t1 = trim_chars(&b);
                let t2 = chars_trim_end_char(&t1, '{');
                let ty = trim_chars(&t2);
                Some((tr, ty))
            }
        },
    }
}

/// Index of the first line at or after `i` that contains `{`, or the number
/// of lines when there is none.
pub open spec fn brace_line_from(lines: Seq<Seq<char>>, i: int) -> int
    decreases lines.len() - i,
{
    if i < 0 || i >= lines.len() {
        lines.len() as int
    } else if lines[i].contains('{') {
        i
    } else {
        brace_line_from(lines, i + 1)
    }
}

pub proof fn lemma_brace_line_from(lines: Seq<Seq<char>>, i: int)
    requires
        0 <= i <= lines.len(),
    ensures
        i <= brace_line_from(lines, i) <= lines.len(),
    decreases lines.len() - i,
{
    if i < lines.len() && !lines[i].contains('{') {
        lemma_brace_line_from(lines, i + 1);
    }
}

/// The signature kept for a member line: trailing `{` removed, trimmed.
pub open spec fn member_sig(line: Seq<char>) -> Seq<char> {
    trim(trim_end_char(line, '{'))
}

/// Whether a (trimmed) member line inside a trait body, at brace depth
/// `depth > 0` after the line, contributes a signature.
pub open spec fn is_member_line(line: Seq<char>) -> bool {
    (starts_with(line, "fn "@) || starts_with(line, "type "@)) && member_sig(line).len() > 0
}

/// Scan of a trait body from line `i` at brace depth `depth`, collecting the
/// member signatures into `acc`.  The result is the line index where the scan
/// stops with the signatures, or `None` where the depth counter would leave
/// the range of `usize` (the closing braces on a line outnumber the open ones).
pub open spec fn methods_scan(lines: Seq<Seq<char>>, i: int, depth: nat, acc: Seq<Seq<char>>) -> Option<
    (int, Seq<Seq<char>>),
>
    decreases lines.len() - i,
{
    if i < 0 || i >= lines.len() || depth == 0 {
        Some((i, acc))
    } else {
        let line = trim(lines[i]);
        let d1 = depth + count_char(line, '{');
        let c = count_char(line, '}');
        if d1 > usize::MAX || c > d1 {
            None
        } else {
            let d2 = (d1 - c) as nat;
            let acc2 = if d2 > 0 && is_member_line(line) {
                acc.push(member_sig(line))
            } else {
                acc
            };
            methods_scan(lines, i + 1, d2, acc2)
        }
    }
}

/// The members of the trait whose declaration starts at line `i`: the body
/// opens on the first line at or after `i` containing `{`, and the scan starts
/// on the line after it at depth one.
pub open spec fn spec_trait_methods(lines: Seq<Seq<char>>, i: int) -> Option<(int, Seq<Seq<char>>)> {
    methods_scan(lines, brace_line_from(lines, i) + 1, 1, Seq::empty())
}

pub proof fn lemma_methods_scan_index(lines: Seq<Seq<char>>, i: int, depth: nat, acc: Seq<Seq<char>>)
    requires
        0 <= i,
    ensures
        methods_scan(lines, i, depth, acc) matches Some(res) ==> i <= res.0 && (res.0
            <= lines.len() || res.0 == i),
    decreases lines.len() - i,
{
    if i < lines.len() && depth > 0 {
        let line = trim(lines[i]);
        let d1 = depth + count_char(line, '{');
        let c = count_char(line, '}');
        if !(d1 > usize::MAX || c > d1) {
            let d2 = (d1 - c) as nat;
            let acc2 = if d2 > 0 && is_member_line(line) {
                acc.push(member_sig(line))
            } else {
                acc
            };
            lemma_methods_scan_index(lines, i + 1, d2, acc2);
        }
    }
}

/// The member signatures of the trait declared at line `i`, and the index of
/// the line after its body; `None` where the brace counter would underflow.
pub fn extract_trait_methods(lines: &Vec<Vec<char>>, i: usize) -> (r: Option<(usize, Vec<Vec<char>>)>)
    requires
        i <= lines.len(),
        lines.len() < usize::MAX,
    ensures
        r is Some <==> spec_trait_methods(views(lines@), i as int) is Some,
        r matches Some(p) ==> spec_trait_methods(views(lines@), i as int) == Some(
            (p.0 as int, views(p.1@)),
        ),
{
    let ghost ls = views(lines@);
    let mut k = i;
    while k < lines.len() && !chars_contain_char(&lines[k], '{')
        invariant
            i <= k <= lines@.len(),
            ls == views(lines@),
            brace_line_from(ls, i as int) == brace_line_from(ls, k as int),
        decreases lines.len() - k,
    {
        k = k + 1;
    }
    proof {
        if k < lines@.len() {
            assert(ls[k as int] == lines@[k as int]@);
        }
    }
    assert(brace_line_from(ls, k as int) == k);
    k = k + 1;
    let mut depth: usize = 1;
    let mut acc: Vec<Vec<char>> = Vec::new();
    assert(views(acc@) =~= Seq::<Seq<char>>::empty());
    while k < lines.len() && depth > 0
        invariant
            ls == views(lines@),
            lines@.len() < usize::MAX,
            spec_trait_methods(ls, i as int) == methods_scan(ls, k as int, depth as nat, views(acc@)),
        decreases lines.len() - k,
    {
        let line = trim_chars(&lines[k]);
        proof {
            assert(ls[k as int] == lines@[k as int]@);
        }
        let o = chars_count(&line, '{');
        if o > usize::MAX - depth {
            return None;
        }
        let d1 = depth + o;
        let c = chars_count(&line, '}');
        if c > d1 {
            return None;
        }
        depth = d1 - c;
        if depth > 0 {
            let fn_p = str_chars("fn ");
            let type_p = str_chars("type ");
            if chars_start_with(&line, &fn_p) || chars_start_with(&line, &type_p) {
                let t = chars_trim_end_char(&line, '{');
                let sig = trim_chars(&t);
                if sig.len() > 0 {
                    proof {
                        assert(views(acc@.push(sig)) =~= views(acc@).push(sig@));
                    }
                    acc.push(sig);
                }
            }
        }
        k = k + 1;
    }
    Some((k, acc))
}

/// Concatenation of `parts` with `sep` between neighbours (`[T]::join`).
pub open spec fn join(parts: Seq<Seq<char>>, sep: Seq<char>) -> Seq<char>
    decreases parts.len(),
{
    if parts.len() == 0 {
        Seq::empty()
    } else if parts.len() == 1 {
        parts[0]
    } else {
        join(parts.drop_last(), sep) + sep + parts.last()
    }
}

/// `parts.join(sep)` on character vectors.
pub fn join_chars(parts: &Vec<Vec<char>>, sep: &Vec<char>) -> (r: Vec<char>)
    ensures
        r@ == join(views(parts@), sep@),
{
    let mut r: Vec<char> = Vec::new();
    let mut k: usize = 0;
    while k < parts.len()
        invariant
            0 <= k <= parts@.len(),
            r@ == join(views(parts@).subrange(0, k as int), sep@),
        decreases parts.len() - k,
    {
        let ghost pre = views(parts@).subrange(0, k + 1);
        proof {
            assert(pre.drop_last() =~= views(parts@).subrange(0, k as int));
            assert(pre.last() == parts@[k as int]@);
        }
        if k > 0 {
            let mut j: usize = 0;
            let ghost r0 = r@;
            while j < sep.len()
                invariant
                    0 <= j <= sep@.len(),
                    r@ == r0 + sep@.subrange(0, j as int),
                decreases sep.len() - j,
            {
                r.push(sep[j]);
                j = j + 1;
                proof {
                    assert(r@ =~= r0 + sep@.subrange(0, j as int));
                }
            }
            proof {
                assert(sep@.subrange(0, sep@.len() as int) =~= sep@);
            }
        }
        let piece = &parts[k];
        let ghost r1 = r@;
        let mut j: usize = 0;
        while j < piece.len()
            invariant
                0 <= j <= piece@.len(),
                r@ == r1 + piece@.subrange(0, j as int),
            decreases piece.len() - j,
        {
            r.push(piece[j]);
            j = j + 1;
            proof {
                assert(r@ =~= r1 + piece@.subrange(0, j as int));
            }
        }
        proof {
            assert(piece@.subrange(0, piece@.len() as int) =~= piece@);
            if k == 0 {
                assert(r@ =~= join(pre, sep@));
            } else {
                assert(r@ =~= join(pre, sep@));
            }
        }
        k = k + 1;
    }
    proof {
        assert(views(parts@).subrange(0, parts@.len() as int) =~= views(parts@));
    }
    r
}

/// The doc-comment lines found scanning up from line `j - 1`, nearest first:
/// `///` and `//!` lines contribute their trimmed text, blank lines and
/// attribute lines (`#[`) are passed over, anything else stops the scan.
pub open spec fn doc_scan(lines: Seq<Seq<char>>, j: int, acc: Seq<Seq<char>>) -> Seq<Seq<char>>
    decreases j,
{
    if j <= 0 || j > lines.len() {
        acc
    } else {
        let line = trim(lines[j - 1]);
        if starts_with(line, "///"@) {
            doc_scan(lines, j - 1, acc.push(trim(after_prefix(line, "///"@))))
        } else if starts_with(line, "//!"@) {
            doc_scan(lines, j - 1, acc.push(trim(after_prefix(line, "//!"@))))
        } else if line.len() == 0 || starts_with(line, "#["@) {
            doc_scan(lines, j - 1, acc)
        } else {
            acc
        }
    }
}

/// The doc comment above line `idx`: its lines in source order joined by a
/// space; `None` when there is none.
pub open spec fn spec_doc_comment(lines: Seq<Seq<char>>, idx: int) -> Option<Seq<char>> {
    let d = doc_scan(lines, idx, Seq::empty()).reverse();
    if d.len() == 0 {
        None
    } else {
        Some(join(d, " "@))
    }
}

/// Whether a line, trimmed, is a doc-comment line (`///` or `//!`).
pub open spec fn is_doc_line(line: Seq<char>) -> bool {
    starts_with(trim(line), "///"@) || starts_with(trim(line), "//!"@)
}

/// The text of a doc-comment line: what follows its marker, trimmed.
pub open spec fn doc_line_text(line: Seq<char>) -> Seq<char> {
    if starts_with(trim(line), "///"@) {
        trim(after_prefix(trim(line), "///"@))
    } else {
        trim(after_prefix(trim(line), "//!"@))
    }
}

/// Whether a line ends a doc comment read upwards: it is neither blank, nor
/// an attribute, nor a doc-comment line.
pub open spec fn ends_doc_block(line: Seq<char>) -> bool {
    trim(line).len() > 0 && !starts_with(trim(line), "#["@) && !is_doc_line(line)
}

proof fn lemma_doc_scan_block(lines: Seq<Seq<char>>, j: int, n: int, acc: Seq<Seq<char>>)
    requires
        0 <= n <= j <= lines.len(),
        forall|k: int| j - n <= k < j ==> is_doc_line(#[trigger] lines[k]),
        j - n == 0 || ends_doc_block(lines[j - n - 1]),
    ensures
        doc_scan(lines, j, acc) == acc + Seq::new(n as nat, |i: int| doc_line_text(lines[j - 1 - i])),
    decreases n,
{
    if n == 0 {
        assert(acc + Seq::new(0nat, |i: int| doc_line_text(lines[j - 1 - i])) =~= acc);
    } else {
        assert(is_doc_line(lines[j - 1]));
        let t = doc_line_text(lines[j - 1]);
        lemma_doc_scan_block(lines, j - 1, n - 1, acc.push(t));
        assert(acc.push(t) + Seq::new((n - 1) as nat, |i: int| doc_line_text(lines[j - 1 - 1 - i])) =~= acc
            + Seq::new(n as nat, |i: int| doc_line_text(lines[j - 1 - i])));
    }
}

/// The doc comment of an item lists its doc-comment lines in source order:
/// when the `n` lines just above line `idx` are doc-comment lines and the
/// line above them (if any) ends the block, the doc comment is the texts of
/// those lines, topmost first, joined by a space.
pub proof fn lemma_doc_comment_in_source_order(lines: Seq<Seq<char>>, idx: int, n: int)
    requires
        1 <= n <= idx <= lines.len(),
        forall|k: int| idx - n <= k < idx ==> is_doc_line(#[trigger] lines[k]),
        idx - n == 0 || ends_doc_block(lines[idx - n - 1]),
    ensures
        spec_doc_comment(lines, idx) == Some(
            join(Seq::new(n as nat, |i: int| doc_line_text(lines[idx - n + i])), " "@),
        ),
{
    lemma_doc_scan_block(lines, idx, n, Seq::empty());
    let d = doc_scan(lines, idx, Seq::empty());
    assert(Seq::<Seq<char>>::empty() + Seq::new(n as nat, |i: int| doc_line_text(lines[idx - 1 - i]))
        =~= Seq::new(n as nat, |i: int| doc_line_text(lines[idx - 1 - i])));
    assert(d.reverse() =~= Seq::new(n as nat, |i: int| doc_line_text(lines[idx - n + i])));
}

/// The doc comment above line `idx`.
pub fn extract_doc_comment(lines: &Vec<Vec<char>>, idx: usize) -> (r: Option<Vec<char>>)
    requires
        idx <= lines.len(),
    ensures
        r is Some <==> spec_doc_comment(views(lines@), idx as int) is Some,
        r matches Some(d) ==> spec_doc_comment(views(lines@), idx as int) == Some(d@),
{
    let ghost ls = views(lines@);
    let mut docs: Vec<Vec<char>> = Vec::new();
    let mut j = idx;
    let p3 = str_chars("///");
    let p3b = str_chars("//!");
    let pa = str_chars("#[");
    let mut done = false;
    assert(views(docs@) =~= Seq::<Seq<char>>::empty());
    while j > 0 && !done
        invariant
            done ==> doc_scan(ls, j as int, views(docs@)) == views(docs@),
            0 <= j <= idx <= lines@.len(),
            ls == views(lines@),
            p3@ == "///"@,
            p3b@ == "//!"@,
            pa@ == "#["@,
            doc_scan(ls, idx as int, Seq::empty()) == doc_scan(ls, j as int, views(docs@)),
        decreases j + if done { 0int } else { 1int },
    {
        let line = trim_chars(&lines[j - 1]);
        proof {
            assert(ls[j - 1] == lines@[j - 1]@);
        }
        if chars_start_with(&line, &p3) {
            let rest = slice_chars(&line, p3.len(), line.len());
            let t = trim_chars(&rest);
            proof {
                assert(views(docs@.push(t)) =~= views(docs@).push(t@));
            }
            docs.push(t);
        } else if chars_start_with(&line, &p3b) {
            let rest = slice_chars(&line, p3b.len(), line.len());
            let t = trim_chars(&rest);
            proof {
                assert(views(docs@.push(t)) =~= views(docs@).push(t@));
            }
            docs.push(t);
        } else if line.len() == 0 || chars_start_with(&line, &pa) {
        } else {
            done = true;
        }
        if !done {
            j = j - 1;
        }
    }
    let ghost found = views(docs@);
    assert(doc_scan(ls, idx as int, Seq::empty()) == found);
    let mut rev: Vec<Vec<char>> = Vec::new();
    let mut k = docs.len();
    while k > 0
        invariant
            0 <= k <= docs@.len(),
            found == views(docs@),
            views(rev@) == found.reverse().subrange(0, (docs@.len() - k) as int),
        decreases k,
    {
        k = k - 1;
        let x = docs[k].clone();
        proof {
            assert(x@ =~= docs@[k as int]@);
            assert(found.len() == docs@.len());
            assert(found[k as int] == docs@[k as int]@);
            assert(found.reverse()[(docs@.len() - k - 1) as int] == found[k as int]);
            assert(views(rev@.push(x)) =~= views(rev@).push(x@));
            let fr = found.reverse();
            assert(fr.subrange(0, (docs@.len() - k) as int) =~= fr.subrange(0, (docs@.len() - k - 1) as int).push(fr[(docs@.len() - k - 1) as int]));
        }
        rev.push(x);
    }
    proof {
        assert(found.reverse().subrange(0, found.len() as int) =~= found.reverse());
    }
    if rev.len() == 0 {
        None
    } else {
        let sep = str_chars(" ");
        Some(join_chars(&rev, &sep))
    }
}

/// The first sentence of a doc text: the text before the first `". "`, or
/// the whole text; `None` when that is empty.
pub open spec fn spec_first_sentence(doc: Seq<char>) -> Option<Seq<char>> {
    let first = match find_from(doc, ". "@, 0) {
        Some(k) => doc.subrange(0, k),
        None => doc,
    };
    if first.len() == 0 {
        None
    } else {
        Some(first)
    }
}

/// The first sentence of a doc text.
pub fn first_sentence(doc: &Vec<char>) -> (r: Option<Vec<char>>)
    ensures
        r is Some <==> spec_first_sentence(doc@) is Some,
        r matches Some(f) ==> spec_first_sentence(doc@) == Some(f@),
{
    let pat = str_chars(". ");
    proof {
        lemma_find_from(doc@, pat@, 0);
    }
    let first = match chars_find_from(doc, &pat, 0) {
        Some(k) => slice_chars(doc, 0, k),
        None => slice_chars(doc, 0, doc.len()),
    };
    proof {
        assert(doc@.subrange(0, doc@.len() as int) =~= doc@);
    }
    if first.len() == 0 {
        None
    } else {
        Some(first)
    }
}

/// The `description` of a manifest: from the first line that, trimmed, reads
/// `description = "...."`, the text between the quotes.
pub open spec fn desc_scan(ls: Seq<Seq<char>>, k: int) -> Option<Seq<char>>
    decreases ls.len() - k,
{
    if k < 0 || k >= ls.len() {
        None
    } else {
        let t = trim(ls[k]);
        let after = after_prefix(t, "description = \""@);
        if starts_with(t, "description = \""@) && after.len() > 0 && after.last() == '"' {
            Some(after.drop_last())
        } else {
            desc_scan(ls, k + 1)
        }
    }
}

/// The `description` field of a manifest text.
pub open spec fn spec_extract_description(manifest: Seq<char>) -> Option<Seq<char>> {
    desc_scan(lines(manifest), 0)
}

/// The `description` field of a manifest text.
pub fn extract_description(manifest: &Vec<char>) -> (r: Option<Vec<char>>)
    ensures
        r is Some <==> spec_extract_description(manifest@) is Some,
        r matches Some(d) ==> spec_extract_description(manifest@) == Some(d@),
{
    let ls = chars_lines(manifest);
    let pre = str_chars("description = \"");
    let mut k: usize = 0;
    while k < ls.len()
        invariant
            0 <= k <= ls@.len(),
            views(ls@) == lines(manifest@),
            pre@ == "description = \""@,
            desc_scan(lines(manifest@), 0) == desc_scan(lines(manifest@), k as int),
        decreases ls.len() - k,
    {
        let t = trim_chars(&ls[k]);
        proof {
            assert(views(ls@)[k as int] == ls@[k as int]@);
        }
        if chars_start_with(&t, &pre) {
            let after = slice_chars(&t, pre.len(), t.len());
            if after.len() > 0 && after[after.len() - 1] == '"' {
                let d = slice_chars(&after, 0, after.len() - 1);
                proof {
                    assert(d@ =~= after@.drop_last());
                }
                return Some(d);
            }
        }
        k = k + 1;
    }
    None
}

/// The decimal digit for `d < 10`.
pub open spec fn digit(d: nat) -> char {
    (48 + d) as char
}

/// The decimal numeral of `n`.
pub open spec fn decimal(n: nat) -> Seq<char>
    decreases n,
{
    if n < 10 {
        seq![digit(n)]
    } else {
        decimal(n / 10).push(digit(n % 10))
    }
}

/// The decimal numeral of `n` (the `Display` of an unsigned integer).
pub fn decimal_chars(n: usize) -> (r: Vec<char>)
    ensures
        r@ == decimal(n as nat),
    decreases n,
{
    if n < 10 {
        let d = (48u8 + n as u8) as char;
        assert(d == digit(n as nat));
        vec![d]
    } else {
        let mut v = decimal_chars(n / 10);
        let d = (48u8 + (n % 10) as u8) as char;
        assert(d == digit((n % 10) as nat));
        v.push(d);
        v
    }
}

} // verus!
