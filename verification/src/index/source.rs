//! Extraction of the public items of one source file.
use vstd::prelude::*;
use super::item::{item_views, string_views, ApiItem, ApiItemView, copy_items};
use super::scan::{
    chars_string, decimal, decimal_chars, extract_doc_comment, extract_fn_name, extract_impl,
    extract_name, extract_supertraits, extract_trait_methods, first_sentence, lemma_brace_line_from,
    lemma_methods_scan_index, spec_doc_comment, spec_extract_fn_name, spec_extract_impl,
    spec_extract_name, spec_extract_supertraits, spec_first_sentence, spec_trait_methods, str_chars,
};
use super::text::{
    chars_contain, chars_contain_char, chars_eq, chars_lines, chars_start_with, concat_chars,
    contains_seq, lemma_lines_from_len, lines, starts_with, trim, trim_chars, views,
};

verus! {

/// The first sentence of optional docs.
pub open spec fn summary_of(docs: Option<Seq<char>>) -> Option<Seq<char>> {
    match docs {
        Some(d) => spec_first_sentence(d),
        None => None,
    }
}

/// A freshly found item: its location is `path:line_no`, and it has no
/// subtraits, implementors or trait implementations yet.
pub open spec fn new_item(
    name: Seq<char>,
    kind: Seq<char>,
    crate_name: Seq<char>,
    path: Seq<char>,
    line_no: int,
    sig: Seq<char>,
    docs: Option<Seq<char>>,
    supertraits: Seq<Seq<char>>,
    methods: Seq<Seq<char>>,
) -> ApiItemView {
    ApiItemView {
        name,
        kind,
        crate_name,
        path: path + ":"@ + decimal(line_no as nat),
        signature: Some(sig),
        docs,
        summary: summary_of(docs),
        supertraits,
        subtraits: Seq::empty(),
        methods,
        implementors: Seq::empty(),
        trait_impls: Seq::empty(),
    }
}

/// Index of the first item at or after `k` named `name`, or the number of
/// items when there is none.
pub open spec fn first_named(items: Seq<ApiItemView>, name: Seq<char>, k: int) -> int
    decreases items.len() - k,
{
    if k < 0 || k >= items.len() {
        items.len() as int
    } else if items[k].name == name {
        k
    } else {
        first_named(items, name, k + 1)
    }
}

pub proof fn lemma_first_named(items: Seq<ApiItemView>, name: Seq<char>, k: int)
    requires
        0 <= k <= items.len(),
    ensures
        k <= first_named(items, name, k) <= items.len(),
        first_named(items, name, k) < items.len() ==> items[first_named(items, name, k)].name
            == name,
        forall|j: int| k <= j < first_named(items, name, k) ==> items[j].name != name,
    decreases items.len() - k,
{
    if k < items.len() && items[k].name != name {
        lemma_first_named(items, name, k + 1);
    }
}

/// `items` where the first item named `ty` records the implementation of `tr`.
pub open spec fn with_trait_impl(items: Seq<ApiItemView>, ty: Seq<char>, tr: Seq<char>) -> Seq<
    ApiItemView,
> {
    let k = first_named(items, ty, 0);
    if k < items.len() {
        items.update(k, ApiItemView { trait_impls: items[k].trait_impls.push(tr), ..items[k] })
    } else {
        items
    }
}

/// `items` where the first item named `tr` records `ty` as an implementor,
/// unless it already does.
pub open spec fn with_implementor(items: Seq<ApiItemView>, tr: Seq<char>, ty: Seq<char>) -> Seq<
    ApiItemView,
> {
    let k = first_named(items, tr, 0);
    if k < items.len() && !items[k].implementors.contains(ty) {
        items.update(k, ApiItemView { implementors: items[k].implementors.push(ty), ..items[k] })
    } else {
        items
    }
}

/// The effect of line `i` on the items found so far: the line index the scan
/// continues from (before moving to the next line) and the new items, or
/// `None` where the brace counter of a trait body would underflow.  The
/// declaration prefixes exclude one another, so at most one branch applies.
pub open spec fn parse_step(
    lines: Seq<Seq<char>>,
    crate_name: Seq<char>,
    path: Seq<char>,
    i: int,
    items: Seq<ApiItemView>,
) -> Option<(int, Seq<ApiItemView>)> {
    let line = trim(lines[i]);
    let docs = spec_doc_comment(lines, i);
    if spec_extract_name(line, "pub trait "@) is Some {
        let name = spec_extract_name(line, "pub trait "@)->0;
        match spec_trait_methods(lines, i) {
            None => None,
            Some(res) => Some(
                (
                    res.0,
                    items.push(
                        new_item(
                            name,
                            "trait"@,
                            crate_name,
                            path,
                            res.0 + 1,
                            line,
                            docs,
                            spec_extract_supertraits(line),
                            res.1,
                        ),
                    ),
                ),
            ),
        }
    } else if spec_extract_name(line, "pub struct "@) is Some {
        let name = spec_extract_name(line, "pub struct "@)->0;
        Some((i, items.push(new_item(name, "struct"@, crate_name, path, i + 1, line, docs, Seq::empty(), Seq::empty()))))
    } else if spec_extract_name(line, "pub enum "@) is Some {
        let name = spec_extract_name(line, "pub enum "@)->0;
        Some((i, items.push(new_item(name, "enum"@, crate_name, path, i + 1, line, docs, Seq::empty(), Seq::empty()))))
    } else if spec_extract_name(line, "pub type "@) is Some {
        let name = spec_extract_name(line, "pub type "@)->0;
        Some((i, items.push(new_item(name, "type alias"@, crate_name, path, i + 1, line, docs, Seq::empty(), Seq::empty()))))
    } else if spec_extract_fn_name(line) is Some {
        let name = spec_extract_fn_name(line)->0;
        Some((i, items.push(new_item(name, "function"@, crate_name, path, i + 1, line, docs, Seq::empty(), Seq::empty()))))
    } else if starts_with(line, "impl "@) && contains_seq(line, " for "@) && !line.contains('<')
        && spec_extract_impl(line) is Some {
        let (tr, ty) = spec_extract_impl(line)->0;
        Some((i, with_implementor(with_trait_impl(items, ty, tr), tr, ty)))
    } else {
        Some((i, items))
    }
}

pub proof fn lemma_parse_step(
    lines: Seq<Seq<char>>,
    crate_name: Seq<char>,
    path: Seq<char>,
    i: int,
    items: Seq<ApiItemView>,
)
    requires
        0 <= i < lines.len(),
    ensures
        parse_step(lines, crate_name, path, i, items) matches Some(res) ==> i <= res.0 <= lines.len()
            + 1,
{
    lemma_brace_line_from(lines, i);
    let b = crate::index::scan::brace_line_from(lines, i);
    lemma_methods_scan_index(lines, b + 1, 1, Seq::empty());
}

/// The items found scanning `lines` from line `i` on, added to `items`.
pub open spec fn parse_from(
    lines: Seq<Seq<char>>,
    crate_name: Seq<char>,
    path: Seq<char>,
    i: int,
    items: Seq<ApiItemView>,
) -> Option<Seq<ApiItemView>>
    decreases lines.len() + 2 - i,
{
    if i < 0 || i >= lines.len() {
        Some(items)
    } else {
        proof {
            lemma_parse_step(lines, crate_name, path, i, items);
        }
        match parse_step(lines, crate_name, path, i, items) {
            None => None,
            Some(res) => parse_from(lines, crate_name, path, res.0 + 1, res.1),
        }
    }
}

/// The items of source text `source` of crate `crate_name` at `path`, added
/// to `items`; `None` where a trait body closes more braces than it opened.
pub open spec fn spec_parse_source(
    source: Seq<char>,
    crate_name: Seq<char>,
    path: Seq<char>,
    items: Seq<ApiItemView>,
) -> Option<Seq<ApiItemView>> {
    parse_from(lines(source), crate_name, path, 0, items)
}

/// Strings built from character vectors.
pub fn strings_of(v: &Vec<Vec<char>>) -> (r: Vec<String>)
    ensures
        string_views(r@) == views(v@),
{
    let mut r: Vec<String> = Vec::new();
    let mut k: usize = 0;
    while k < v.len()
        invariant
            0 <= k <= v@.len(),
            string_views(r@) == views(v@).subrange(0, k as int),
        decreases v.len() - k,
    {
        let s = chars_string(&v[k]);
        proof {
            assert(string_views(r@.push(s)) =~= string_views(r@).push(s@));
            assert(views(v@).subrange(0, k + 1) =~= views(v@).subrange(0, k as int).push(v@[k as int]@));
        }
        r.push(s);
        k = k + 1;
    }
    proof {
        assert(views(v@).subrange(0, v@.len() as int) =~= views(v@));
    }
    r
}

/// An optional string built from optional characters.
pub fn opt_string(o: &Option<Vec<char>>) -> (r: Option<String>)
    ensures
        crate::index::item::opt_view(r) == match o {
            Some(v) => Some(v@),
            None => None::<Seq<char>>,
        },
{
    match o {
        Some(v) => Some(chars_string(v)),
        None => None,
    }
}

/// A freshly found item.
pub fn make_item(
    name: &Vec<char>,
    kind: &'static str,
    crate_name: &Vec<char>,
    path: &Vec<char>,
    line_no: usize,
    sig: &Vec<char>,
    docs: &Option<Vec<char>>,
    supertraits: &Vec<Vec<char>>,
    methods: &Vec<Vec<char>>,
) -> (r: ApiItem)
    ensures
        r@ == new_item(
            name@,
            kind@,
            crate_name@,
            path@,
            line_no as int,
            sig@,
            match docs {
                Some(v) => Some(v@),
                None => None::<Seq<char>>,
            },
            views(supertraits@),
            views(methods@),
        ),
{
    let colon = str_chars(":");
    let num = decimal_chars(line_no);
    let p1 = concat_chars(path, &colon);
    let full = concat_chars(&p1, &num);
    let summary = match docs {
        Some(d) => first_sentence(d),
        None => None,
    };
    let r = ApiItem {
        name: chars_string(name),
        kind,
        crate_name: chars_string(crate_name),
        path: chars_string(&full),
        signature: Some(chars_string(sig)),
        docs: opt_string(docs),
        summary: opt_string(&summary),
        supertraits: strings_of(supertraits),
        subtraits: Vec::new(),
        methods: strings_of(methods),
        implementors: Vec::new(),
        trait_impls: Vec::new(),
    };
    proof {
        assert(string_views(r.subtraits@) =~= Seq::<Seq<char>>::empty());
        assert(string_views(r.implementors@) =~= Seq::<Seq<char>>::empty());
        assert(string_views(r.trait_impls@) =~= Seq::<Seq<char>>::empty());
    }
    r
}

/// Index of the first item named `name`, or the number of items.
pub fn find_named(items: &Vec<ApiItem>, name: &Vec<char>) -> (r: usize)
    ensures
        r == first_named(item_views(items@), name@, 0),
{
    let ghost iv = item_views(items@);
    let mut k: usize = 0;
    while k < items.len()
        invariant
            0 <= k <= items@.len(),
            iv == item_views(items@),
            first_named(iv, name@, 0) == first_named(iv, name@, k as int),
        decreases items.len() - k,
    {
        let n = str_chars(items[k].name.as_str());
        if chars_eq(&n, name) {
            return k;
        }
        k = k + 1;
    }
    k
}

/// Whether `v` holds a string equal to `s`.
pub fn strings_contain(v: &Vec<String>, s: &Vec<char>) -> (r: bool)
    ensures
        r == string_views(v@).contains(s@),
{
    let mut k: usize = 0;
    while k < v.len()
        invariant
            0 <= k <= v@.len(),
            forall|i: int| 0 <= i < k ==> string_views(v@)[i] != s@,
        decreases v.len() - k,
    {
        let c = str_chars(v[k].as_str());
        if chars_eq(&c, s) {
            assert(string_views(v@)[k as int] == s@);
            return true;
        }
        k = k + 1;
    }
    false
}

/// Records, on the first item named `ty`, that it implements `tr`.
pub fn add_trait_impl(items: &mut Vec<ApiItem>, ty: &Vec<char>, tr: &Vec<char>)
    ensures
        item_views(final(items)@) == with_trait_impl(item_views(old(items)@), ty@, tr@),
{
    let k = find_named(items, ty);
    proof {
        lemma_first_named(item_views(items@), ty@, 0);
    }
    if k < items.len() {
        let ghost before = item_views(items@);
        let mut it = items.remove(k);
        let ghost old_it = it@;
        it.trait_impls.push(chars_string(tr));
        proof {
            assert(string_views(it.trait_impls@) =~= old_it.trait_impls.push(tr@));
            assert(it@ == ApiItemView { trait_impls: old_it.trait_impls.push(tr@), ..old_it });
        }
        items.insert(k, it);
        proof {
            assert(item_views(items@) =~= before.update(k as int, it@));
        }
    }
}

/// Records, on the first item named `tr`, that `ty` implements it, unless
/// that is already recorded.
pub fn add_implementor(items: &mut Vec<ApiItem>, tr: &Vec<char>, ty: &Vec<char>)
    ensures
        item_views(final(items)@) == with_implementor(item_views(old(items)@), tr@, ty@),
{
    let k = find_named(items, tr);
    proof {
        lemma_first_named(item_views(items@), tr@, 0);
    }
    if k < items.len() && !strings_contain(&items[k].implementors, ty) {
        let ghost before = item_views(items@);
        let mut it = items.remove(k);
        let ghost old_it = it@;
        it.implementors.push(chars_string(ty));
        proof {
            assert(string_views(it.implementors@) =~= old_it.implementors.push(ty@));
            assert(it@ == ApiItemView { implementors: old_it.implementors.push(ty@), ..old_it });
        }
        items.insert(k, it);
        proof {
            assert(item_views(items@) =~= before.update(k as int, it@));
        }
    }
}

/// Adds to `items` the public items of source text `source` of crate
/// `crate_name` at `path`, and records `impl Trait for Type` lines on the
/// items already present.  Returns `false`, leaving `items` as it was, where a
/// trait body closes more braces than it opened.
pub fn parse_source(source: &str, crate_name: &str, path: &str, items: &mut Vec<ApiItem>) -> (ok: bool)
    requires
        source@.len() < usize::MAX - 2,
    ensures
        ok == spec_parse_source(source@, crate_name@, path@, item_views(old(items)@)) is Some,
        ok ==> spec_parse_source(source@, crate_name@, path@, item_views(old(items)@)) == Some(
            item_views(final(items)@),
        ),
        !ok ==> item_views(final(items)@) == item_views(old(items)@),
{
    let src = str_chars(source);
    let ls = chars_lines(&src);
    let cn = str_chars(crate_name);
    let pth = str_chars(path);
    let ghost lv = views(ls@);
    proof {
        lemma_lines_from_len(src@, 0);
    }
    let p_trait = str_chars("pub trait ");
    let p_struct = str_chars("pub struct ");
    let p_enum = str_chars("pub enum ");
    let p_type = str_chars("pub type ");
    let p_impl = str_chars("impl ");
    let p_for = str_chars(" for ");
    let mut work = copy_items(items);
    let mut i: usize = 0;
    while i < ls.len()
        invariant
            lv == views(ls@),
            lv == lines(src@),
            src@ == source@,
            cn@ == crate_name@,
            pth@ == path@,
            ls@.len() < usize::MAX - 2,
            0 <= i <= ls@.len(),
            p_trait@ == "pub trait "@,
            p_struct@ == "pub struct "@,
            p_enum@ == "pub enum "@,
            p_type@ == "pub type "@,
            p_impl@ == "impl "@,
            p_for@ == " for "@,
            spec_parse_source(source@, crate_name@, path@, item_views(old(items)@)) == parse_from(
                lv,
                cn@,
                pth@,
                i as int,
                item_views(work@),
            ),
        decreases ls.len() - i,
    {
        let line = trim_chars(&ls[i]);
        let docs = extract_doc_comment(&ls, i);
        let ghost iv = item_views(work@);
        let ghost step = parse_step(lv, cn@, pth@, i as int, iv);
        proof {
            assert(lv[i as int] == ls@[i as int]@);
            lemma_parse_step(lv, cn@, pth@, i as int, iv);
        }
        let mut next = i;
        if let Some(name) = extract_name(&line, &p_trait) {
            match extract_trait_methods(&ls, i) {
                None => {
                    return false;
                },
                Some((i2, methods)) => {
                    let sup = extract_supertraits(&line);
                    let it = make_item(&name, "trait", &cn, &pth, i2 + 1, &line, &docs, &sup, &methods);
                    proof {
                        assert(item_views(work@.push(it)) =~= iv.push(it@));
                    }
                    work.push(it);
                    next = i2;
                },
            }
        } else if let Some(name) = extract_name(&line, &p_struct) {
            let e: Vec<Vec<char>> = Vec::new();
            let it = make_item(&name, "struct", &cn, &pth, i + 1, &line, &docs, &e, &e);
            proof {
                assert(views(e@) =~= Seq::<Seq<char>>::empty());
                assert(item_views(work@.push(it)) =~= iv.push(it@));
            }
            work.push(it);
        } else if let Some(name) = extract_name(&line, &p_enum) {
            let e: Vec<Vec<char>> = Vec::new();
            let it = make_item(&name, "enum", &cn, &pth, i + 1, &line, &docs, &e, &e);
            proof {
                assert(views(e@) =~= Seq::<Seq<char>>::empty());
                assert(item_views(work@.push(it)) =~= iv.push(it@));
            }
            work.push(it);
        } else if let Some(name) = extract_name(&line, &p_type) {
            let e: Vec<Vec<char>> = Vec::new();
            let it = make_item(&name, "type alias", &cn, &pth, i + 1, &line, &docs, &e, &e);
            proof {
                assert(views(e@) =~= Seq::<Seq<char>>::empty());
                assert(item_views(work@.push(it)) =~= iv.push(it@));
            }
            work.push(it);
        } else if let Some(name) = extract_fn_name(&line) {
            let e: Vec<Vec<char>> = Vec::new();
            let it = make_item(&name, "function", &cn, &pth, i + 1, &line, &docs, &e, &e);
            proof {
                assert(views(e@) =~= Seq::<Seq<char>>::empty());
                assert(item_views(work@.push(it)) =~= iv.push(it@));
            }
            work.push(it);
        } else if chars_start_with(&line, &p_impl) && chars_contain(&line, &p_for)
            && !chars_contain_char(&line, '<') {
            if let Some((tr, ty)) = extract_impl(&line) {
                add_trait_impl(&mut work, &ty, &tr);
                add_implementor(&mut work, &tr, &ty);
            }
        }
        proof {
            assert(step == Some((next as int, item_views(work@))));
        }
        if next >= ls.len() {
            proof {
                assert(parse_from(lv, cn@, pth@, next + 1, item_views(work@)) == Some(item_views(work@)));
            }
            i = ls.len();
            proof {
                assert(parse_from(lv, cn@, pth@, i as int, item_views(work@)) == Some(item_views(work@)));
            }
        } else {
            i = next + 1;
        }
    }
    *items = work;
    true
}

} // verus!
