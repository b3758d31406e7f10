//! The index of a whole workspace: cross references between traits, lookup
//! by name and case-insensitive search.
use vstd::prelude::*;
use super::item::{ApiItem, ApiItemView, item_views, string_views, copy_items};
use super::order::{name_lt, chars_lt, lemma_name_lt_irreflexive, lemma_name_lt_transitive, lemma_name_lt_total};
use super::scan::{str_chars, chars_string, extract_description, spec_extract_description};
use super::source::{first_named, lemma_first_named, find_named, strings_contain, parse_source, spec_parse_source};
use super::text::{contains_seq, occurs_at, chars_contain, chars_eq};

verus! {

/// What `str::to_lowercase` returns for a string.
pub uninterp spec fn lowercase(s: Seq<char>) -> Seq<char>;

/// `str::to_lowercase`.
///
/// Trusted: the result is `lowercase` of the argument, a function of the
/// argument alone, and the empty string for the empty string; Unicode case
/// mapping itself is not restated.
#[verifier::external_body]
fn str_lowercase(s: &str) -> (r: String)
    ensures
        r@ == lowercase(s@),
        s@ == Seq::<char>::empty() ==> r@ == Seq::<char>::empty(),
{
    s.to_lowercase()
}

/// The names of the items, in order, whose supertraits list `t`.
pub open spec fn subtraits_of(items: Seq<ApiItemView>, t: Seq<char>) -> Seq<Seq<char>>
    decreases items.len(),
{
    if items.len() == 0 {
        Seq::empty()
    } else {
        let rest = subtraits_of(items.drop_last(), t);
        if items.last().supertraits.contains(t) {
            rest.push(items.last().name)
        } else {
            rest
        }
    }
}

/// Whether one of the first `upto` items is a trait named `n`.
pub open spec fn trait_named_before(items: Seq<ApiItemView>, n: Seq<char>, upto: int) -> bool {
    exists|k: int| 0 <= k < upto && items[k].kind == "trait"@ && items[k].name == n
}

/// The items after the cross references of the traits among the first
/// `upto` items are recorded: the first item named like such a trait gets as
/// subtraits the items that list that name as a supertrait.
pub open spec fn cross_referenced(items: Seq<ApiItemView>, upto: int) -> Seq<ApiItemView> {
    Seq::new(
        items.len(),
        |j: int|
            if first_named(items, items[j].name, 0) == j && trait_named_before(
                items,
                items[j].name,
                upto,
            ) {
                ApiItemView { subtraits: subtraits_of(items, items[j].name), ..items[j] }
            } else {
                items[j]
            },
    )
}

/// The items with all trait cross references recorded.
pub open spec fn spec_cross_references(items: Seq<ApiItemView>) -> Seq<ApiItemView> {
    cross_referenced(items, items.len() as int)
}

/// The names of the items whose supertraits list `t`.
fn subtraits_named(items: &Vec<ApiItem>, t: &Vec<char>) -> (r: Vec<String>)
    ensures
        string_views(r@) == subtraits_of(item_views(items@), t@),
{
    let ghost iv = item_views(items@);
    let mut r: Vec<String> = Vec::new();
    let mut k: usize = 0;
    proof {
        assert(iv.take(0) =~= Seq::<ApiItemView>::empty());
        assert(string_views(r@) =~= Seq::<Seq<char>>::empty());
    }
    while k < items.len()
        invariant
            0 <= k <= items@.len(),
            iv == item_views(items@),
            string_views(r@) == subtraits_of(iv.take(k as int), t@),
        decreases items.len() - k,
    {
        proof {
            assert(iv.take(k + 1).drop_last() =~= iv.take(k as int));
            assert(iv.take(k + 1).last() == items@[k as int]@);
        }
        if strings_contain(&items[k].supertraits, t) {
            let ghost before = r@;
            r.push(chars_string(&str_chars(items[k].name.as_str())));
            proof {
                assert(string_views(r@) =~= string_views(before).push(items@[k as int]@.name));
            }
        }
        k = k + 1;
    }
    proof {
        assert(iv.take(items@.len() as int) =~= iv);
    }
    r
}

/// Whether the item's kind is `trait`.
fn is_trait(it: &ApiItem) -> (r: bool)
    ensures
        r == (it@.kind == "trait"@),
{
    chars_eq(&str_chars(it.kind), &str_chars("trait"))
}

/// Records, for every trait, its subtraits: the items that list it as a
/// supertrait, on the first item of the trait's name.
pub fn build_cross_references(items: &mut Vec<ApiItem>)
    ensures
        item_views(final(items)@) == spec_cross_references(item_views(old(items)@)),
{
    let snapshot = copy_items(items);
    let ghost orig = item_views(snapshot@);
    let mut t: usize = 0;
    proof {
        assert(cross_referenced(orig, 0) =~= orig);
    }
    while t < snapshot.len()
        invariant
            0 <= t <= snapshot@.len(),
            orig == item_views(snapshot@),
            orig == item_views(old(items)@),
            item_views(items@) == cross_referenced(orig, t as int),
        decreases snapshot.len() - t,
    {
        let ghost cur = item_views(items@);
        if is_trait(&snapshot[t]) {
            let name = str_chars(snapshot[t].name.as_str());
            let subs = subtraits_named(&snapshot, &name);
            let k = find_named(&snapshot, &name);
            proof {
                lemma_first_named(orig, name@, 0);
                assert(orig[t as int] == snapshot@[t as int]@);
                assert(orig[t as int].kind == "trait"@ && orig[t as int].name == name@);
                assert(items@.len() == cur.len());
            }
            if k < items.len() {
                let ghost before = items@;
                let mut it = items.remove(k);
                let ghost old_it = it@;
                proof {
                    assert(old_it == item_views(before)[k as int]);
                }
                it.subtraits = subs;
                proof {
                    assert(it@ == ApiItemView { subtraits: subtraits_of(orig, name@), ..old_it });
                }
                items.insert(k, it);
                proof {
                    assert(item_views(items@) =~= cur.update(k as int, it@));
                    assert forall|j: int| 0 <= j < orig.len() implies item_views(items@)[j]
                        == cross_referenced(orig, t + 1)[j] by {
                        if j == k {
                            assert(orig[j].name == name@);
                            assert(trait_named_before(orig, orig[j].name, t + 1));
                            assert(item_views(items@)[j] == it@);
                        } else {
                            assert(item_views(items@)[j] == cur[j]);
                        }
                        if first_named(orig, orig[j].name, 0) == j && orig[j].name == name@ {
                            assert(j == k);
                        }
                        if trait_named_before(orig, orig[j].name, t + 1) && orig[j].name
                            != name@ {
                            let w = choose|w: int|
                                0 <= w < t + 1 && orig[w].kind == "trait"@ && orig[w].name
                                    == orig[j].name;
                            assert(w != t);
                            assert(trait_named_before(orig, orig[j].name, t as int));
                        }
                        if trait_named_before(orig, orig[j].name, t as int) {
                            assert(trait_named_before(orig, orig[j].name, t + 1));
                        }
                        if orig[j].name == name@ {
                            assert(orig[t as int].kind == "trait"@);
                            assert(trait_named_before(orig, orig[j].name, t + 1));
                        }
                    }
                    assert(item_views(items@) =~= cross_referenced(orig, t + 1));
                }
            } else {
                proof {
                    assert forall|j: int| 0 <= j < orig.len() implies item_views(items@)[j]
                        == cross_referenced(orig, t + 1)[j] by {
                        if orig[j].name == name@ {
                            assert(first_named(orig, orig[j].name, 0) != j);
                        }
                        if trait_named_before(orig, orig[j].name, t + 1) && orig[j].name
                            != name@ {
                            let w = choose|w: int|
                                0 <= w < t + 1 && orig[w].kind == "trait"@ && orig[w].name
                                    == orig[j].name;
                            assert(w != t);
                            assert(trait_named_before(orig, orig[j].name, t as int));
                        }
                        if trait_named_before(orig, orig[j].name, t as int) {
                            assert(trait_named_before(orig, orig[j].name, t + 1));
                        }
                    }
                    assert(item_views(items@) =~= cross_referenced(orig, t + 1));
                }
            }
        } else {
            proof {
                assert forall|j: int| 0 <= j < orig.len() implies item_views(items@)[j]
                    == cross_referenced(orig, t + 1)[j] by {
                    if trait_named_before(orig, orig[j].name, t + 1) {
                        let w = choose|w: int|
                            0 <= w < t + 1 && orig[w].kind == "trait"@ && orig[w].name
                                == orig[j].name;
                        assert(w != t);
                        assert(trait_named_before(orig, orig[j].name, t as int));
                    }
                    if trait_named_before(orig, orig[j].name, t as int) {
                        assert(trait_named_before(orig, orig[j].name, t + 1));
                    }
                }
                assert(item_views(items@) =~= cross_referenced(orig, t + 1));
            }
        }
        t = t + 1;
    }
}

/// Whether the item's name contains the lower-cased query, both taken
/// lower case.
pub open spec fn matches_query(it: ApiItemView, q: Seq<char>) -> bool {
    contains_seq(lowercase(it.name), lowercase(q))
}

/// The items that match the query, in index order.
pub open spec fn matching(items: Seq<ApiItemView>, q: Seq<char>) -> Seq<ApiItemView>
    decreases items.len(),
{
    if items.len() == 0 {
        Seq::empty()
    } else if matches_query(items.last(), q) {
        matching(items.drop_last(), q).push(items.last())
    } else {
        matching(items.drop_last(), q)
    }
}

/// Where a stable sort by name places `x` after the items of `s`: behind
/// every item whose name does not sort after `x`'s.
pub open spec fn insert_pos(s: Seq<ApiItemView>, x: ApiItemView) -> int
    decreases s.len(),
{
    if s.len() == 0 {
        0
    } else if name_lt(x.name, s.last().name) {
        insert_pos(s.drop_last(), x)
    } else {
        s.len() as int
    }
}

/// The items sorted by name, stably (`sort_by_key` on the name).
pub open spec fn sort_by_name(s: Seq<ApiItemView>) -> Seq<ApiItemView>
    decreases s.len(),
{
    if s.len() == 0 {
        Seq::empty()
    } else {
        let r = sort_by_name(s.drop_last());
        r.insert(insert_pos(r, s.last()), s.last())
    }
}

/// The result of a search: the matching items, sorted stably by name.
pub open spec fn spec_search(items: Seq<ApiItemView>, q: Seq<char>) -> Seq<ApiItemView> {
    sort_by_name(matching(items, q))
}

/// Whether the items are sorted by name.
pub open spec fn sorted_by_name(r: Seq<ApiItemView>) -> bool {
    forall|i: int, j: int| 0 <= i < j < r.len() ==> !name_lt(#[trigger] r[j].name, #[trigger] r[i].name)
}

proof fn lemma_insert_pos_bounds(s: Seq<ApiItemView>, x: ApiItemView)
    ensures
        0 <= insert_pos(s, x) <= s.len(),
        forall|k: int| insert_pos(s, x) <= k < s.len() ==> name_lt(x.name, #[trigger] s[k].name),
        insert_pos(s, x) > 0 ==> !name_lt(x.name, s[insert_pos(s, x) - 1].name),
    decreases s.len(),
{
    if s.len() > 0 && name_lt(x.name, s.last().name) {
        let d = s.drop_last();
        lemma_insert_pos_bounds(d, x);
        assert forall|k: int| insert_pos(s, x) <= k < s.len() implies name_lt(
            x.name,
            #[trigger] s[k].name,
        ) by {
            if k < s.len() - 1 {
                assert(s[k] == d[k]);
            }
        }
    }
}

/// Sorting by name gives a sorted sequence of the same length whose items
/// all come from the input.
pub proof fn lemma_sort_by_name(s: Seq<ApiItemView>)
    ensures
        sorted_by_name(sort_by_name(s)),
        sort_by_name(s).len() == s.len(),
        forall|i: int| 0 <= i < s.len() ==> s.contains(#[trigger] sort_by_name(s)[i]),
    decreases s.len(),
{
    if s.len() > 0 {
        let prev = s.drop_last();
        let x = s.last();
        lemma_sort_by_name(prev);
        let r = sort_by_name(prev);
        let p = insert_pos(r, x);
        lemma_insert_pos_bounds(r, x);
        let r2 = r.insert(p, x);
        assert(sort_by_name(s) == r2);
        assert forall|i: int, j: int| 0 <= i < j < r2.len() implies !name_lt(
            #[trigger] r2[j].name,
            #[trigger] r2[i].name,
        ) by {
            if i == p {
                assert(r2[j] == r[j - 1]);
                lemma_name_lt_total(x.name, r[j - 1].name);
            } else if j == p {
                assert(r2[i] == r[i]);
                if name_lt(x.name, r[i].name) {
                    if i < p - 1 {
                        lemma_name_lt_total(r[p - 1].name, r[i].name);
                        if r[p - 1].name == r[i].name {
                        } else {
                            lemma_name_lt_transitive(x.name, r[i].name, r[p - 1].name);
                        }
                    }
                }
            } else if i < p && j < p {
                assert(r2[i] == r[i] && r2[j] == r[j]);
            } else if i < p && j > p {
                assert(r2[i] == r[i] && r2[j] == r[j - 1]);
            } else {
                assert(r2[i] == r[i - 1] && r2[j] == r[j - 1]);
            }
        }
        assert forall|i: int| 0 <= i < s.len() implies s.contains(#[trigger] sort_by_name(s)[i]) by {
            if i == p {
                assert(s[s.len() - 1] == x);
            } else {
                let k = if i < p { i } else { i - 1 };
                assert(r2[i] == r[k]);
                assert(prev.contains(r[k]));
                let w = choose|w: int| 0 <= w < prev.len() && prev[w] == r[k];
                assert(s[w] == prev[w]);
            }
        }
    }
}

proof fn lemma_matching(items: Seq<ApiItemView>, q: Seq<char>)
    ensures
        forall|i: int| 0 <= i < matching(items, q).len() ==> matches_query(
            #[trigger] matching(items, q)[i],
            q,
        ) && items.contains(matching(items, q)[i]),
        matching(items, q).len() <= items.len(),
    decreases items.len(),
{
    if items.len() > 0 {
        let prev = items.drop_last();
        lemma_matching(prev, q);
        let m = matching(items, q);
        assert forall|i: int| 0 <= i < m.len() implies matches_query(#[trigger] m[i], q)
            && items.contains(m[i]) by {
            if i < matching(prev, q).len() {
                assert(m[i] == matching(prev, q)[i]);
                let w = choose|w: int| 0 <= w < prev.len() && prev[w] == m[i];
                assert(items[w] == prev[w]);
            } else {
                assert(m[i] == items.last());
                assert(items[items.len() - 1] == m[i]);
            }
        }
    }
}

/// A search gives items of the index sorted by name, each of whose name
/// contains the query, ignoring case.
pub proof fn lemma_search(items: Seq<ApiItemView>, q: Seq<char>)
    ensures
        sorted_by_name(spec_search(items, q)),
        spec_search(items, q).len() == matching(items, q).len(),
        forall|i: int|
            0 <= i < spec_search(items, q).len() ==> matches_query(
                #[trigger] spec_search(items, q)[i],
                q,
            ) && items.contains(spec_search(items, q)[i]),
{
    let m = matching(items, q);
    lemma_matching(items, q);
    lemma_sort_by_name(m);
    assert forall|i: int| 0 <= i < spec_search(items, q).len() implies matches_query(
        #[trigger] spec_search(items, q)[i],
        q,
    ) && items.contains(spec_search(items, q)[i]) by {
        let x = spec_search(items, q)[i];
        assert(m.contains(x));
        let w = choose|w: int| 0 <= w < m.len() && m[w] == x;
        assert(matches_query(m[w], q));
    }
}

/// When every item matches the query, the matching items are all the items.
proof fn lemma_matching_all(items: Seq<ApiItemView>, q: Seq<char>)
    requires
        forall|i: int| 0 <= i < items.len() ==> matches_query(#[trigger] items[i], q),
    ensures
        matching(items, q) == items,
    decreases items.len(),
{
    if items.len() > 0 {
        let prev = items.drop_last();
        assert forall|i: int| 0 <= i < prev.len() implies matches_query(#[trigger] prev[i], q) by {
            assert(prev[i] == items[i]);
        }
        lemma_matching_all(prev, q);
        assert(matches_query(items[items.len() - 1], q));
        assert(prev.push(items.last()) =~= items);
    }
}

/// The empty query, lower-cased to the empty text, matches every item, so a
/// search for it gives all the items sorted by name.
proof fn lemma_search_empty(items: Seq<ApiItemView>, q: Seq<char>)
    requires
        lowercase(q) == Seq::<char>::empty(),
    ensures
        spec_search(items, q) == sort_by_name(items),
        spec_search(items, q).len() == items.len(),
{
    assert forall|i: int| 0 <= i < items.len() implies matches_query(#[trigger] items[i], q) by {
        let s = lowercase(items[i].name);
        assert(s.subrange(0, 0) =~= Seq::<char>::empty());
        assert(occurs_at(s, lowercase(q), 0));
    }
    lemma_matching_all(items, q);
    lemma_sort_by_name(items);
}

/// The views of a sequence of item references.
pub open spec fn ref_views(v: Seq<&ApiItem>) -> Seq<ApiItemView> {
    v.map_values(|it: &ApiItem| it@)
}

proof fn lemma_insert_pos(s: Seq<ApiItemView>, x: ApiItemView, p: int)
    requires
        0 <= p <= s.len(),
        insert_pos(s, x) == insert_pos(s.take(p), x),
        p > 0,
        name_lt(x.name, s[p - 1].name),
    ensures
        insert_pos(s, x) == insert_pos(s.take(p - 1), x),
{
    assert(s.take(p).drop_last() =~= s.take(p - 1));
}

/// The items whose name, lower-cased, contains the lower-cased query, sorted
/// stably by name.
fn search_items<'a>(items: &'a Vec<ApiItem>, query: &str) -> (r: Vec<&'a ApiItem>)
    ensures
        ref_views(r@) == spec_search(item_views(items@), query@),
        query@.len() == 0 ==> ref_views(r@) == sort_by_name(item_views(items@)) && r@.len()
            == items@.len(),
{
    let ghost iv = item_views(items@);
    let qlow = str_lowercase(query);
    proof {
        if query@.len() == 0 {
            assert(query@ =~= Seq::<char>::empty());
            lemma_search_empty(iv, query@);
        }
    }
    let ql = str_chars(qlow.as_str());
    let mut r: Vec<&'a ApiItem> = Vec::new();
    let mut k: usize = 0;
    proof {
        assert(iv.take(0) =~= Seq::<ApiItemView>::empty());
        assert(ref_views(r@) =~= Seq::<ApiItemView>::empty());
    }
    while k < items.len()
        invariant
            0 <= k <= items@.len(),
            iv == item_views(items@),
            ql@ == lowercase(query@),
            ref_views(r@) == sort_by_name(matching(iv.take(k as int), query@)),
        decreases items.len() - k,
    {
        let ghost m = matching(iv.take(k as int), query@);
        proof {
            assert(iv.take(k + 1).drop_last() =~= iv.take(k as int));
            assert(iv.take(k + 1).last() == items@[k as int]@);
        }
        let nl = str_chars(str_lowercase(items[k].name.as_str()).as_str());
        if chars_contain(&nl, &ql) {
            let key = str_chars(items[k].name.as_str());
            let ghost x = items@[k as int]@;
            let ghost rv = ref_views(r@);
            let mut p: usize = r.len();
            proof {
                assert(rv.take(p as int) =~= rv);
            }
            while p > 0
                invariant
                    0 <= p <= r@.len(),
                    rv == ref_views(r@),
                    key@ == x.name,
                    insert_pos(rv, x) == insert_pos(rv.take(p as int), x),
                ensures
                    0 <= p <= r@.len(),
                    insert_pos(rv, x) == p,
                decreases p,
            {
                let other = str_chars(r[p - 1].name.as_str());
                proof {
                    assert(rv[p - 1] == r@[p - 1]@);
                }
                if !chars_lt(&key, &other) {
                    proof {
                        assert(rv.take(p as int).last() == rv[p - 1]);
                        assert(insert_pos(rv.take(p as int), x) == p);
                    }
                    break;
                }
                proof {
                    lemma_insert_pos(rv, x, p as int);
                }
                p = p - 1;
            }
            r.insert(p, &items[k]);
            proof {
                assert(ref_views(r@) =~= rv.insert(p as int, x));
                assert(matching(iv.take(k + 1), query@) == m.push(x));
                assert(m.push(x).drop_last() =~= m);
            }
        } else {
            proof {
                assert(matching(iv.take(k + 1), query@) == m);
            }
        }
        k = k + 1;
    }
    proof {
        assert(iv.take(items@.len() as int) =~= iv);
    }
    r
}

/// The first item named `name` among `items`.
fn find_item<'a>(items: &'a Vec<ApiItem>, name: &str) -> (r: Option<&'a ApiItem>)
    ensures
        match r {
            Some(it) => first_named(item_views(items@), name@, 0) < items@.len() && it@
                == item_views(items@)[first_named(item_views(items@), name@, 0)],
            None => first_named(item_views(items@), name@, 0) == items@.len(),
        },
{
    let n = str_chars(name);
    let k = find_named(items, &n);
    proof {
        lemma_first_named(item_views(items@), name@, 0);
    }
    if k < items.len() {
        Some(&items[k])
    } else {
        None
    }
}

/// A crate of the workspace as read from disk: its name, the text of its
/// manifest, and its source files as (path, text) pairs.
pub struct CrateSource {
    pub name: String,
    pub manifest: String,
    pub files: Vec<(String, String)>,
}

/// A crate source as character sequences.
pub struct CrateSourceView {
    pub name: Seq<char>,
    pub manifest: Seq<char>,
    pub files: Seq<(Seq<char>, Seq<char>)>,
}

/// The views of (path, text) pairs.
pub open spec fn pair_views(v: Seq<(String, String)>) -> Seq<(Seq<char>, Seq<char>)> {
    v.map_values(|p: (String, String)| (p.0@, p.1@))
}

impl View for CrateSource {
    type V = CrateSourceView;

    open spec fn view(&self) -> CrateSourceView {
        CrateSourceView { name: self.name@, manifest: self.manifest@, files: pair_views(self.files@) }
    }
}

/// The views of a sequence of crate sources.
pub open spec fn crate_views(v: Seq<CrateSource>) -> Seq<CrateSourceView> {
    v.map_values(|c: CrateSource| c@)
}

/// An in-memory index of the public API items of a workspace.
pub struct WorkspaceIndex {
    pub items: Vec<ApiItem>,
    /// Crate descriptions keyed by crate name, sorted by name, each name once.
    pub crate_descriptions: Vec<(String, String)>,
}

/// Whether the keys of a list of (key, value) pairs are strictly ascending.
pub open spec fn keys_sorted(s: Seq<(Seq<char>, Seq<char>)>) -> bool {
    forall|i: int, j: int| 0 <= i < j < s.len() ==> name_lt(#[trigger] s[i].0, #[trigger] s[j].0)
}

/// The position of the first pair whose key does not sort before `k`.
pub open spec fn key_pos(s: Seq<(Seq<char>, Seq<char>)>, k: Seq<char>, i: int) -> int
    decreases s.len() - i,
{
    if i < 0 || i >= s.len() {
        s.len() as int
    } else if name_lt(s[i].0, k) {
        key_pos(s, k, i + 1)
    } else {
        i
    }
}

/// The pairs after `k` is set to `v`, as a sorted map does: the value of an
/// existing key is replaced, a new key goes where it sorts.
pub open spec fn with_description(s: Seq<(Seq<char>, Seq<char>)>, k: Seq<char>, v: Seq<char>) -> Seq<
    (Seq<char>, Seq<char>),
> {
    let p = key_pos(s, k, 0);
    if p < s.len() && s[p].0 == k {
        s.update(p, (k, v))
    } else {
        s.insert(p, (k, v))
    }
}

/// The value stored under `k`, if any.
pub open spec fn description_of(s: Seq<(Seq<char>, Seq<char>)>, k: Seq<char>) -> Option<Seq<char>> {
    if exists|i: int| 0 <= i < s.len() && s[i].0 == k {
        Some(s[choose|i: int| 0 <= i < s.len() && s[i].0 == k].1)
    } else {
        None
    }
}

proof fn lemma_key_pos(s: Seq<(Seq<char>, Seq<char>)>, k: Seq<char>, i: int)
    requires
        0 <= i <= s.len(),
    ensures
        i <= key_pos(s, k, i) <= s.len(),
        forall|j: int| i <= j < key_pos(s, k, i) ==> name_lt(#[trigger] s[j].0, k),
        key_pos(s, k, i) < s.len() ==> !name_lt(s[key_pos(s, k, i)].0, k),
    decreases s.len() - i,
{
    if i < s.len() && name_lt(s[i].0, k) {
        lemma_key_pos(s, k, i + 1);
    }
}

/// Setting a description keeps the keys sorted, and afterwards the key maps
/// to the value set.
pub proof fn lemma_with_description(s: Seq<(Seq<char>, Seq<char>)>, k: Seq<char>, v: Seq<char>)
    requires
        keys_sorted(s),
    ensures
        keys_sorted(with_description(s, k, v)),
        description_of(with_description(s, k, v), k) == Some(v),
{
    lemma_key_pos(s, k, 0);
    let p = key_pos(s, k, 0);
    let r = with_description(s, k, v);
    if p < s.len() && s[p].0 == k {
        assert forall|i: int, j: int| 0 <= i < j < r.len() implies name_lt(
            #[trigger] r[i].0,
            #[trigger] r[j].0,
        ) by {
            assert(s[i].0 == r[i].0 && s[j].0 == r[j].0);
        }
        assert(r[p].0 == k);
        assert forall|i: int| 0 <= i < r.len() && r[i].0 == k implies i == p by {
            if i < p {
                lemma_name_lt_irreflexive(k);
                assert(name_lt(s[i].0, s[p].0));
            } else if i > p {
                lemma_name_lt_irreflexive(k);
                assert(name_lt(s[p].0, s[i].0));
            }
        }
    } else {
        if p < s.len() {
            lemma_name_lt_total(s[p].0, k);
        }
        assert forall|i: int, j: int| 0 <= i < j < r.len() implies name_lt(
            #[trigger] r[i].0,
            #[trigger] r[j].0,
        ) by {
            if j < p {
                assert(r[i] == s[i] && r[j] == s[j]);
            } else if j == p {
                assert(r[i] == s[i]);
            } else if i == p {
                assert(r[j] == s[j - 1]);
                if j - 1 > p {
                    assert(name_lt(s[p].0, s[j - 1].0));
                    lemma_name_lt_transitive(k, s[p].0, s[j - 1].0);
                }
            } else if i < p {
                assert(r[i] == s[i] && r[j] == s[j - 1]);
                if i < j - 1 {
                    assert(name_lt(s[i].0, s[j - 1].0));
                } else {
                    assert(i == j - 1);
                    assert(false);
                }
            } else {
                assert(r[i] == s[i - 1] && r[j] == s[j - 1]);
            }
        }
        assert(r[p].0 == k);
        assert forall|i: int| 0 <= i < r.len() && r[i].0 == k implies i == p by {
            lemma_name_lt_irreflexive(k);
            if i < p {
                assert(r[i] == s[i]);
            } else if i > p {
                assert(r[i] == s[i - 1]);
                if i - 1 > p {
                    assert(name_lt(s[p].0, s[i - 1].0));
                    lemma_name_lt_transitive(k, s[p].0, s[i - 1].0);
                }
            }
        }
    }
}

/// The views of description pairs.
pub open spec fn desc_views(v: Seq<(String, String)>) -> Seq<(Seq<char>, Seq<char>)> {
    pair_views(v)
}

/// Whether a crate is skipped: its manifest declares a binary and no library.
pub open spec fn skips_crate(manifest: Seq<char>) -> bool {
    !contains_seq(manifest, "[lib]"@) && contains_seq(manifest, "[[bin]]"@)
}

/// The items after the files of a crate are parsed in order; a file whose
/// trait bodies close more braces than they open adds nothing.
pub open spec fn parse_files(
    files: Seq<(Seq<char>, Seq<char>)>,
    crate_name: Seq<char>,
    items: Seq<ApiItemView>,
) -> Seq<ApiItemView>
    decreases files.len(),
{
    if files.len() == 0 {
        items
    } else {
        let prev = parse_files(files.drop_last(), crate_name, items);
        match spec_parse_source(files.last().1, crate_name, files.last().0, prev) {
            Some(next) => next,
            None => prev,
        }
    }
}

/// The items and descriptions after the crates are read in order.
pub open spec fn build_from(crates: Seq<CrateSourceView>) -> (Seq<ApiItemView>, Seq<(Seq<char>, Seq<char>)>)
    decreases crates.len(),
{
    if crates.len() == 0 {
        (Seq::empty(), Seq::empty())
    } else {
        let (items, descs) = build_from(crates.drop_last());
        let c = crates.last();
        if skips_crate(c.manifest) {
            (items, descs)
        } else {
            let descs2 = match spec_extract_description(c.manifest) {
                Some(d) => with_description(descs, c.name, d),
                None => descs,
            };
            (parse_files(c.files, c.name, items), descs2)
        }
    }
}

/// Whether every source text is short enough to be scanned.
pub open spec fn sources_fit(crates: Seq<CrateSourceView>) -> bool {
    forall|i: int, j: int|
        0 <= i < crates.len() && 0 <= j < crates[i].files.len() ==> #[trigger] crates[i].files[j].1.len()
            < usize::MAX - 2
}

/// The number of items of the crate named `name`.
pub open spec fn count_crate(items: Seq<ApiItemView>, name: Seq<char>) -> nat
    decreases items.len(),
{
    if items.len() == 0 {
        0
    } else {
        count_crate(items.drop_last(), name) + if items.last().crate_name == name {
            1nat
        } else {
            0nat
        }
    }
}

/// Whether an item lists `t` among its supertraits.
pub open spec fn lists_supertrait(t: Seq<char>) -> spec_fn(ApiItemView) -> bool {
    |x: ApiItemView| x.supertraits.contains(t)
}

/// The name of an item.
pub open spec fn item_name() -> spec_fn(ApiItemView) -> Seq<char> {
    |x: ApiItemView| x.name
}

/// Whether an item belongs to the crate named exactly `name`.
pub open spec fn in_crate(name: Seq<char>) -> spec_fn(ApiItemView) -> bool {
    |x: ApiItemView| x.crate_name == name
}

proof fn lemma_subtraits_of_filter(items: Seq<ApiItemView>, t: Seq<char>)
    ensures
        subtraits_of(items, t) == items.filter(lists_supertrait(t)).map_values(item_name()),
    decreases items.len(),
{
    reveal(Seq::filter);
    if items.len() > 0 {
        let prev = items.drop_last();
        lemma_subtraits_of_filter(prev, t);
        let f = prev.filter(lists_supertrait(t));
        if lists_supertrait(t)(items.last()) {
            assert(f.push(items.last()).map_values(item_name()) =~= f.map_values(item_name()).push(
                items.last().name,
            ));
        }
    }
}

/// The subtraits recorded for a trait are the names of the items that list
/// it as a supertrait: one entry per such item, in index order.
pub proof fn lemma_subtraits_recorded(items: Seq<ApiItemView>, j: int)
    requires
        0 <= j < items.len(),
        items[j].kind == "trait"@,
        first_named(items, items[j].name, 0) == j,
    ensures
        spec_cross_references(items)[j].subtraits == items.filter(lists_supertrait(items[j].name)).map_values(
            item_name(),
        ),
        spec_cross_references(items)[j].subtraits.len() == items.filter(lists_supertrait(items[j].name)).len(),
{
    assert(trait_named_before(items, items[j].name, items.len() as int));
    lemma_subtraits_of_filter(items, items[j].name);
}

/// The number of items counted for a crate is the number of items whose
/// crate name is exactly that name.
pub proof fn lemma_count_crate_exact(items: Seq<ApiItemView>, name: Seq<char>)
    ensures
        count_crate(items, name) == items.filter(in_crate(name)).len(),
    decreases items.len(),
{
    reveal(Seq::filter);
    if items.len() > 0 {
        lemma_count_crate_exact(items.drop_last(), name);
    }
}

proof fn lemma_matching_contains(items: Seq<ApiItemView>, q: Seq<char>, j: int)
    requires
        0 <= j < items.len(),
        matches_query(items[j], q),
    ensures
        matching(items, q).contains(items[j]),
    decreases items.len(),
{
    let prev = items.drop_last();
    let m = matching(prev, q);
    if j == items.len() - 1 {
        assert(matching(items, q) == m.push(items[j]));
        assert(matching(items, q)[m.len() as int] == items[j]);
    } else {
        assert(prev[j] == items[j]);
        lemma_matching_contains(prev, q, j);
        let w = choose|w: int| 0 <= w < m.len() && m[w] == items[j];
        if matches_query(items.last(), q) {
            assert(matching(items, q)[w] == m.push(items.last())[w]);
        }
        assert(matching(items, q)[w] == items[j]);
    }
}

proof fn lemma_sort_by_name_contains(s: Seq<ApiItemView>, y: ApiItemView)
    requires
        s.contains(y),
    ensures
        sort_by_name(s).contains(y),
    decreases s.len(),
{
    let prev = s.drop_last();
    let x = s.last();
    let r = sort_by_name(prev);
    lemma_sort_by_name(prev);
    let p = insert_pos(r, x);
    lemma_insert_pos_bounds(r, x);
    let r2 = r.insert(p, x);
    assert(sort_by_name(s) == r2);
    if y == x {
        assert(r2[p] == x);
    } else {
        let w = choose|w: int| 0 <= w < s.len() && s[w] == y;
        assert(prev[w] == y);
        lemma_sort_by_name_contains(prev, y);
        let v = choose|v: int| 0 <= v < r.len() && r[v] == y;
        if v < p {
            assert(r2[v] == y);
        } else {
            assert(r2[v + 1] == y);
        }
    }
}

/// Search finds exactly the items whose name contains the query, ignoring
/// case, at any position: an item whose lower-cased name holds the
/// lower-cased query at some position `k` is in the result, and every
/// result is an item of the index holding the query at some position.
pub proof fn lemma_search_substrings(items: Seq<ApiItemView>, q: Seq<char>, j: int, k: int)
    requires
        0 <= j < items.len(),
        0 <= k,
        k + lowercase(q).len() <= lowercase(items[j].name).len(),
        lowercase(items[j].name).subrange(k, k + lowercase(q).len()) == lowercase(q),
    ensures
        spec_search(items, q).contains(items[j]),
        forall|i: int|
            0 <= i < spec_search(items, q).len() ==> items.contains(#[trigger] spec_search(items, q)[i])
                && exists|p: int|
                0 <= p && p + lowercase(q).len() <= lowercase(spec_search(items, q)[i].name).len()
                    && #[trigger] lowercase(spec_search(items, q)[i].name).subrange(p, p + lowercase(q).len())
                    == lowercase(q),
{
    assert(occurs_at(lowercase(items[j].name), lowercase(q), k));
    assert(matches_query(items[j], q));
    lemma_matching_contains(items, q, j);
    lemma_sort_by_name_contains(matching(items, q), items[j]);
    lemma_search(items, q);
    assert forall|i: int| 0 <= i < spec_search(items, q).len() implies items.contains(
        #[trigger] spec_search(items, q)[i],
    ) && exists|p: int|
        0 <= p && p + lowercase(q).len() <= lowercase(spec_search(items, q)[i].name).len()
            && #[trigger] lowercase(spec_search(items, q)[i].name).subrange(p, p + lowercase(q).len())
            == lowercase(q) by {
        let x = spec_search(items, q)[i];
        assert(matches_query(x, q));
        let p = choose|p: int| occurs_at(lowercase(x.name), lowercase(q), p);
        assert(occurs_at(lowercase(x.name), lowercase(q), p));
    }
}

/// A crate whose manifest contains `[lib]`, or no `[[bin]]`, is read:
/// reading it after other crates parses its files after their items and
/// records its description, if it has one.
pub proof fn lemma_build_reads_library_crates(crates: Seq<CrateSourceView>, c: CrateSourceView)
    requires
        contains_seq(c.manifest, "[lib]"@) || !contains_seq(c.manifest, "[[bin]]"@),
    ensures
        build_from(crates.push(c)).0 == parse_files(c.files, c.name, build_from(crates).0),
        build_from(crates.push(c)).1 == match spec_extract_description(c.manifest) {
            Some(d) => with_description(build_from(crates).1, c.name, d),
            None => build_from(crates).1,
        },
{
    assert(crates.push(c).drop_last() =~= crates);
}

/// A crate whose manifest declares a binary and no library adds nothing.
pub proof fn lemma_build_skips_binary_crates(crates: Seq<CrateSourceView>, c: CrateSourceView)
    requires
        !contains_seq(c.manifest, "[lib]"@),
        contains_seq(c.manifest, "[[bin]]"@),
    ensures
        build_from(crates.push(c)) == build_from(crates),
{
    assert(crates.push(c).drop_last() =~= crates);
}

impl WorkspaceIndex {
    /// Whether the descriptions are sorted by crate name, each name once.
    pub open spec fn wf(&self) -> bool {
        keys_sorted(desc_views(self.crate_descriptions@))
    }

    /// Sets the description of crate `name`, replacing an earlier one.
    pub fn set_description(&mut self, name: String, desc: String)
        requires
            old(self).wf(),
        ensures
            final(self).wf(),
            item_views(final(self).items@) == item_views(old(self).items@),
            desc_views(final(self).crate_descriptions@) == with_description(
                desc_views(old(self).crate_descriptions@),
                name@,
                desc@,
            ),
    {
        let ghost s = desc_views(self.crate_descriptions@);
        let key = str_chars(name.as_str());
        let mut p: usize = 0;
        proof {
            lemma_key_pos(s, name@, 0);
        }
        while p < self.crate_descriptions.len()
            invariant
                0 <= p <= s.len(),
                s == desc_views(self.crate_descriptions@),
                key@ == name@,
                key_pos(s, name@, 0) == key_pos(s, name@, p as int),
            ensures
                0 <= p <= s.len(),
                s == desc_views(self.crate_descriptions@),
                key_pos(s, name@, 0) == p,
            decreases self.crate_descriptions.len() - p,
        {
            let other = str_chars(self.crate_descriptions[p].0.as_str());
            proof {
                assert(s[p as int].0 == self.crate_descriptions@[p as int].0@);
            }
            if !chars_lt(&other, &key) {
                break;
            }
            p = p + 1;
            proof {
                if p == s.len() {
                    assert(key_pos(s, name@, p as int) == p);
                }
            }
        }
        let ghost rv = with_description(s, name@, desc@);
        if p < self.crate_descriptions.len() && chars_eq(
            &str_chars(self.crate_descriptions[p].0.as_str()),
            &key,
        ) {
            proof {
                assert(s[p as int].0 == self.crate_descriptions@[p as int].0@);
            }
            self.crate_descriptions.set(p, (name, desc));
            proof {
                assert(desc_views(self.crate_descriptions@) =~= rv);
            }
        } else {
            proof {
                if p < s.len() {
                    assert(s[p as int].0 == self.crate_descriptions@[p as int].0@);
                }
            }
            self.crate_descriptions.insert(p, (name, desc));
            proof {
                assert(desc_views(self.crate_descriptions@) =~= rv);
            }
        }
        proof {
            lemma_with_description(s, name@, desc@);
        }
    }

    /// Builds the index from the crates of a workspace: crates that declare
    /// a binary and no library are skipped; of the others the description is
    /// recorded and every source file parsed; then the trait cross
    /// references are recorded.
    pub fn build(crates: &Vec<CrateSource>) -> (r: WorkspaceIndex)
        requires
            sources_fit(crate_views(crates@)),
        ensures
            r.wf(),
            item_views(r.items@) == spec_cross_references(build_from(crate_views(crates@)).0),
            desc_views(r.crate_descriptions@) == build_from(crate_views(crates@)).1,
    {
        let ghost cv = crate_views(crates@);
        let mut index = WorkspaceIndex { items: Vec::new(), crate_descriptions: Vec::new() };
        let lib = str_chars("[lib]");
        let bin = str_chars("[[bin]]");
        let mut c: usize = 0;
        proof {
            assert(cv.take(0) =~= Seq::<CrateSourceView>::empty());
            assert(item_views(index.items@) =~= Seq::<ApiItemView>::empty());
            assert(desc_views(index.crate_descriptions@) =~= Seq::<(Seq<char>, Seq<char>)>::empty());
        }
        while c < crates.len()
            invariant
                0 <= c <= crates@.len(),
                cv == crate_views(crates@),
                sources_fit(cv),
                lib@ == "[lib]"@,
                bin@ == "[[bin]]"@,
                index.wf(),
                (item_views(index.items@), desc_views(index.crate_descriptions@)) == build_from(
                    cv.take(c as int),
                ),
            decreases crates.len() - c,
        {
            let cr = &crates[c];
            proof {
                assert(cv.take(c + 1).drop_last() =~= cv.take(c as int));
                assert(cv.take(c + 1).last() == cr@);
            }
            let manifest = str_chars(cr.manifest.as_str());
            if !chars_contain(&manifest, &lib) && chars_contain(&manifest, &bin) {
            } else {
                match extract_description(&manifest) {
                    Some(d) => {
                        let n = chars_string(&str_chars(cr.name.as_str()));
                        index.set_description(n, chars_string(&d));
                    },
                    None => {},
                }
                let mut f: usize = 0;
                let ghost start = item_views(index.items@);
                let ghost descs = desc_views(index.crate_descriptions@);
                let ghost fv = cr@.files;
                proof {
                    assert(fv.take(0) =~= Seq::<(Seq<char>, Seq<char>)>::empty());
                }
                while f < cr.files.len()
                    invariant
                        0 <= f <= cr.files@.len(),
                        fv == pair_views(cr.files@),
                        forall|j: int| 0 <= j < fv.len() ==> #[trigger] fv[j].1.len() < usize::MAX - 2,
                        item_views(index.items@) == parse_files(fv.take(f as int), cr.name@, start),
                        index.wf(),
                        descs == desc_views(index.crate_descriptions@),
                    decreases cr.files.len() - f,
                {
                    proof {
                        assert(fv.take(f + 1).drop_last() =~= fv.take(f as int));
                        assert(fv.take(f + 1).last() == fv[f as int]);
                        assert(fv[f as int] == (cr.files@[f as int].0@, cr.files@[f as int].1@));
                        assert(fv[f as int].1.len() < usize::MAX - 2);
                    }
                    let _ok = parse_source(
                        cr.files[f].1.as_str(),
                        cr.name.as_str(),
                        cr.files[f].0.as_str(),
                        &mut index.items,
                    );
                    f = f + 1;
                }
                proof {
                    assert(fv.take(fv.len() as int) =~= fv);
                }
            }
            c = c + 1;
        }
        build_cross_references(&mut index.items);
        proof {
            assert(cv.take(cv.len() as int) =~= cv);
        }
        index
    }

    /// The items whose name contains the query, ignoring case, sorted by name;
    /// items of equal names keep their order.
    pub fn search(&self, query: &str) -> (r: Vec<&ApiItem>)
        ensures
            ref_views(r@) == spec_search(item_views(self.items@), query@),
            query@.len() == 0 ==> ref_views(r@) == sort_by_name(item_views(self.items@))
                && r@.len() == self.items@.len(),
    {
        search_items(&self.items, query)
    }

    /// The first item with exactly the name `name`.
    pub fn find(&self, name: &str) -> (r: Option<&ApiItem>)
        ensures
            match r {
                Some(it) => first_named(item_views(self.items@), name@, 0) < self.items@.len()
                    && it@ == item_views(self.items@)[first_named(item_views(self.items@), name@, 0)],
                None => first_named(item_views(self.items@), name@, 0) == self.items@.len(),
            },
    {
        find_item(&self.items, name)
    }

    /// The number of items that belong to the crate named `name`.
    pub fn crate_item_count(&self, name: &str) -> (r: usize)
        ensures
            r == count_crate(item_views(self.items@), name@),
    {
        let ghost iv = item_views(self.items@);
        let n = str_chars(name);
        let mut count: usize = 0;
        let mut k: usize = 0;
        proof {
            assert(iv.take(0) =~= Seq::<ApiItemView>::empty());
        }
        while k < self.items.len()
            invariant
                0 <= k <= self.items@.len(),
                iv == item_views(self.items@),
                n@ == name@,
                count == count_crate(iv.take(k as int), name@),
                count <= k,
            decreases self.items.len() - k,
        {
            proof {
                assert(iv.take(k + 1).drop_last() =~= iv.take(k as int));
                assert(iv.take(k + 1).last() == self.items@[k as int]@);
            }
            if chars_eq(&str_chars(self.items[k].crate_name.as_str()), &n) {
                count = count + 1;
            }
            k = k + 1;
        }
        proof {
            assert(iv.take(iv.len() as int) =~= iv);
        }
        count
    }
}

} // verus!
