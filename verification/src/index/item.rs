//! The entries of the index and their mathematical view.
use vstd::prelude::*;

verus! {

/// An item in the API index.
#[derive(Debug)]
pub struct ApiItem {
    pub name: String,
    pub kind: &'static str,
    pub crate_name: String,
    pub path: String,
    pub signature: Option<String>,
    pub docs: Option<String>,
    pub summary: Option<String>,
    pub supertraits: Vec<String>,
    pub subtraits: Vec<String>,
    pub methods: Vec<String>,
    pub implementors: Vec<String>,
    pub trait_impls: Vec<String>,
}

/// An index entry as character sequences.
pub struct ApiItemView {
    pub name: Seq<char>,
    pub kind: Seq<char>,
    pub crate_name: Seq<char>,
    pub path: Seq<char>,
    pub signature: Option<Seq<char>>,
    pub docs: Option<Seq<char>>,
    pub summary: Option<Seq<char>>,
    pub supertraits: Seq<Seq<char>>,
    pub subtraits: Seq<Seq<char>>,
    pub methods: Seq<Seq<char>>,
    pub implementors: Seq<Seq<char>>,
    pub trait_impls: Seq<Seq<char>>,
}

/// The views of a sequence of strings.
pub open spec fn string_views(v: Seq<String>) -> Seq<Seq<char>> {
    v.map_values(|s: String| s@)
}

/// The view of an optional string.
pub open spec fn opt_view(o: Option<String>) -> Option<Seq<char>> {
    match o {
        Some(s) => Some(s@),
        None => None,
    }
}

impl View for ApiItem {
    type V = ApiItemView;

    open spec fn view(&self) -> ApiItemView {
        ApiItemView {
            name: self.name@,
            kind: self.kind@,
            crate_name: self.crate_name@,
            path: self.path@,
            signature: opt_view(self.signature),
            docs: opt_view(self.docs),
            summary: opt_view(self.summary),
            supertraits: string_views(self.supertraits@),
            subtraits: string_views(self.subtraits@),
            methods: string_views(self.methods@),
            implementors: string_views(self.implementors@),
            trait_impls: string_views(self.trait_impls@),
        }
    }
}

/// The views of a sequence of items.
pub open spec fn item_views(v: Seq<ApiItem>) -> Seq<ApiItemView> {
    v.map_values(|it: ApiItem| it@)
}

/// A copy of a vector of strings.
pub fn copy_strings(v: &Vec<String>) -> (r: Vec<String>)
    ensures
        string_views(r@) == string_views(v@),
{
    let mut r: Vec<String> = Vec::new();
    let mut k: usize = 0;
    while k < v.len()
        invariant
            0 <= k <= v@.len(),
            string_views(r@) == string_views(v@).subrange(0, k as int),
        decreases v.len() - k,
    {
        let s = v[k].clone();
        proof {
            assert(string_views(r@.push(s)) =~= string_views(r@).push(s@));
            assert(string_views(v@).subrange(0, k + 1) =~= string_views(v@).subrange(0, k as int).push(v@[k as int]@));
        }
        r.push(s);
        k = k + 1;
    }
    proof {
        assert(string_views(v@).subrange(0, v@.len() as int) =~= string_views(v@));
    }
    r
}

/// A copy of an optional string.
pub fn copy_opt(o: &Option<String>) -> (r: Option<String>)
    ensures
        opt_view(r) == opt_view(*o),
{
    match o {
        Some(s) => Some(s.clone()),
        None => None,
    }
}

impl ApiItem {
    /// A copy of this item.
    pub fn copy(&self) -> (r: ApiItem)
        ensures
            r@ == self@,
    {
        ApiItem {
            name: self.name.clone(),
            kind: self.kind,
            crate_name: self.crate_name.clone(),
            path: self.path.clone(),
            signature: copy_opt(&self.signature),
            docs: copy_opt(&self.docs),
            summary: copy_opt(&self.summary),
            supertraits: copy_strings(&self.supertraits),
            subtraits: copy_strings(&self.subtraits),
            methods: copy_strings(&self.methods),
            implementors: copy_strings(&self.implementors),
            trait_impls: copy_strings(&self.trait_impls),
        }
    }
}

/// A copy of a vector of items.
pub fn copy_items(v: &Vec<ApiItem>) -> (r: Vec<ApiItem>)
    ensures
        item_views(r@) == item_views(v@),
{
    let mut r: Vec<ApiItem> = Vec::new();
    let mut k: usize = 0;
    while k < v.len()
        invariant
            0 <= k <= v@.len(),
            item_views(r@) == item_views(v@).subrange(0, k as int),
        decreases v.len() - k,
    {
        let it = v[k].copy();
        proof {
            assert(item_views(r@.push(it)) =~= item_views(r@).push(it@));
            assert(item_views(v@).subrange(0, k + 1) =~= item_views(v@).subrange(0, k as int).push(v@[k as int]@));
        }
        r.push(it);
        k = k + 1;
    }
    proof {
        assert(item_views(v@).subrange(0, v@.len() as int) =~= item_views(v@));
    }
    r
}

} // verus!
