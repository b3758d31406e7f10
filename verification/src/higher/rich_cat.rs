//! A 2-category of functions whose 2-morphisms carry a label recording how
//! they were built.
use vstd::prelude::*;
use vstd::string::StringExecFns;
use super::bicategory::Bicategory;
use super::two_category::{TwoCategory, composes_fn, is_identity, total};

verus! {

/// A labelled 2-morphism.
#[derive(Debug)]
pub struct TwoCell {
    label: String,
}

/// Two cells are equal when their labels are.
impl PartialEq for TwoCell {
    fn eq(&self, other: &Self) -> (r: bool) {
        self.label == other.label
    }
}

impl vstd::std_specs::cmp::PartialEqSpecImpl for TwoCell {
    open spec fn obeys_eq_spec() -> bool {
        true
    }

    open spec fn eq_spec(&self, other: &TwoCell) -> bool {
        self.label_view() == other.label_view()
    }
}

impl Eq for TwoCell {

}

/// A copy of a cell carries the same label.
impl Clone for TwoCell {
    fn clone(&self) -> (r: Self)
        ensures
            r.label_view() == self.label_view(),
    {
        TwoCell { label: self.label.clone() }
    }
}

impl TwoCell {
    /// The label.
    pub closed spec fn label_view(&self) -> Seq<char> {
        self.label@
    }

    /// A 2-cell with the given label.
    pub fn new(label: &str) -> (r: Self)
        ensures
            r.label_view() == label@,
    {
        TwoCell { label: label.to_owned() }
    }

    /// The label.
    pub fn label(&self) -> (r: &str)
        ensures
            r@ == self.label_view(),
    {
        self.label.as_str()
    }
}

/// The label of the vertical composite of cells labelled `a` and `b`.
pub open spec fn composite_label(a: Seq<char>, b: Seq<char>) -> Seq<char> {
    a + ";"@ + b
}

/// Vertical composition of labels is associative.
pub proof fn lemma_composite_label_associative(a: Seq<char>, b: Seq<char>, c: Seq<char>)
    ensures
        composite_label(composite_label(a, b), c) == composite_label(a, composite_label(b, c)),
{
    assert(composite_label(composite_label(a, b), c) =~= composite_label(a, composite_label(b, c)));
}

/// The 2-category of functions whose 2-morphisms are labelled cells.
pub struct RichCat;

impl RichCat {
    /// The identity morphism.
    pub fn id1<A>() -> (r: impl Fn(A) -> A)
        ensures
            total(r),
            is_identity(r),
    {
        |a: A| -> (b: A)
            ensures
                b == a,
            { a }
    }

    /// `f` followed by `g`.
    pub fn compose1<A, B, C, F: Fn(A) -> B, G: Fn(B) -> C>(f: F, g: G) -> (r: impl Fn(A) -> C)
        requires
            total(f),
            total(g),
        ensures
            total(r),
            composes_fn(r, f, g),
    {
        move |a: A| -> (c: C)
            requires
                total(&f),
                total(&g),
            ensures
                exists|b: B| call_ensures(&f, (a,), b) && call_ensures(&g, (b,), c),
            {
                let b = f(a);
                g(b)
            }
    }

    /// The identity 2-morphism, labelled `id`.
    pub fn id2() -> (r: TwoCell)
        ensures
            r.label_view() == "id"@,
    {
        TwoCell::new("id")
    }

    /// Vertical composition: the labels joined by `;`.
    pub fn compose2_vertical(alpha: TwoCell, beta: TwoCell) -> (r: TwoCell)
        ensures
            r.label_view() == composite_label(alpha.label_view(), beta.label_view()),
    {
        let mut label = alpha.label;
        label.append(";");
        label.append(beta.label.as_str());
        TwoCell { label }
    }

    /// The associator, labelled `associator`.
    pub fn associator<A, B, C, D>() -> (r: TwoCell)
        ensures
            r.label_view() == "associator"@,
    {
        TwoCell::new("associator")
    }

    /// The left unitor, labelled `left_unitor`.
    pub fn left_unitor<A, B>() -> (r: TwoCell)
        ensures
            r.label_view() == "left_unitor"@,
    {
        TwoCell::new("left_unitor")
    }

    /// The right unitor, labelled `right_unitor`.
    pub fn right_unitor<A, B>() -> (r: TwoCell)
        ensures
            r.label_view() == "right_unitor"@,
    {
        TwoCell::new("right_unitor")
    }
}

impl TwoCategory for RichCat {
    type TwoMorphism = TwoCell;

    /// The identity 2-morphism, labelled `id`.
    fn id2() -> (r: Self::TwoMorphism)
        ensures
            r.label_view() == "id"@,
    {
        RichCat::id2()
    }

    /// Vertical composition: the labels joined by `;`.
    fn compose2_vertical(alpha: Self::TwoMorphism, beta: Self::TwoMorphism) -> (r: Self::TwoMorphism)
        ensures
            r.label_view() == composite_label(alpha.label_view(), beta.label_view()),
    {
        RichCat::compose2_vertical(alpha, beta)
    }
}

impl Bicategory for RichCat {
    /// The associator, labelled `associator`.
    fn associator<A, B, C, D>() -> (r: Self::TwoMorphism)
        ensures
            r.label_view() == "associator"@,
    {
        RichCat::associator::<A, B, C, D>()
    }

    /// The left unitor, labelled `left_unitor`.
    fn left_unitor<A, B>() -> (r: Self::TwoMorphism)
        ensures
            r.label_view() == "left_unitor"@,
    {
        RichCat::left_unitor::<A, B>()
    }

    /// The right unitor, labelled `right_unitor`.
    fn right_unitor<A, B>() -> (r: Self::TwoMorphism)
        ensures
            r.label_view() == "right_unitor"@,
    {
        RichCat::right_unitor::<A, B>()
    }
}

} // verus!
