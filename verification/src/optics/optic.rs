//! The family of optics.
use vstd::prelude::*;
use super::fold::Fold;
use super::getter::Getter;
use super::iso::Iso;
use super::lens::Lens;
use super::modify::Modify;
use super::prism::Prism;
use super::review::Review;
use super::setter::Setter;
use super::traversal::Traversal;

verus! {

/// Marker trait for all optics, unifying the optic family under one
/// taxonomy.
pub trait Optic {}

impl<S, T, A, B, G: Fn(&S) -> A, St: Fn(S, B) -> T> Optic for Lens<S, T, A, B, G, St> {}

impl<S, T, A, B, M: Fn(S) -> Result<A, T>, Bd: Fn(B) -> T> Optic for Prism<S, T, A, B, M, Bd> {}

impl<S, T, A, B, Fw: Fn(&S) -> A, Bw: Fn(B) -> T> Optic for Iso<S, T, A, B, Fw, Bw> {}

impl<S, A, G: Fn(&S) -> A> Optic for Getter<S, A, G> {}

impl<T, B, Bd: Fn(B) -> T> Optic for Review<T, B, Bd> {}

impl<S, T, A, B, M: Modify<S, T, A, B>> Optic for Setter<S, T, A, B, M> {}

impl<S, A, G: Fn(&S) -> Vec<A>> Optic for Fold<S, A, G> {}

impl<S, T, A, B, G: Fn(&S) -> Vec<A>, M: Modify<S, T, A, B>> Optic for Traversal<S, T, A, B, G, M> {}

} // verus!
