//! Coherence witnesses for 2-categories and bicategories: the interchange
//! law, and the pentagon and triangle identities.
use vstd::prelude::*;
use crate::witness::rewrite::{Justifies, Rewrite};

verus! {

/// The interchange law of horizontal and vertical composition.
pub struct InterchangeIdentity;

impl Justifies<(), ()> for InterchangeIdentity {}

/// A witness of the interchange law.
pub fn verify_interchange() -> Rewrite<(), (), InterchangeIdentity> {
    Rewrite::witness()
}

/// The pentagon identity for the associator of a bicategory.
pub struct BicategoryPentagonIdentity;

impl Justifies<(), ()> for BicategoryPentagonIdentity {}

/// A witness of the pentagon identity.
pub fn verify_bicategory_pentagon() -> Rewrite<(), (), BicategoryPentagonIdentity> {
    Rewrite::witness()
}

/// The triangle identity relating the associator and the unitors.
pub struct BicategoryTriangleIdentity;

impl Justifies<(), ()> for BicategoryTriangleIdentity {}

/// A witness of the triangle identity.
pub fn verify_bicategory_triangle() -> Rewrite<(), (), BicategoryTriangleIdentity> {
    Rewrite::witness()
}

} // verus!
