use karpal::witness::rewrite::{
    AssocLeft, AssocRight, ByAnnihilation, ByAssociativity, ByCommutativity, ByDistribution,
    ByIdentity, ByInverse, BySymmetry, ByTransitivity, CombineAB, CombineBA, Distributed,
    Identity, JustA, Rewrite, Undistributed, WithIdentity, WithInverse, Zero, ZeroTimes,
};

#[test]
fn associativity_rewrite() {
    let _: Rewrite<AssocLeft, AssocRight, ByAssociativity> = Rewrite::witness();
    let _: Rewrite<AssocRight, AssocLeft, ByAssociativity> = Rewrite::witness();
}

#[test]
fn commutativity_rewrite() {
    let _: Rewrite<CombineAB, CombineBA, ByCommutativity> = Rewrite::witness();
}

#[test]
fn identity_rewrite() {
    let _: Rewrite<WithIdentity, JustA, ByIdentity> = Rewrite::witness();
    let _: Rewrite<JustA, WithIdentity, ByIdentity> = Rewrite::witness();
}

#[test]
fn inverse_rewrite() {
    let _: Rewrite<WithInverse, Identity, ByInverse> = Rewrite::witness();
}

#[test]
fn distribution_rewrite() {
    let _: Rewrite<Undistributed, Distributed, ByDistribution> = Rewrite::witness();
}

#[test]
fn annihilation_rewrite() {
    let _: Rewrite<ZeroTimes, Zero, ByAnnihilation> = Rewrite::witness();
}

#[test]
fn symmetry() {
    let step: Rewrite<AssocLeft, AssocRight, ByAssociativity> = Rewrite::witness();
    let _back: Rewrite<AssocRight, AssocLeft, BySymmetry<ByAssociativity>> = step.sym();
}

#[test]
fn transitivity_chain() {
    let step1: Rewrite<WithIdentity, JustA, ByIdentity> = Rewrite::witness();
    let step2: Rewrite<JustA, WithIdentity, ByIdentity> = Rewrite::witness();
    let _chained: Rewrite<WithIdentity, WithIdentity, ByTransitivity<ByIdentity, ByIdentity, JustA>> =
        step1.and_then(step2);
}

#[test]
fn three_step_chain() {
    let s1: Rewrite<WithInverse, Identity, ByInverse> = Rewrite::witness();
    let s2: Rewrite<Identity, WithInverse, ByInverse> = Rewrite::witness();
    let s3: Rewrite<WithInverse, Identity, ByInverse> = Rewrite::witness();
    let _: Rewrite<
        WithInverse,
        Identity,
        ByTransitivity<ByTransitivity<ByInverse, ByInverse, Identity>, ByInverse, WithInverse>,
    > = s1.and_then(s2).and_then(s3);
}
