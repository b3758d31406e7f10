# karpal

Algebraic structures, profunctor optics and law witnesses, written in Verus
with their contracts and laws proved.

## Layout

- `src/algebra.rs` — semigroups, monoids, groups, semirings, rings, fields
  and lattices, with their laws stated on the values' views; instances for
  `String` and `bool`.
- `src/optics/` — lenses, prisms, isomorphisms, getters, reviews, setters,
  folds and traversals over closures, their composition and conversions,
  and the laws that composition and conversion keep (`lens.rs`,
  `modify.rs`, `prism.rs`, `iso.rs`).
- `src/profunctor/` — the function, forgetful and tagged profunctors.
- `src/witness/` — runtime law checks, property markers and their
  implications, rewrite witnesses, proven values and refinement types
  (non-empty vectors, positive numbers).
- `src/higher/` — 2-categories, bicategories, enriched categories and
  functors between 2-categories, with coherence witnesses.
- `src/recursion/` — the `Either` sum type.
- `src/index/` — an index of the public items of a Rust workspace: a
  line-oriented recogniser of items in source text, trait cross references,
  lookup and case-insensitive search.
- `app/main.rs` — the command line around the index: it walks the
  workspace, reads the files and prints results as text or JSON.
- `tests/` — tests on concrete values.

## Left out

These parts of the design are not in this crate, for the reasons given:

- Free constructions (free monads and applicatives, cofree comonads,
  Yoneda, Coyoneda, Day convolution, Kan extensions),
  the recursion schemes over `Fix` and `Nu`, and the profunctor trait
  hierarchy (`Profunctor`, `Strong`, `Choice` and the like) are generic over
  type constructors through generic associated types with type parameters;
  Verus supports generic associated types only over lifetimes. The same
  holds for the morphism part of `TwoCategory` and `FFunctor` and for
  `EnrichedCategory`'s hom-objects: here the 2-cells, coherence witnesses
  and the concrete profunctors (`FnP`, `Forget`, `Tagged`) stand on their
  own.
- The certificates that check the coherence of the 2-categories against an
  outside proof-checking crate: that crate is not available to this build.
- The derive macros that generate law checks for a type: a derive is a
  procedural macro, which this crate does not define; the law checks they
  call are in `src/witness/law_check.rs`.
- Floating-point instances (`Positive<f32>`, `Positive<f64>`, proven field
  values over floats): Verus does not reason about floating point.
- Building a `Proven` value without a proof: it rests on `unsafe`, which
  this crate does not use.
