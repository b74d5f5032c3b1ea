//! Classification of algebraic structures from declared capabilities.
//!
//! A set of values (a [`Parent`] and its [`Element`] type) is equipped with
//! binary operations, each named by an operator tag. From a handful of
//! capabilities that are declared one by one, the lattice of structures from
//! magma to field is derived: a parent is a member of a structure as soon as
//! it has the capabilities that the structure asks for, and no structure is
//! ever declared by hand.
//!
//! To declare a capability is to claim a law, and the lattice takes the claim
//! at its word. Each capability offers predicates that test its law on given
//! elements: their contracts say for every claim, true or false, what they
//! answer. Next to each capability stands a law trait, whose proof function
//! is the law itself: to implement it is to prove the claim. The module
//! [`laws`] draws the consequences: what the lattice calls a group, and whose
//! claims are proved, satisfies the laws of a group and of every structure
//! below. Code that is not verified implements the ghost functions of a trait
//! (the `_spec` twins) with bodies that are never run.
//!
//! The module [`wrapping`] holds the rings of the primitive integers with
//! wrapping arithmetic, and [`wrapper`] an adapter that lets expressions over
//! elements be written with the infix operators.
pub mod laws;
pub mod operator;
pub mod ops;
pub mod properties;
pub mod structures;
pub mod wrapper;
pub mod wrapping;

pub use operator::{Additive, Multiplicative, Operation, Operator, TwoSidedInverse};
pub use properties::grouplike::{
    Associative, AssociativeLaw, Commutative, CommutativeLaw, Divisible, DivisibleLaw, Identity,
    IdentityLaw, IsIdentity, IsIdentityLaw, One, Zero,
};
pub use properties::ringlike::{Distributive, DistributiveLaw};
pub use structures::grouplike::{
    AbstractGroup, AbstractGroupAbelian, AbstractGroupAbelianElement, AbstractGroupElement,
    AbstractLoop, AbstractLoopElement, AbstractMagma, AbstractMagmaElement, AbstractMonoid,
    AbstractMonoidElement, AbstractQuasigroup, AbstractQuasigroupElement, AbstractSemigroup,
    AbstractSemigroupElement, Elem, Element, Par, Parent,
};
pub use structures::ringlike::{
    AbstractField, AbstractFieldElement, AbstractNCRing, AbstractNCRingElement, AbstractRing,
    AbstractRingElement,
};
pub use structures::specialized::grouplike::{
    AddMagmaOps, AddQuasigroupOps, AdditiveGroup, AdditiveGroupAbelian,
    AdditiveGroupAbelianElement, AdditiveGroupElement, AdditiveLoop, AdditiveLoopElement,
    AdditiveMagma, AdditiveMagmaElement, AdditiveMonoid, AdditiveMonoidElement,
    AdditiveQuasigroup, AdditiveQuasigroupElement, AdditiveSemigroup, AdditiveSemigroupElement,
    MultiplicativeGroup, MultiplicativeGroupAbelian, MultiplicativeGroupAbelianElement,
    MultiplicativeGroupElement, MultiplicativeLoop, MultiplicativeLoopElement,
    MultiplicativeMagma, MultiplicativeMagmaElement, MultiplicativeMonoid,
    MultiplicativeMonoidElement, MultiplicativeQuasigroup, MultiplicativeQuasigroupElement,
    MultiplicativeSemigroup, MultiplicativeSemigroupElement,
};
pub use structures::specialized::mat::{MatrixSpace, MatrixSpaceElement};
pub use structures::specialized::poly::{PolynomialRing, PolynomialRingElement};
pub use structures::specialized::ringlike::{
    Field, FieldElement, FieldOps, NCRing, NCRingElement, Ring, RingElement, RingOps,
};
