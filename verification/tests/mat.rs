use inertia_algebra::wrapping::{Wrap, WrappingRing};
use inertia_algebra::{
    AbstractGroupAbelian, Additive, AdditiveGroupAbelian, Associative, Commutative, Divisible,
    Element, Identity, IsIdentity, MatrixSpace, MatrixSpaceElement, Operation, Parent,
    TwoSidedInverse,
};
use std::ops::{Add, Neg, Sub};

type Base = WrappingRing<i8>;
type Entry = Wrap<i8>;

// Matrices of two rows and three columns over the signed bytes, stored row
// by row.

const ROWS: usize = 2;
const COLS: usize = 3;

#[derive(Clone, Debug)]
struct Matrices {
    base: Base,
    nrows: usize,
    ncols: usize,
}

#[derive(Clone, Debug, PartialEq, Eq)]
struct Matrix {
    entries: Vec<i8>,
}

impl PartialEq for Matrices {
    fn eq(&self, other: &Self) -> bool {
        self.nrows == other.nrows && self.ncols == other.ncols
    }
}

impl Parent for Matrices {
    type Element = Matrix;
}

impl Element for Matrix {
    type Parent = Matrices;

    fn parent_spec(&self) -> Matrices {
        unreachable!()
    }

    fn parent(&self) -> Matrices {
        Matrices { base: Base::init(), nrows: ROWS, ncols: COLS }
    }
}

impl Operation<Additive> for Matrix {
    fn operate_spec(&self, _right: &Self) -> Self {
        unreachable!()
    }

    fn operate(&self, right: &Self) -> Self {
        let entries = self
            .entries
            .iter()
            .zip(right.entries.iter())
            .map(|(a, b)| Wrap(*a).op(Additive, &Wrap(*b)).0)
            .collect();
        Matrix { entries }
    }
}

impl TwoSidedInverse<Additive> for Matrix {
    fn two_sided_inverse_spec(&self) -> Self {
        unreachable!()
    }

    fn two_sided_inverse(&self) -> Self {
        Matrix { entries: self.entries.iter().map(|a| Wrap(*a).two_sided_inverse().0).collect() }
    }
}

impl Identity<Additive> for Matrices {
    fn identity_spec(&self) -> Matrix {
        unreachable!()
    }

    fn identity(&self) -> Matrix {
        Matrix { entries: vec![0; self.nrows * self.ncols] }
    }
}

impl IsIdentity<Additive> for Matrix {
    fn is_identity_spec(&self) -> bool {
        unreachable!()
    }

    fn is_identity(&self) -> bool {
        self.entries.iter().all(|a| *a == 0)
    }
}

impl Associative<Additive> for Matrices {}

impl Commutative<Additive> for Matrices {}

impl Divisible<Additive> for Matrices {}

impl Add for Matrix {
    type Output = Self;

    fn add(self, rhs: Self) -> Self {
        self.op(Additive, &rhs)
    }
}

impl Neg for Matrix {
    type Output = Self;

    fn neg(self) -> Self {
        self.two_sided_inverse()
    }
}

impl Sub for Matrix {
    type Output = Self;

    fn sub(self, rhs: Self) -> Self {
        self.op(Additive, &rhs.two_sided_inverse())
    }
}

impl MatrixSpace<Base> for Matrices {
    type Element = Matrix;

    fn base_ring_spec(&self) -> Base {
        unreachable!()
    }

    fn nrows_spec(&self) -> usize {
        unreachable!()
    }

    fn ncols_spec(&self) -> usize {
        unreachable!()
    }

    fn init<D: Into<u64>>(ring: &Base, nrows: D, ncols: D) -> Self {
        Matrices { base: ring.clone(), nrows: nrows.into() as usize, ncols: ncols.into() as usize }
    }

    fn base_ring(&self) -> &Base {
        &self.base
    }

    fn nrows(&self) -> usize {
        self.nrows
    }

    fn ncols(&self) -> usize {
        self.ncols
    }
}

impl MatrixSpaceElement<Base> for Matrix {
    fn base_ring_spec(&self) -> Base {
        unreachable!()
    }

    fn nrows_spec(&self) -> usize {
        unreachable!()
    }

    fn ncols_spec(&self) -> usize {
        unreachable!()
    }

    fn entry_spec(&self, _i: usize, _j: usize) -> Entry {
        unreachable!()
    }

    fn entries_spec(&self) -> Vec<Entry> {
        unreachable!()
    }

    fn base_ring(&self) -> &Base {
        &WrappingRing(std::marker::PhantomData)
    }

    fn len(&self) -> usize {
        self.entries.len()
    }

    fn nrows(&self) -> usize {
        ROWS
    }

    fn ncols(&self) -> usize {
        COLS
    }

    fn get_entry(&self, i: usize, j: usize) -> Option<Entry> {
        if i < ROWS && j < COLS {
            Some(Wrap(self.entries[i * COLS + j]))
        } else {
            None
        }
    }

    fn set_entry(&mut self, i: usize, j: usize, entry: Entry) -> Option<Entry> {
        if i < ROWS && j < COLS {
            let previous = Wrap(self.entries[i * COLS + j]);
            self.entries[i * COLS + j] = entry.0;
            Some(previous)
        } else {
            None
        }
    }

    fn get_entries(&self) -> Vec<Entry> {
        self.entries.iter().map(|a| Wrap(*a)).collect()
    }
}

fn matrix(entries: [i8; 6]) -> Matrix {
    Matrix { entries: entries.to_vec() }
}

#[test]
fn matrix_space_has_the_shape_it_was_made_with() {
    let space = Matrices::init(&Base::init(), 2u8, 3u8);
    assert_eq!(MatrixSpace::nrows(&space), 2);
    assert_eq!(MatrixSpace::ncols(&space), 3);
    assert_eq!(MatrixSpace::base_ring(&space).new(4).0, 4);
    assert!(!MatrixSpace::is_generic(&space));
    let wide = Matrices::init(&Base::init(), 1u32, 70_000u32);
    assert_eq!(MatrixSpace::nrows(&wide), 1);
    assert_eq!(MatrixSpace::ncols(&wide), 70_000);
}

#[test]
fn matrix_space_is_an_abelian_group() {
    let space = Matrices::init(&Base::init(), 2u8, 3u8);
    assert!(space.is_abstract_group_abelian(Additive));
    assert!(space.is_additive_group_abelian());
}

#[test]
fn matrix_entries_are_read_inside_the_shape_only() {
    let m = matrix([1, 2, 3, 4, 5, 6]);
    assert_eq!(m.get_entry(0, 0), Some(Wrap(1)));
    assert_eq!(m.get_entry(0, 2), Some(Wrap(3)));
    assert_eq!(m.get_entry(1, 0), Some(Wrap(4)));
    assert_eq!(m.get_entry(1, 2), Some(Wrap(6)));
    assert_eq!(m.get_entry(2, 0), None);
    assert_eq!(m.get_entry(0, 3), None);
    assert_eq!(m.len(), 6);
    assert_eq!(MatrixSpaceElement::nrows(&m), 2);
    assert_eq!(MatrixSpaceElement::ncols(&m), 3);
    assert_eq!(MatrixSpaceElement::base_ring(&m).new(4).0, 4);
    assert!(!MatrixSpaceElement::is_generic(&m));
    assert_eq!(m.get_entries().len(), 6);
    assert_eq!(m.get_entries()[4], Wrap(5));
}

#[test]
fn matrix_entry_is_overwritten_and_handed_back() {
    let mut m = matrix([1, 2, 3, 4, 5, 6]);
    assert_eq!(m.set_entry(1, 1, Wrap(50)), Some(Wrap(5)));
    assert_eq!(m, matrix([1, 2, 3, 4, 50, 6]));
    assert_eq!(m.set_entry(1, 1, Wrap(51)), Some(Wrap(50)));
    assert_eq!(m.get_entry(1, 1), Some(Wrap(51)));
    assert_eq!(m.set_entry(2, 1, Wrap(9)), None);
    assert_eq!(m.set_entry(1, 3, Wrap(9)), None);
    assert_eq!(m, matrix([1, 2, 3, 4, 51, 6]));
}

#[test]
fn matrices_are_added_entry_by_entry() {
    let space = Matrices::init(&Base::init(), 2u8, 3u8);
    let a = matrix([100, 2, -128, 4, 5, 6]);
    let b = matrix([100, -2, -1, 0, 0, 1]);
    assert_eq!(a.op(Additive, &b), matrix([-56, 0, 127, 4, 5, 7]));
    assert_eq!(a.clone() + b.clone(), b.clone() + a.clone());
    assert_eq!(a.clone() - a.clone(), space.identity());
    assert_eq!(-a.clone() + a.clone(), space.identity());
    assert!(space.identity().is_identity());
    assert!(!a.is_identity());
    assert!(space.prop_operating_identity_element_is_noop((a.clone(),)));
    assert!(Matrices::prop_is_associative((a.clone(), b.clone(), a.clone())));
    assert!(Matrices::prop_is_commutative((a.clone(), b.clone())));
    assert!(Matrices::prop_inv_is_latin_square((a, b)));
}
