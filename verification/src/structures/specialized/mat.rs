//! The interface of a space of matrices of one shape over a base ring.
use crate::structures::grouplike::Elem;
use crate::structures::specialized::grouplike::{AdditiveGroupAbelian, AdditiveGroupAbelianElement};
use crate::structures::specialized::ringlike::Ring;
use vstd::prelude::*;
use vstd::std_specs::convert::IntoSpec;

verus! {

/// The space of the matrices of one shape over the base ring `T`. Matrices of
/// one shape are added entry by entry, so the space is an Abelian group.
pub trait MatrixSpace<T: Ring>: AdditiveGroupAbelian<Element = <Self as MatrixSpace<T>>::Element> {
    /// The matrices.
    type Element: MatrixSpaceElement<T, Parent = Self>;

    /// The base ring as a mathematical value.
    spec fn base_ring_spec(&self) -> T;

    /// The number of rows as a mathematical value.
    spec fn nrows_spec(&self) -> usize;

    /// The number of columns as a mathematical value.
    spec fn ncols_spec(&self) -> usize;

    /// The space of the matrices over `ring` with `nrows` rows and `ncols`
    /// columns.
    fn init<D: Into<u64>>(ring: &T, nrows: D, ncols: D) -> (space: Self)
        ensures
            space.base_ring_spec() == *ring,
            D::obeys_into_spec() && nrows.into_spec() <= usize::MAX && ncols.into_spec()
                <= usize::MAX ==> space.nrows_spec() == nrows.into_spec() && space.ncols_spec()
                == ncols.into_spec(),
    ;

    /// The base ring.
    fn base_ring(&self) -> (ring: &T)
        ensures
            *ring == self.base_ring_spec(),
    ;

    /// The number of rows.
    fn nrows(&self) -> (count: usize)
        ensures
            count == self.nrows_spec(),
    ;

    /// The number of columns.
    fn ncols(&self) -> (count: usize)
        ensures
            count == self.ncols_spec(),
    ;

    /// Whether the implementation is the generic one: it is not, unless an
    /// implementation says otherwise.
    fn is_generic(&self) -> (generic: bool)
        default_ensures
            !generic,
    {
        false
    }
}

/// A matrix over the base ring `T`.
pub trait MatrixSpaceElement<T: Ring>: AdditiveGroupAbelianElement {
    /// The base ring as a mathematical value.
    spec fn base_ring_spec(&self) -> T;

    /// The number of rows as a mathematical value.
    spec fn nrows_spec(&self) -> usize;

    /// The number of columns as a mathematical value.
    spec fn ncols_spec(&self) -> usize;

    /// The entry at row `i` and column `j`, both counted from zero. It has a
    /// meaning inside the shape only.
    spec fn entry_spec(&self, i: usize, j: usize) -> Elem<T>;

    /// All the entries in the order in which the matrix hands them out.
    spec fn entries_spec(&self) -> Vec<Elem<T>>;

    /// The base ring.
    fn base_ring(&self) -> (ring: &T)
        ensures
            *ring == self.base_ring_spec(),
    ;

    /// The number of entries.
    fn len(&self) -> (length: usize)
        ensures
            length == self.entries_spec()@.len(),
    ;

    /// The number of rows.
    fn nrows(&self) -> (count: usize)
        ensures
            count == self.nrows_spec(),
    ;

    /// The number of columns.
    fn ncols(&self) -> (count: usize)
        ensures
            count == self.ncols_spec(),
    ;

    /// The entry at row `i` and column `j`, or nothing outside the shape.
    fn get_entry(&self, i: usize, j: usize) -> (entry: Option<Elem<T>>)
        ensures
            i < self.nrows_spec() && j < self.ncols_spec() ==> entry == Some(self.entry_spec(i, j)),
            !(i < self.nrows_spec() && j < self.ncols_spec()) ==> entry.is_none(),
    ;

    /// Overwrites the entry at row `i` and column `j` and hands back the one
    /// that stood there. Outside the shape nothing is overwritten and nothing
    /// is handed back. The shape, the base ring and the other entries stay.
    fn set_entry(&mut self, i: usize, j: usize, entry: Elem<T>) -> (previous: Option<Elem<T>>)
        ensures
            i < old(self).nrows_spec() && j < old(self).ncols_spec() ==> previous == Some(
                old(self).entry_spec(i, j),
            ),
            !(i < old(self).nrows_spec() && j < old(self).ncols_spec()) ==> previous.is_none(),
            final(self).base_ring_spec() == old(self).base_ring_spec(),
            final(self).nrows_spec() == old(self).nrows_spec(),
            final(self).ncols_spec() == old(self).ncols_spec(),
            i < old(self).nrows_spec() && j < old(self).ncols_spec() ==> final(self).entry_spec(
                i,
                j,
            ) == entry,
            forall|r: usize, c: usize|
                r < old(self).nrows_spec() && c < old(self).ncols_spec() && !(r == i && c == j)
                    ==> #[trigger] final(self).entry_spec(r, c) == old(self).entry_spec(r, c),
    ;

    /// All the entries.
    fn get_entries(&self) -> (entries: Vec<Elem<T>>)
        ensures
            entries@ == self.entries_spec()@,
    ;

    /// Whether the implementation is the generic one: it is not, unless an
    /// implementation says otherwise.
    fn is_generic(&self) -> (generic: bool)
        default_ensures
            !generic,
    {
        false
    }
}

} // verus!
