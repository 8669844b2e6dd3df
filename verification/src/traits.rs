use vstd::prelude::*;

verus! {

/// The capability of forming an inner product against a right-hand operand
/// of type `T`. Both vector types implement it against themselves, and each
/// matrix type implements it against the vector it acts on, which is the one
/// true linear-algebra operation of the kernel.
pub trait Dot<T> {
    type Output;

    /// What the receiver must satisfy for the product to be computed; the
    /// vector types ask nothing, the matrix types ask to be well formed.
    spec fn dot_req(&self, other: &T) -> bool;

    /// The value of the inner product.
    spec fn dot_spec(&self, other: &T) -> Self::Output;

    fn dot(&self, other: &T) -> (r: Self::Output)
        requires
            self.dot_req(other),
        ensures
            r == self.dot_spec(other),
    ;
}

/// The capability of forming a cross product against a right-hand operand
/// of type `T`: a scalar signed area in the plane, a vector in space.
pub trait Cross<T> {
    type Output;

    /// The value of the cross product.
    spec fn cross_spec(&self, other: &T) -> Self::Output;

    fn cross(&self, other: &T) -> (r: Self::Output)
        ensures
            r == self.cross_spec(other),
    ;
}

} // verus!
