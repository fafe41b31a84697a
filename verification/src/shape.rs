//! Plain-value models of the tensor metadata the library reasons about.
//!
//! A [`Shape`] is an ordered list of dimension sizes; the last dimension is
//! the feature dimension consumed by dense layers.  Element types,
//! activation functions, initializers and loss functions are closed tag
//! sets: the library stores and forwards the tags and never interprets the
//! numeric formulas behind them.
use vstd::prelude::*;

verus! {

/// An ordered, non-empty sequence of dimension sizes.
#[derive(Debug)]
pub struct Shape {
    dims: Vec<usize>,
}

impl View for Shape {
    type V = Seq<usize>;

    closed spec fn view(&self) -> Seq<usize> {
        self.dims@
    }
}

impl Shape {
    /// The shape invariant: at least one dimension.
    pub open spec fn wf(&self) -> bool {
        self@.len() > 0
    }

    /// Builds a shape from its dimension list.
    pub fn new(dims: Vec<usize>) -> (r: Shape)
        requires
            dims@.len() > 0,
        ensures
            r@ == dims@,
            r.wf(),
    {
        Shape { dims }
    }

    /// The number of dimensions.
    pub fn rank(&self) -> (r: usize)
        ensures
            r == self@.len(),
    {
        self.dims.len()
    }

    /// The size of dimension `i`.
    pub fn dim(&self, i: usize) -> (r: usize)
        requires
            i < self@.len(),
        ensures
            r == self@[i as int],
    {
        self.dims[i]
    }

    /// The last dimension: the feature dimension consumed by dense layers.
    pub fn last_dim(&self) -> (r: usize)
        requires
            self.wf(),
        ensures
            r == self@.last(),
    {
        self.dims[self.dims.len() - 1]
    }

    /// The dimension sizes as a plain vector.
    pub fn dims(&self) -> (r: &Vec<usize>)
        ensures
            r@ == self@,
    {
        &self.dims
    }
}

impl Clone for Shape {
    /// Cloning preserves the dimension list exactly.
    fn clone(&self) -> (r: Self)
        ensures
            r@ == self@,
    {
        let mut dims: Vec<usize> = Vec::new();
        let mut i: usize = 0;
        while i < self.dims.len()
            invariant
                i <= self.dims@.len(),
                dims@ == self.dims@.subrange(0, i as int),
            decreases self.dims@.len() - i,
        {
            dims.push(self.dims[i]);
            i = i + 1;
        }
        proof {
            assert(dims@ =~= self.dims@);
        }
        Shape { dims }
    }
}

/// The element type of a tensor, as declared by an input layer.
#[derive(Debug, Clone, Copy, PartialEq, Eq, Structural)]
pub enum Dtype {
    U8,
    U32,
    I64,
    F32,
    F64,
}

/// An activation function tag.  Every member is an elementwise,
/// shape-preserving function; the numeric formula lives in the tensor
/// backend.
#[derive(Debug, Clone, Copy, PartialEq, Eq, Structural)]
pub enum ActivationFn {
    Relu,
    Gelu,
    Sigmoid,
}

/// A parameter-initializer tag.  The numeric distribution lives in the
/// tensor backend.
#[derive(Debug, Clone, Copy, PartialEq, Eq, Structural)]
pub enum Initializer {
    /// Every element zero.
    Zero,
    /// Every element one.
    One,
    /// Fan-in-aware uniform distribution.
    KaimingUniform,
}

/// A loss-function tag.  The model stores and reports the tag; the training
/// loop's reduction is fixed (see the model documentation).
#[derive(Debug, Clone, Copy, PartialEq, Eq, Structural)]
pub enum Loss {
    MeanSquaredError,
    NegativeLogLikelihood,
    CrossEntropy,
}

} // verus!
