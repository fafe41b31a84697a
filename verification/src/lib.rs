//! A declarative model-composition and training library.
//!
//! A caller describes a neural network as an ordered list of layer
//! specifications, compiles that description into an executable model bound
//! to concrete tensor shapes and a backing parameter store, and drives a
//! training loop that alternates forward evaluation, loss computation,
//! gradient computation, and parameter update.  Tensor arithmetic, automatic
//! differentiation and parameter initialisation are provided by the candle
//! crates and are relied upon through narrow, documented interfaces; the
//! composition protocol, shape propagation, error discipline and training
//! loop are verified here.
use vstd::prelude::*;

pub mod error;
pub mod layers;
pub mod models;
pub mod names;
pub mod optimizer;
pub mod regularizer;
pub mod shape;
pub mod store;
pub mod tensor;

verus! {

/// Sum of two machine integers; the caller guarantees the sum fits.
pub fn add(left: usize, right: usize) -> (r: usize)
    requires
        left + right <= usize::MAX,
    ensures
        r == left + right,
{
    left + right
}

} // verus!
