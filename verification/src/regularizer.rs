//! Regularizer penalties.
//!
//! A regularizer turns a tensor into a scalar penalty.  The coefficients
//! are carried as scalar tensors so that the penalty arithmetic stays in
//! the tensor backend; the variant structure and the shape discipline are
//! verified here, while the numeric formulas are the backend's.
//!
//! The combined variant always adds both of its terms; a term whose
//! coefficient is zero contributes a zero addend, so no zero test is
//! needed.
use vstd::prelude::*;

use crate::error::ModelError;
use crate::tensor::clone_tensor;
use crate::tensor::dims_of;
use crate::tensor::scalar_like_u32;
use crate::tensor::tensor_abs;
use crate::tensor::tensor_add;
use crate::tensor::tensor_div;
use crate::tensor::tensor_mul;
use crate::tensor::tensor_sqr;
use crate::tensor::tensor_sum_all;

verus! {

/// A regularizer penalty: an absolute-value term, a squared term, or a
/// combination of both, each weighted by a scalar coefficient tensor.
pub enum Regularizer {
    /// Both terms, each with the default coefficient of one hundredth.
    L1L2Default,
    /// Both terms, with explicit coefficients.
    L1L2(candle_core::Tensor, candle_core::Tensor),
    /// The absolute-value term alone.
    L1(candle_core::Tensor),
    /// The squared term alone.
    L2(candle_core::Tensor),
}

impl Clone for Regularizer {
    /// Cloning yields handles onto the same coefficient tensors.
    fn clone(&self) -> (r: Self)
        ensures
            r == *self,
    {
        match self {
            Regularizer::L1L2Default => Regularizer::L1L2Default,
            Regularizer::L1L2(a, b) => Regularizer::L1L2(clone_tensor(a), clone_tensor(b)),
            Regularizer::L1(a) => Regularizer::L1(clone_tensor(a)),
            Regularizer::L2(a) => Regularizer::L2(clone_tensor(a)),
        }
    }
}

impl Regularizer {
    /// The weighted absolute-value term of `xs`: coefficient times the sum
    /// of elementwise absolute values.
    fn l1_term(c: &candle_core::Tensor, xs: &candle_core::Tensor) -> (r: Result<
        candle_core::Tensor,
        ModelError,
    >)
        ensures
            r matches Ok(t) ==> dims_of(t) == Seq::<usize>::empty(),
            r matches Err(e) ==> e == ModelError::ForwardFailure,
    {
        let a = tensor_abs(xs)?;
        let s = tensor_sum_all(&a)?;
        tensor_mul(c, &s)
    }

    /// The weighted squared term of `xs`: coefficient times the sum of
    /// elementwise squares.
    fn l2_term(c: &candle_core::Tensor, xs: &candle_core::Tensor) -> (r: Result<
        candle_core::Tensor,
        ModelError,
    >)
        ensures
            r matches Ok(t) ==> dims_of(t) == Seq::<usize>::empty(),
            r matches Err(e) ==> e == ModelError::ForwardFailure,
    {
        let a = tensor_sqr(xs)?;
        let s = tensor_sum_all(&a)?;
        tensor_mul(c, &s)
    }

    /// Evaluates the penalty of `xs`.  On success the result is a scalar
    /// tensor; every backend refusal (for example a non-scalar
    /// coefficient) surfaces as `ForwardFailure`.
    pub fn forward(&self, xs: &candle_core::Tensor) -> (r: Result<candle_core::Tensor, ModelError>)
        ensures
            r matches Ok(t) ==> dims_of(t) == Seq::<usize>::empty(),
            r matches Err(e) ==> e == ModelError::ForwardFailure,
    {
        match self {
            Regularizer::L1L2Default => {
                let one = scalar_like_u32(1, xs)?;
                let hundred = scalar_like_u32(100, xs)?;
                let c = tensor_div(&one, &hundred)?;
                let t1 = Regularizer::l1_term(&c, xs)?;
                let t2 = Regularizer::l2_term(&c, xs)?;
                tensor_add(&t1, &t2)
            },
            Regularizer::L1L2(c1, c2) => {
                let t1 = Regularizer::l1_term(c1, xs)?;
                let t2 = Regularizer::l2_term(c2, xs)?;
                tensor_add(&t1, &t2)
            },
            Regularizer::L1(c) => Regularizer::l1_term(c, xs),
            Regularizer::L2(c) => Regularizer::l2_term(c, xs),
        }
    }
}

} // verus!
