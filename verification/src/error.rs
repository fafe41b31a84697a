//! Error kinds raised by compilation, layer lookup and training.
//!
//! Every error is terminal for the operation that raised it: the library
//! never retries internally and never substitutes a default for a failed
//! layer or epoch.
use vstd::prelude::*;

verus! {

/// The closed set of failures this library reports.
#[derive(Debug, Clone, Copy, PartialEq, Eq, Structural)]
pub enum ModelError {
    /// `compile` was called with zero layer specifications.
    EmptyArchitecture,
    /// No specification in the compiled list declares an input shape.
    MissingInputShape,
    /// Layer lookup was called with both, or neither, of name and index.
    LayerAccessAmbiguous,
    /// Layer lookup by index found no layer at that index.
    LayerIndexOutOfBounds,
    /// Layer lookup by name matched no layer.
    LayerNotFound,
    /// Two layers requested the same parameter name with incompatible
    /// shapes, or the backing store refused an allocation.
    ParameterNameCollision,
    /// The value handed to a backward step is not a scalar tensor.
    NonScalarLoss,
    /// A layer's forward evaluation, or the loss reduction built on it,
    /// failed in the tensor backend.
    ForwardFailure,
}

impl ModelError {
    /// A short human-readable description of the error: the exact text
    /// for each kind.
    pub fn message(&self) -> (r: &'static str)
        ensures
            r@.len() > 0,
            *self == ModelError::EmptyArchitecture ==> r@
                == "model architecture must contain at least one layer"@,
            *self == ModelError::MissingInputShape ==> r@
                == "model architecture does not include input shape"@,
            *self == ModelError::LayerAccessAmbiguous ==> r@ == "layer access invalid"@,
            *self == ModelError::LayerIndexOutOfBounds ==> r@ == "layer index out of bounds"@,
            *self == ModelError::LayerNotFound ==> r@ == "layer not found"@,
            *self == ModelError::ParameterNameCollision ==> r@
                == "parameter name collision in store"@,
            *self == ModelError::NonScalarLoss ==> r@ == "loss tensor is not a scalar"@,
            *self == ModelError::ForwardFailure ==> r@ == "forward evaluation failed"@,
    {
        let r: &'static str = match self {
            ModelError::EmptyArchitecture => "model architecture must contain at least one layer",
            ModelError::MissingInputShape => "model architecture does not include input shape",
            ModelError::LayerAccessAmbiguous => "layer access invalid",
            ModelError::LayerIndexOutOfBounds => "layer index out of bounds",
            ModelError::LayerNotFound => "layer not found",
            ModelError::ParameterNameCollision => "parameter name collision in store",
            ModelError::NonScalarLoss => "loss tensor is not a scalar",
            ModelError::ForwardFailure => "forward evaluation failed",
        };
        proof {
            reveal_strlit("model architecture must contain at least one layer");
            reveal_strlit("model architecture does not include input shape");
            reveal_strlit("layer access invalid");
            reveal_strlit("layer index out of bounds");
            reveal_strlit("layer not found");
            reveal_strlit("parameter name collision in store");
            reveal_strlit("loss tensor is not a scalar");
            reveal_strlit("forward evaluation failed");
        }
        r
    }
}

} // verus!
