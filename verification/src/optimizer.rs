//! The optimizer abstraction: how parameters are updated, decoupled from
//! the training loop.
//!
//! An [`Optimizers`] value is a closed set of update-algorithm
//! configurations; `build` binds one to a concrete parameter list,
//! allocating the per-parameter state the algorithm needs.  The built
//! [`Optimizer`] exposes one operation, a single gradient step, plus the
//! backward-step convenience that derives the gradients from a scalar loss
//! first.  The set of parameters an optimizer updates is fixed when it is
//! built: a stepped optimizer touches exactly the variables it was built
//! over, never ones registered later.
use vstd::multiset::Multiset;
use vstd::prelude::*;

use crate::error::ModelError;
use crate::tensor::clone_tensor;
use crate::tensor::dims_of;
use crate::tensor::tensor_dims;

verus! {

/// The candle gradient store: the mapping from parameter identity to its
/// gradient, produced by a backward pass.
#[verifier::external_type_specification]
#[verifier::external_body]
pub struct ExGradStore(candle_core::backprop::GradStore);

/// The candle hyperparameter record for the adaptive-moment method.
#[verifier::external_type_specification]
#[verifier::external_body]
pub struct ExParamsAdamW(candle_nn::ParamsAdamW);

/// The candle adaptive-moment optimizer.
#[verifier::external_type_specification]
#[verifier::external_body]
pub struct ExAdamW(candle_nn::AdamW);

/// The candle fixed-learning-rate gradient-descent optimizer.
#[verifier::external_type_specification]
#[verifier::external_body]
pub struct ExSgd(candle_nn::SGD);

/// Whether a tensor lives on the CPU, as `Tensor::device` reports it; a
/// tensor never migrates, so this is a function of the tensor alone.
pub uninterp spec fn tensor_on_cpu(t: candle_core::Tensor) -> bool;

/// Whether every variable of the collection lives on the CPU; fixed at
/// each variable's creation.
pub uninterp spec fn vars_on_cpu(vs: Multiset<candle_core::Var>) -> bool;

/// Relies on `ParamsAdamW::clone`: the hyperparameter record is plain
/// data and cloning returns an equal value.
#[verifier::external_body]
pub fn clone_adamw_params(p: &candle_nn::ParamsAdamW) -> (r: candle_nn::ParamsAdamW)
    ensures
        r == *p,
{
    p.clone()
}

/// Whether a hyperparameter record is the default tuning of the
/// adaptive-moment method, as `ParamsAdamW::default` produces it.
pub uninterp spec fn adamw_default_tuning(p: candle_nn::ParamsAdamW) -> bool;

/// Relies on `ParamsAdamW::default`: the default tuning of the
/// adaptive-moment method.
#[verifier::external_body]
pub fn default_adamw_params() -> (r: candle_nn::ParamsAdamW)
    ensures
        adamw_default_tuning(r),
{
    candle_nn::ParamsAdamW::default()
}

/// Relies on `AdamW::new` (candle's `Optimizer` implementation): binds
/// the variables, allocating zeroed moment estimates for each float
/// variable.  The only failure is a refused moment allocation, which on
/// CPU-resident variables cannot happen.
#[verifier::external_body]
fn adamw_new(vars: Vec<candle_core::Var>, params: candle_nn::ParamsAdamW) -> (r: Result<
    candle_nn::AdamW,
    ModelError,
>)
    ensures
        r matches Err(e) ==> e == ModelError::ForwardFailure,
        r is Ok || !vars_on_cpu(vars@.to_multiset()),
{
    candle_nn::Optimizer::new(vars, params).map_err(|_| ModelError::ForwardFailure)
}

/// Relies on `SGD::new` (candle's `Optimizer` implementation): binds the
/// variables to plain gradient descent with the learning rate read from a
/// scalar tensor.  A learning-rate tensor that is not a scalar is
/// refused.
#[verifier::external_body]
fn sgd_new(vars: Vec<candle_core::Var>, lr: &candle_core::Tensor) -> (r: Result<
    candle_nn::SGD,
    ModelError,
>)
    ensures
        r matches Err(e) ==> e == ModelError::NonScalarLoss,
        r is Err || dims_of(*lr) == Seq::<usize>::empty(),
        r is Ok || !(tensor_on_cpu(*lr) && dims_of(*lr) == Seq::<usize>::empty()),
{
    let wide = lr.to_dtype(candle_core::DType::F64).map_err(|_| ModelError::NonScalarLoss)?;
    let rate = (&wide).try_into().map_err(|_| ModelError::NonScalarLoss)?;
    candle_nn::Optimizer::new(vars, rate).map_err(|_| ModelError::NonScalarLoss)
}

/// Relies on `AdamW::step`: applies one update to every bound float
/// variable for which the gradient store records a gradient; variables
/// without a recorded gradient, and variables never bound, are left
/// untouched.  Variable shapes are never changed.
#[verifier::external_body]
fn adamw_step(o: &mut candle_nn::AdamW, grads: &candle_core::backprop::GradStore) -> (r: Result<
    (),
    ModelError,
>)
    ensures
        r matches Err(e) ==> e == ModelError::ForwardFailure,
{
    candle_nn::Optimizer::step(o, grads).map_err(|_| ModelError::ForwardFailure)
}

/// Relies on `SGD::step`, with the same discipline as the
/// adaptive-moment step.
#[verifier::external_body]
fn sgd_step(o: &mut candle_nn::SGD, grads: &candle_core::backprop::GradStore) -> (r: Result<
    (),
    ModelError,
>)
    ensures
        r matches Err(e) ==> e == ModelError::ForwardFailure,
{
    candle_nn::Optimizer::step(o, grads).map_err(|_| ModelError::ForwardFailure)
}

/// Relies on `Tensor::backward`: runs the backward pass from a loss
/// tensor and returns the gradient store mapping each parameter to its
/// gradient.
#[verifier::external_body]
fn tensor_backward(loss: &candle_core::Tensor) -> (r: Result<
    candle_core::backprop::GradStore,
    ModelError,
>)
    ensures
        r matches Err(e) ==> e == ModelError::ForwardFailure,
{
    loss.backward().map_err(|_| ModelError::ForwardFailure)
}

/// An optimizer configuration: the closed set of parameter-update
/// algorithms a model can be compiled with.
pub enum Optimizers {
    /// The adaptive-moment method with its default tuning.
    AdamWDefault,
    /// The adaptive-moment method with explicit hyperparameters.
    AdamW(candle_nn::ParamsAdamW),
    /// Plain gradient descent; the learning rate is carried as a scalar
    /// tensor.
    Sgd(candle_core::Tensor),
}

impl Clone for Optimizers {
    /// Cloning preserves the configuration.
    fn clone(&self) -> (r: Self)
        ensures
            r == *self,
    {
        match self {
            Optimizers::AdamWDefault => Optimizers::AdamWDefault,
            Optimizers::AdamW(p) => Optimizers::AdamW(clone_adamw_params(p)),
            Optimizers::Sgd(t) => Optimizers::Sgd(clone_tensor(t)),
        }
    }
}

/// A built adaptive-moment optimizer bound to its parameter list.
pub struct AdamWOptimizer {
    inner: candle_nn::AdamW,
    params: Ghost<Seq<candle_core::Var>>,
    config: Ghost<candle_nn::ParamsAdamW>,
}

/// A built gradient-descent optimizer bound to its parameter list.
pub struct Sgd {
    inner: candle_nn::SGD,
    params: Ghost<Seq<candle_core::Var>>,
    rate: Ghost<candle_core::Tensor>,
}

impl AdamWOptimizer {
    /// The parameter list supplied when the optimizer was built.
    pub closed spec fn bound(&self) -> Seq<candle_core::Var> {
        self.params@
    }

    /// The hyperparameters the optimizer was built with.
    pub closed spec fn spec_config(&self) -> candle_nn::ParamsAdamW {
        self.config@
    }

    /// Builds the adaptive-moment optimizer over `vars`.
    pub fn new(vars: Vec<candle_core::Var>, params: candle_nn::ParamsAdamW) -> (r: Result<
        AdamWOptimizer,
        ModelError,
    >)
        ensures
            r matches Ok(o) ==> o.bound() == vars@ && o.spec_config() == params,
            r matches Err(e) ==> e == ModelError::ForwardFailure,
            r is Ok || !vars_on_cpu(vars@.to_multiset()),
    {
        let ghost bound = vars@;
        let ghost cfg = params;
        let inner = adamw_new(vars, params)?;
        Ok(AdamWOptimizer { inner, params: Ghost(bound), config: Ghost(cfg) })
    }

    /// Applies one gradient step to the bound parameters.
    pub fn step(&mut self, grads: &candle_core::backprop::GradStore) -> (r: Result<(), ModelError>)
        ensures
            final (self).bound() == old(self).bound(),
            r matches Err(e) ==> e == ModelError::ForwardFailure,
    {
        adamw_step(&mut self.inner, grads)
    }
}

impl Sgd {
    /// The parameter list supplied when the optimizer was built.
    pub closed spec fn bound(&self) -> Seq<candle_core::Var> {
        self.params@
    }

    /// The scalar learning-rate tensor the optimizer was built with.
    pub closed spec fn spec_rate(&self) -> candle_core::Tensor {
        self.rate@
    }

    /// Builds the gradient-descent optimizer over `vars` with the given
    /// scalar learning rate.
    pub fn new(vars: Vec<candle_core::Var>, lr: &candle_core::Tensor) -> (r: Result<
        Sgd,
        ModelError,
    >)
        ensures
            r matches Ok(o) ==> o.bound() == vars@ && o.spec_rate() == *lr,
            r matches Err(e) ==> e == ModelError::NonScalarLoss,
            r is Err || dims_of(*lr) == Seq::<usize>::empty(),
            r is Ok || !(tensor_on_cpu(*lr) && dims_of(*lr) == Seq::<usize>::empty()),
    {
        let ghost bound = vars@;
        let ghost rate = *lr;
        let inner = sgd_new(vars, lr)?;
        Ok(Sgd { inner, params: Ghost(bound), rate: Ghost(rate) })
    }

    /// Applies one gradient step to the bound parameters.
    pub fn step(&mut self, grads: &candle_core::backprop::GradStore) -> (r: Result<(), ModelError>)
        ensures
            final (self).bound() == old(self).bound(),
            r matches Err(e) ==> e == ModelError::ForwardFailure,
    {
        sgd_step(&mut self.inner, grads)
    }
}

/// A built optimizer: a stateful update algorithm bound, for its whole
/// lifetime, to the parameter list supplied when it was built.
pub enum Optimizer {
    /// The adaptive-moment method.
    AdamW(AdamWOptimizer),
    /// Plain gradient descent.
    Sgd(Sgd),
}

impl Optimizer {
    /// The parameter list this optimizer was built over.  It never
    /// changes: stepping updates the values of these parameters and of no
    /// others.
    pub open spec fn bound_params(&self) -> Seq<candle_core::Var> {
        match self {
            Optimizer::AdamW(o) => o.bound(),
            Optimizer::Sgd(o) => o.bound(),
        }
    }

    /// Applies exactly one update to every bound parameter with a
    /// recorded gradient; parameters absent from the gradient store are
    /// left untouched.  The bound parameter list is unchanged.
    pub fn step(&mut self, grads: &candle_core::backprop::GradStore) -> (r: Result<(), ModelError>)
        ensures
            final (self).bound_params() == old(self).bound_params(),
            r matches Err(e) ==> e == ModelError::ForwardFailure,
    {
        match self {
            Optimizer::AdamW(o) => o.step(grads),
            Optimizer::Sgd(o) => o.step(grads),
        }
    }

    /// Derives the gradients from a scalar loss and applies one step.  A
    /// non-scalar loss is refused with `NonScalarLoss` before any
    /// gradient is computed.
    pub fn backward_step(&mut self, loss: &candle_core::Tensor) -> (r: Result<(), ModelError>)
        ensures
            final (self).bound_params() == old(self).bound_params(),
            r is Err || dims_of(*loss) == Seq::<usize>::empty(),
            r matches Err(e) ==> e == ModelError::NonScalarLoss || e == ModelError::ForwardFailure,
            r matches Err(e) && e == ModelError::NonScalarLoss ==> dims_of(*loss)
                != Seq::<usize>::empty(),
            dims_of(*loss) != Seq::<usize>::empty() ==> r == Err::<(), ModelError>(
                ModelError::NonScalarLoss,
            ),
    {
        let ldims = tensor_dims(loss);
        if ldims.len() != 0 {
            return Err(ModelError::NonScalarLoss);
        }
        proof {
            assert(dims_of(*loss) =~= Seq::<usize>::empty());
        }
        let grads = tensor_backward(loss)?;
        self.step(&grads)
    }
}

/// Builds the optimizer described by a configuration over a concrete
/// parameter list.
impl Optimizers {
    /// What it means for a built optimizer to realize this
    /// configuration: the algorithm matches the variant, and the explicit
    /// hyperparameters or learning rate are the configured ones.
    pub open spec fn describes(&self, o: &Optimizer) -> bool {
        match (self, o) {
            (Optimizers::AdamWDefault, Optimizer::AdamW(a)) => adamw_default_tuning(
                a.spec_config(),
            ),
            (Optimizers::AdamW(p), Optimizer::AdamW(a)) => a.spec_config() == *p,
            (Optimizers::Sgd(lr), Optimizer::Sgd(s)) => s.spec_rate() == *lr,
            _ => false,
        }
    }

    /// Binds this configuration to `vars`, allocating the per-parameter
    /// state the algorithm needs.  On success the built optimizer
    /// realizes this configuration and is bound to exactly `vars`; a
    /// configuration over CPU variables, with a scalar learning rate
    /// where one is carried, always builds.
    pub fn build(&self, vars: Vec<candle_core::Var>) -> (r: Result<Optimizer, ModelError>)
        ensures
            r matches Ok(o) ==> o.bound_params() == vars@ && self.describes(&o),
            r matches Err(e) ==> e == ModelError::ForwardFailure || e == ModelError::NonScalarLoss,
            r matches Err(e) && e == ModelError::NonScalarLoss ==> self matches Optimizers::Sgd(_),
            self matches Optimizers::Sgd(lr) ==> (r is Err || dims_of(*lr)
                == Seq::<usize>::empty()),
            self matches Optimizers::Sgd(lr) ==> (r is Ok || !(tensor_on_cpu(*lr) && dims_of(*lr)
                == Seq::<usize>::empty())),
            !(self matches Optimizers::Sgd(_)) && vars_on_cpu(vars@.to_multiset()) ==> r is Ok,
    {
        match self {
            Optimizers::AdamWDefault => {
                let o = AdamWOptimizer::new(vars, default_adamw_params())?;
                Ok(Optimizer::AdamW(o))
            },
            Optimizers::AdamW(p) => {
                let o = AdamWOptimizer::new(vars, clone_adamw_params(p))?;
                Ok(Optimizer::AdamW(o))
            },
            Optimizers::Sgd(lr) => {
                let o = Sgd::new(vars, lr)?;
                Ok(Optimizer::Sgd(o))
            },
        }
    }
}

} // verus!
