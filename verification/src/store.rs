//! The trusted interface to the parameter store (candle's `VarMap`).
//!
//! Candle's store is shared by handle: cloning a `VarMap` yields another
//! handle onto the same underlying collection, and a change through one
//! handle is visible through every other.  A specification function of a
//! handle value cannot track such shared mutable contents soundly, so the
//! verified interface works on [`ParameterStore`], a uniquely owned
//! wrapper: it cannot be cloned, its inner handle cannot be reached from
//! verified code, and every operation that can register a name takes it
//! by mutable reference.  Along that single lineage the modelled contents
//! (the store's view: the map from parameter name to parameter shape) are
//! the real ones: names are never removed, registered shapes never
//! change, and optimizer steps change only the numeric contents of stored
//! tensors.
//!
//! [`ParameterStore::handle`] hands unverified code (tests, the
//! application shell) a plain `VarMap` handle onto the same collection
//! for inspection and persistence; nothing is claimed about such a
//! handle's contents, and a model built over the store keeps exactly such
//! an unclaimed handle for its own runtime needs.
use vstd::prelude::*;

use crate::error::ModelError;
use crate::shape::Dtype;
use crate::shape::Initializer;
use crate::tensor::device_is_cpu;
use crate::tensor::dims_of;

verus! {

/// The candle parameter store: a shared, named collection of variables.
#[verifier::external_type_specification]
#[verifier::external_body]
pub struct ExVarMap(candle_nn::VarMap);

/// A candle variable: a tensor registered for gradient tracking.
#[verifier::external_type_specification]
#[verifier::external_body]
pub struct ExVar(candle_core::Var);


/// Whether creating a fresh variable with this initializer and shape can
/// be refused for a numeric reason.  The constant initializers always
/// succeed; the fan-in-aware uniform divides by the fan — the product of
/// every dimension but the first — so a zero fan makes its bounds
/// infinite and the underlying uniform sampler refuses them.
pub open spec fn init_creatable(init: Initializer, dims: Seq<usize>) -> bool {
    match init {
        Initializer::KaimingUniform => dims.len() < 2 || (forall|k: int|
            1 <= k < dims.len() ==> dims[k] > 0),
        _ => true,
    }
}

/// A store with no registered names.
pub open spec fn empty_contents() -> Map<Seq<char>, Seq<usize>> {
    Map::empty()
}

/// The uniquely owned parameter store: the mutable, named collection of
/// trainable tensors that models are compiled against.  The caller
/// creates it once and controls its lifetime; verified code reaches the
/// underlying collection only through this owner.
pub struct ParameterStore {
    inner: candle_nn::VarMap,
}

/// The contents of the underlying collection a store owns: each
/// registered name mapped to the shape it was registered with.  Sound
/// because the owner is the one lineage through which verified code can
/// register names; see the module documentation.
pub uninterp spec fn store_contents(m: ParameterStore) -> Map<Seq<char>, Seq<usize>>;

impl View for ParameterStore {
    type V = Map<Seq<char>, Seq<usize>>;

    /// The registered names and their shapes.
    open spec fn view(&self) -> Map<Seq<char>, Seq<usize>> {
        store_contents(*self)
    }
}

impl ParameterStore {
    /// Relies on `VarMap::new`: a fresh store holds no names.
    #[verifier::external_body]
    pub fn new() -> (r: ParameterStore)
        ensures
            r@ == empty_contents(),
    {
        ParameterStore { inner: candle_nn::VarMap::new() }
    }

    /// Relies on `VarMap::clone`: another runtime handle onto the same
    /// underlying collection, for unverified inspection and persistence.
    /// Nothing is claimed about the handle's contents.
    #[verifier::external_body]
    pub fn handle(&self) -> candle_nn::VarMap {
        self.inner.clone()
    }
}

/// Relies on `VarMap::get`: retrieve the variable registered under `name`,
/// or create it with the given shape, initializer, element type and
/// device.  Per the candle sources, a registered name is reused when the
/// requested shape equals the registered one (the initializer is then
/// ignored), and refused when the shapes differ; a fresh float variable
/// whose initializer accepts the shape (see [`init_creatable`]) is always
/// created successfully on the CPU.  Any backend refusal is reported as
/// `ParameterNameCollision`.
#[verifier::external_body]
pub(crate) fn store_get(
    m: &mut ParameterStore,
    name: &str,
    dims: &Vec<usize>,
    init: &Initializer,
    dtype: &Dtype,
    dev: &candle_core::Device,
) -> (r: Result<candle_core::Tensor, ModelError>)
    requires
        *dtype == Dtype::F32 || *dtype == Dtype::F64,
    ensures
        r matches Ok(t) ==> dims_of(t) == dims@,
        r is Ok ==> (store_contents(*old(m)).contains_key(name@) ==> store_contents(
            *old(m),
        )[name@] == dims@),
        r is Ok ==> store_contents(*final (m)) == (if store_contents(*old(m)).contains_key(
            name@,
        ) {
            store_contents(*old(m))
        } else {
            store_contents(*old(m)).insert(name@, dims@)
        }),
        r is Err ==> store_contents(*final (m)) == store_contents(*old(m)),
        r matches Err(e) ==> e == ModelError::ParameterNameCollision,
        r is Err ==> (store_contents(*old(m)).contains_key(name@) ==> store_contents(
            *old(m),
        )[name@] != dims@),
        r is Err ==> !store_contents(*old(m)).contains_key(name@) ==> !(device_is_cpu(*dev)
            && init_creatable(*init, dims@)),
{
    let init_c = match init {
        Initializer::Zero => candle_nn::init::ZERO,
        Initializer::One => candle_nn::init::ONE,
        Initializer::KaimingUniform => candle_nn::init::DEFAULT_KAIMING_UNIFORM,
    };
    let dt = match dtype {
        Dtype::F32 => candle_core::DType::F32,
        Dtype::F64 => candle_core::DType::F64,
        Dtype::U8 => candle_core::DType::U8,
        Dtype::U32 => candle_core::DType::U32,
        Dtype::I64 => candle_core::DType::I64,
    };
    m.inner.get(dims.as_slice(), name, init_c, dt, dev).map_err(
        |_| ModelError::ParameterNameCollision,
    )
}

/// Relies on `VarMap::all_vars`: every variable currently registered
/// behind the handle, in an unspecified order.  The handle's contents
/// are not modeled, so nothing is claimed of the result.
#[verifier::external_body]
pub(crate) fn store_all_vars(m: &candle_nn::VarMap) -> Vec<candle_core::Var> {
    m.all_vars()
}

/// Relies on `VarMap::clone`: another runtime handle onto the same
/// underlying collection; its contents are not modeled.
#[verifier::external_body]
pub(crate) fn clone_handle(m: &candle_nn::VarMap) -> candle_nn::VarMap {
    m.clone()
}

} // verus!
