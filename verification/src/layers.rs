//! Layer specifications and compiled layers.
//!
//! A layer specification is a shape-agnostic description of one layer's
//! configuration, assembled through a fluent builder.  Compilation binds a
//! specification to the model's resolved input shape and to the shared
//! parameter store, producing a [`CompiledLayer`]: the shape-bound,
//! parameter-bound executable form, which exposes only a name and a
//! forward evaluation.
//!
//! Heterogeneous layer kinds are composed through the tagged sum
//! [`LayerSpec`] with one compile dispatch, rather than through boxed
//! trait objects.
use vstd::prelude::*;

use crate::error::ModelError;
use crate::names::bias_name;
use crate::names::bias_name_spec;
use crate::names::activation_name;
use crate::names::activation_name_spec;
use crate::names::dense_name;
use crate::names::dense_name_spec;
use crate::names::input_name;
use crate::names::input_name_spec;
use crate::names::kernel_name;
use crate::names::kernel_name_spec;
use crate::regularizer::Regularizer;
use crate::shape::ActivationFn;
use crate::shape::Dtype;
use crate::shape::Initializer;
use crate::shape::Shape;
use crate::store::init_creatable;
use crate::store::store_get;
use crate::store::ParameterStore;
use crate::tensor::apply_activation;
use crate::tensor::broadcast_add;
use crate::tensor::broadcast_dims;
use crate::tensor::broadcast_ok;
use crate::tensor::bc_pos_ok;
use crate::tensor::clone_tensor;
use crate::tensor::activation_succeeds;
use crate::tensor::device_is_cpu;
use crate::tensor::dims_of;
use crate::tensor::matmul;
use crate::tensor::matmul_succeeds;
use crate::tensor::tensor_dims;

verus! {

/// The interface of a compiled layer: a stable name and one forward
/// evaluation.
pub trait Layer {
    /// Whether the layer is fit to evaluate.
    spec fn ready(&self) -> bool;

    /// The layer's stable name.
    fn name(&self) -> String;

    /// Forward evaluation of one tensor.
    fn forward(&self, xs: &candle_core::Tensor) -> Result<candle_core::Tensor, ModelError>
        requires
            self.ready(),
    ;
}

/// Builders of layer specifications: `build` finalizes the configured
/// value, leaving the builder reusable.
pub trait LayerBuilder: Sized {
    /// What it means for `r` to be the finalized form of `self`.
    spec fn builds_to(&self, r: &Self) -> bool;

    /// Finalizes the configuration.
    fn build(&mut self) -> (r: Self)
        ensures
            old(self).builds_to(&r),
            old(self).builds_to(final (self)),
    ;
}

/// Declares the model input: a shape, an element type, and optionally a
/// batch-size override.  The only specification kind that declares an
/// input shape.
pub struct Input {
    /// The declared input shape.
    pub shape: Shape,
    /// An optional batch-size override; descriptive only.
    pub batch_size: Option<usize>,
    /// The declared element type.
    pub dtype: Dtype,
}

impl Input {
    /// A fresh input specification with no batch-size override.
    pub fn new(shape: Shape, dtype: Dtype) -> (r: Self)
        ensures
            r.shape@ == shape@,
            r.batch_size is None,
            r.dtype == dtype,
    {
        Input { shape, batch_size: None, dtype }
    }

    /// Sets the batch-size override.
    pub fn batch_size(self, n: usize) -> (r: Self)
        ensures
            r.shape@ == self.shape@,
            r.batch_size == Some(n),
            r.dtype == self.dtype,
    {
        Input { batch_size: Some(n), ..self }
    }

    /// Whether two input specifications describe the same configuration.
    pub open spec fn equiv(&self, other: &Self) -> bool {
        self.shape@ == other.shape@ && self.batch_size == other.batch_size && self.dtype
            == other.dtype
    }
}

impl Clone for Input {
    /// Cloning preserves the configuration.
    fn clone(&self) -> (r: Self)
        ensures
            self.equiv(&r),
    {
        Input { shape: self.shape.clone(), batch_size: self.batch_size, dtype: self.dtype }
    }
}

impl LayerBuilder for Input {
    open spec fn builds_to(&self, r: &Self) -> bool {
        self.equiv(r)
    }

    fn build(&mut self) -> (r: Self) {
        self.clone()
    }
}

/// A dense (fully connected) layer: a kernel of shape `[input features,
/// units]`, an optional bias of shape `[units]`, and an optional
/// activation applied to the result.
///
/// `use_bias` records the logical choice alone: a bias tensor is
/// materialized only when a bias initializer was set explicitly, and
/// forward evaluation adds a bias exactly when the tensor is present.
pub struct Dense {
    /// The number of output features.
    pub units: usize,
    /// The activation applied after the affine map, if any.
    pub activation: Option<ActivationFn>,
    /// The logical bias toggle; see the type documentation.
    pub use_bias: bool,
    /// The kernel initializer; the fan-in-aware uniform when absent.
    pub kernel_initializer: Option<Initializer>,
    /// The bias initializer; its presence decides whether a bias tensor
    /// is materialized.
    pub bias_initializer: Option<Initializer>,
    /// An activity regularizer; stored for later use, not interpreted.
    pub activity_regularizer: Option<Regularizer>,
    /// A bias regularizer; stored for later use, not interpreted.
    pub bias_regularizer: Option<Regularizer>,
}

impl Dense {
    /// A fresh dense specification: bias logically on, nothing else set.
    pub fn new(units: usize) -> (r: Self)
        ensures
            r.units == units,
            r.activation is None,
            r.use_bias,
            r.kernel_initializer is None,
            r.bias_initializer is None,
            r.activity_regularizer is None,
            r.bias_regularizer is None,
    {
        Dense {
            units,
            activation: None,
            use_bias: true,
            kernel_initializer: None,
            bias_initializer: None,
            activity_regularizer: None,
            bias_regularizer: None,
        }
    }

    /// Sets the activation function.
    pub fn activation(self, a: ActivationFn) -> (r: Self)
        ensures
            r == (Dense { activation: Some(a), ..self }),
    {
        Dense { activation: Some(a), ..self }
    }

    /// Sets the logical bias toggle.
    pub fn use_bias(self, b: bool) -> (r: Self)
        ensures
            r == (Dense { use_bias: b, ..self }),
    {
        Dense { use_bias: b, ..self }
    }

    /// Sets the kernel initializer.
    pub fn kernel_initializer(self, i: Initializer) -> (r: Self)
        ensures
            r == (Dense { kernel_initializer: Some(i), ..self }),
    {
        Dense { kernel_initializer: Some(i), ..self }
    }

    /// Sets the bias initializer, which also materializes the bias tensor
    /// at compile time.
    pub fn bias_initializer(self, i: Initializer) -> (r: Self)
        ensures
            r == (Dense { bias_initializer: Some(i), ..self }),
    {
        Dense { bias_initializer: Some(i), ..self }
    }

    /// Sets the activity regularizer.
    pub fn activity_regularizer(self, reg: Regularizer) -> (r: Self)
        ensures
            r == (Dense { activity_regularizer: Some(reg), ..self }),
    {
        Dense { activity_regularizer: Some(reg), ..self }
    }

    /// Sets the bias regularizer.
    pub fn bias_regularizer(self, reg: Regularizer) -> (r: Self)
        ensures
            r == (Dense { bias_regularizer: Some(reg), ..self }),
    {
        Dense { bias_regularizer: Some(reg), ..self }
    }
}

impl Clone for Dense {
    /// Cloning preserves the configuration exactly.
    fn clone(&self) -> (r: Self)
        ensures
            r == *self,
    {
        Dense {
            units: self.units,
            activation: self.activation,
            use_bias: self.use_bias,
            kernel_initializer: self.kernel_initializer,
            bias_initializer: self.bias_initializer,
            activity_regularizer: match &self.activity_regularizer {
                Some(reg) => Some(reg.clone()),
                None => None,
            },
            bias_regularizer: match &self.bias_regularizer {
                Some(reg) => Some(reg.clone()),
                None => None,
            },
        }
    }
}

impl LayerBuilder for Dense {
    open spec fn builds_to(&self, r: &Self) -> bool {
        *self == *r
    }

    fn build(&mut self) -> (r: Self) {
        self.clone()
    }
}

/// A standalone activation layer: applies one activation function
/// elementwise; shape-transparent and parameter-free.
pub struct Activation {
    /// The activation function applied by the layer.
    pub activation: ActivationFn,
}

impl Activation {
    /// A fresh activation specification.
    pub fn new(activation: ActivationFn) -> (r: Self)
        ensures
            r.activation == activation,
    {
        Activation { activation }
    }
}

impl Clone for Activation {
    /// Cloning preserves the configuration exactly.
    fn clone(&self) -> (r: Self)
        ensures
            r == *self,
    {
        Activation { activation: self.activation }
    }
}

impl LayerBuilder for Activation {
    open spec fn builds_to(&self, r: &Self) -> bool {
        *self == *r
    }

    fn build(&mut self) -> (r: Self) {
        self.clone()
    }
}

/// One layer specification: the tagged sum over the layer kinds.
pub enum LayerSpec {
    /// An input declaration.
    Input(Input),
    /// A dense layer.
    Dense(Dense),
    /// A standalone activation.
    Activation(Activation),
}

impl Clone for LayerSpec {
    /// Cloning preserves the configuration.
    fn clone(&self) -> (r: Self)
        ensures
            self.equiv(&r),
    {
        match self {
            LayerSpec::Input(s) => LayerSpec::Input(s.clone()),
            LayerSpec::Dense(s) => LayerSpec::Dense(s.clone()),
            LayerSpec::Activation(s) => LayerSpec::Activation(s.clone()),
        }
    }
}

/// The compiled, executable form of a layer: shape-bound, parameter-bound,
/// immutable after compilation, exposing a stable name and a forward
/// evaluation.
pub enum CompiledLayer {
    /// The compiled input layer: the identity on tensors, carrying the
    /// resolved shape and declared element type.
    Input {
        /// The stable layer name.
        name: String,
        /// The resolved model input shape.
        shape: Shape,
        /// The batch-size override copied from the specification.
        batch_size: Option<usize>,
        /// The element type copied from the specification.
        dtype: Dtype,
    },
    /// The compiled dense layer.
    Dense {
        /// The stable layer name.
        name: String,
        /// The number of output features.
        units: usize,
        /// The activation applied after the affine map, if any.
        activation: Option<ActivationFn>,
        /// The kernel tensor, of shape `[input features, units]`.
        kernel: candle_core::Tensor,
        /// The bias tensor of shape `[units]`, present exactly when a
        /// bias initializer was configured.
        bias: Option<candle_core::Tensor>,
    },
    /// The compiled activation layer.
    Activation {
        /// The stable layer name.
        name: String,
        /// The activation function applied by the layer.
        activation: ActivationFn,
    },
}

impl LayerSpec {
    /// Whether two specifications describe the same configuration.
    pub open spec fn equiv(&self, other: &Self) -> bool {
        match (self, other) {
            (LayerSpec::Input(a), LayerSpec::Input(b)) => a.equiv(b),
            (LayerSpec::Dense(a), LayerSpec::Dense(b)) => a == b,
            (LayerSpec::Activation(a), LayerSpec::Activation(b)) => a == b,
            _ => false,
        }
    }

    /// The input shape this specification declares, if any: only an input
    /// declaration returns one; every other kind adapts to whatever shape
    /// it receives.
    pub open spec fn declared_input_dims(&self) -> Option<Seq<usize>> {
        match self {
            LayerSpec::Input(inp) => Some(inp.shape@),
            _ => None,
        }
    }

    /// The declared input shape, if any.
    pub fn input_shape(&self) -> (r: Option<Shape>)
        ensures
            r is Some <==> self.declared_input_dims() is Some,
            r matches Some(s) ==> self.declared_input_dims() == Some(s@),
    {
        match self {
            LayerSpec::Input(inp) => Some(inp.shape.clone()),
            _ => None,
        }
    }

    /// The parameter names and shapes this specification registers when
    /// compiled at index `i` against the resolved shape: the store map
    /// afterwards.
    pub open spec fn step_map(
        &self,
        m: Map<Seq<char>, Seq<usize>>,
        i: nat,
        resolved: Seq<usize>,
    ) -> Map<Seq<char>, Seq<usize>> {
        match self {
            LayerSpec::Dense(d) => {
                let m1 = m.insert(kernel_name_spec(i), seq![resolved.last(), d.units]);
                if d.bias_initializer is Some {
                    m1.insert(bias_name_spec(i), seq![d.units])
                } else {
                    m1
                }
            },
            _ => m,
        }
    }

    /// Whether compiling this specification at index `i` is free of
    /// parameter-name collisions against store contents `m`: every name it
    /// registers is either absent or already registered with the same
    /// shape.
    pub open spec fn step_ok(&self, m: Map<Seq<char>, Seq<usize>>, i: nat, resolved: Seq<usize>) -> bool {
        match self {
            LayerSpec::Dense(d) => {
                let kd = seq![resolved.last(), d.units];
                let m1 = m.insert(kernel_name_spec(i), kd);
                &&& (m.contains_key(kernel_name_spec(i)) ==> m[kernel_name_spec(i)] == kd)
                &&& (d.bias_initializer is Some ==> (m1.contains_key(bias_name_spec(i))
                    ==> m1[bias_name_spec(i)] == seq![d.units]))
            },
            _ => true,
        }
    }

    /// The initializer a dense specification's kernel is created with:
    /// the configured one, or the fan-in-aware uniform default.
    pub open spec fn kernel_init_of(d: Dense) -> Initializer {
        match d.kernel_initializer {
            Some(init) => init,
            None => Initializer::KaimingUniform,
        }
    }

    /// Whether every parameter this specification registers can be
    /// created by its initializer (see `init_creatable`): the one numeric
    /// refusal a fresh CPU store can make is a fan-in-aware initializer
    /// over a zero fan, e.g. a dense layer with zero units.
    pub open spec fn step_creatable(&self, resolved: Seq<usize>) -> bool {
        match self {
            LayerSpec::Dense(d) => {
                &&& init_creatable(Self::kernel_init_of(*d), seq![resolved.last(), d.units])
                &&& (d.bias_initializer matches Some(bi) ==> init_creatable(bi, seq![d.units]))
            },
            _ => true,
        }
    }

    /// What the compiled form of this specification looks like: the
    /// correspondence `compile` establishes between a specification at
    /// index `i`, the resolved input shape, and the produced layer.
    pub open spec fn compiles_to(&self, l: &CompiledLayer, i: nat, resolved: Seq<usize>) -> bool {
        match self {
            LayerSpec::Input(sp) => match l {
                CompiledLayer::Input { name, shape, batch_size, dtype } => {
                    &&& name@ == input_name_spec(i)
                    &&& shape@ == resolved
                    &&& *batch_size == sp.batch_size
                    &&& *dtype == sp.dtype
                },
                _ => false,
            },
            LayerSpec::Dense(sp) => match l {
                CompiledLayer::Dense { name, units, activation, kernel, bias } => {
                    &&& name@ == dense_name_spec(i)
                    &&& *units == sp.units
                    &&& *activation == sp.activation
                    &&& dims_of(*kernel) == seq![resolved.last(), sp.units]
                    &&& (bias is Some <==> sp.bias_initializer is Some)
                    &&& (bias matches Some(b) ==> dims_of(*b) == seq![sp.units])
                },
                _ => false,
            },
            LayerSpec::Activation(sp) => match l {
                CompiledLayer::Activation { name, activation } => {
                    &&& name@ == activation_name_spec(i)
                    &&& *activation == sp.activation
                },
                _ => false,
            },
        }
    }

    /// Compiles this specification at index `i` against the resolved
    /// input shape and the shared parameter store.  Input and activation
    /// specifications always compile; only dense layers allocate
    /// parameters, and on a CPU store their compilation fails exactly for
    /// a name collision or an initializer that refuses its shape.
    pub fn compile(
        &self,
        i: usize,
        input_shape: &Shape,
        store: &mut ParameterStore,
        device: &candle_core::Device,
    ) -> (r: Result<CompiledLayer, ModelError>)
        requires
            input_shape.wf(),
        ensures
            r matches Ok(l) ==> self.compiles_to(&l, i as nat, input_shape@) && l.wf(),
            r is Ok ==> final (store)@ == self.step_map(
                old(store)@,
                i as nat,
                input_shape@,
            ),
            r is Ok ==> self.step_ok(old(store)@, i as nat, input_shape@),
            r matches Err(e) ==> e == ModelError::ParameterNameCollision,
            r is Err ==> !(self.step_ok(old(store)@, i as nat, input_shape@)
                && self.step_creatable(input_shape@) && device_is_cpu(*device)),
            r is Err ==> old(store)@.submap_of(final (store)@),
            self matches LayerSpec::Input(_) ==> r is Ok,
            self matches LayerSpec::Activation(_) ==> r is Ok,
    {
        match self {
            LayerSpec::Input(sp) => {
                Ok(
                    CompiledLayer::Input {
                        name: input_name(i),
                        shape: input_shape.clone(),
                        batch_size: sp.batch_size,
                        dtype: sp.dtype,
                    },
                )
            },
            LayerSpec::Activation(sp) => {
                Ok(CompiledLayer::Activation { name: activation_name(i), activation: sp.activation })
            },
            LayerSpec::Dense(sp) => {
                let in_dim = input_shape.last_dim();
                let mut kdims: Vec<usize> = Vec::new();
                kdims.push(in_dim);
                kdims.push(sp.units);
                proof {
                    assert(kdims@ =~= seq![input_shape@.last(), sp.units]);
                }
                let kinit = match &sp.kernel_initializer {
                    Some(init) => *init,
                    None => Initializer::KaimingUniform,
                };
                let kname = kernel_name(i);
                let kernel = match store_get(store, kname.as_str(), &kdims, &kinit, &Dtype::F32, device) {
                    Ok(t) => t,
                    Err(e) => {
                        return Err(e);
                    },
                };
                let bias = match &sp.bias_initializer {
                    Some(binit) => {
                        let mut bdims: Vec<usize> = Vec::new();
                        bdims.push(sp.units);
                        proof {
                            assert(bdims@ =~= seq![sp.units]);
                        }
                        let bname = bias_name(i);
                        match store_get(store, bname.as_str(), &bdims, binit, &Dtype::F32, device) {
                            Ok(t) => Some(t),
                            Err(e) => {
                                return Err(e);
                            },
                        }
                    },
                    None => None,
                };
                Ok(
                    CompiledLayer::Dense {
                        name: dense_name(i),
                        units: sp.units,
                        activation: sp.activation,
                        kernel,
                        bias,
                    },
                )
            },
        }
    }
}

impl CompiledLayer {
    /// The layer's stable name, viewed as a character sequence.
    pub open spec fn spec_name(&self) -> Seq<char> {
        match self {
            CompiledLayer::Input { name, .. } => name@,
            CompiledLayer::Dense { name, .. } => name@,
            CompiledLayer::Activation { name, .. } => name@,
        }
    }

    /// Well-formedness: a dense layer's kernel is a matrix whose column
    /// count is its unit count, and its bias, when present, is a vector
    /// of that unit count.
    pub open spec fn wf(&self) -> bool {
        match self {
            CompiledLayer::Dense { units, kernel, bias, .. } => {
                &&& dims_of(*kernel).len() == 2
                &&& dims_of(*kernel)[1] == *units
                &&& (bias matches Some(b) ==> dims_of(*b) == seq![*units])
            },
            _ => true,
        }
    }

    /// The dimensions this layer produces from input dimensions, or
    /// nothing where the input does not fit: input and activation layers
    /// are shape-transparent; a dense layer maps `[batch, features]` to
    /// `[batch, units]` and accepts nothing else.
    pub open spec fn out_dims(&self, in_dims: Seq<usize>) -> Option<Seq<usize>> {
        match self {
            CompiledLayer::Dense { kernel, .. } => {
                if in_dims.len() == 2 && in_dims[1] == dims_of(*kernel)[0] {
                    Some(seq![in_dims[0], dims_of(*kernel)[1]])
                } else {
                    None
                }
            },
            _ => Some(in_dims),
        }
    }

    /// The layer's stable name.
    pub fn name(&self) -> (r: String)
        ensures
            r@ == self.spec_name(),
    {
        match self {
            CompiledLayer::Input { name, .. } => name.clone(),
            CompiledLayer::Dense { name, .. } => name.clone(),
            CompiledLayer::Activation { name, .. } => name.clone(),
        }
    }

    /// Forward evaluation: pure with respect to the layer's parameters,
    /// which it never mutates.  An input whose dimensions the layer does
    /// not accept is refused with `ForwardFailure`; on success the result
    /// has exactly the dimensions `out_dims` gives.
    pub fn forward(&self, xs: &candle_core::Tensor) -> (r: Result<candle_core::Tensor, ModelError>)
        requires
            self.wf(),
        ensures
            r matches Ok(t) ==> self.out_dims(dims_of(*xs)) == Some(dims_of(t)),
            r is Err || self.out_dims(dims_of(*xs)) is Some,
            r matches Err(e) ==> e == ModelError::ForwardFailure,
            self matches CompiledLayer::Input { .. } ==> (r matches Ok(t) && t == *xs),
            self matches CompiledLayer::Activation { activation, .. } ==> (r is Ok
                <==> activation_succeeds(*activation, *xs)),
            self matches CompiledLayer::Dense { kernel, .. } ==> (r is Ok ==> matmul_succeeds(
                *xs,
                *kernel,
            )),
            self matches CompiledLayer::Dense { kernel, bias, activation, .. } ==> (bias is None
                && activation is None && self.out_dims(dims_of(*xs)) is Some && matmul_succeeds(
                *xs,
                *kernel,
            ) ==> r is Ok),
    {
        match self {
            CompiledLayer::Input { .. } => Ok(clone_tensor(xs)),
            CompiledLayer::Activation { activation, .. } => apply_activation(activation, xs),
            CompiledLayer::Dense { activation, kernel, bias, .. } => {
                let xdims = tensor_dims(xs);
                let kdims = tensor_dims(kernel);
                if xdims.len() != 2 || xdims[1] != kdims[0] {
                    return Err(ModelError::ForwardFailure);
                }
                let mut cur = matmul(xs, kernel)?;
                cur = match bias {
                    Some(b) => {
                        proof {
                            lemma_bias_broadcast(dims_of(cur), dims_of(*b));
                        }
                        broadcast_add(&cur, b)?
                    },
                    None => cur,
                };
                cur = match activation {
                    Some(f) => apply_activation(f, &cur)?,
                    None => cur,
                };
                Ok(cur)
            },
        }
    }
}

impl Layer for CompiledLayer {
    open spec fn ready(&self) -> bool {
        self.wf()
    }

    fn name(&self) -> String {
        CompiledLayer::name(self)
    }

    fn forward(&self, xs: &candle_core::Tensor) -> Result<candle_core::Tensor, ModelError> {
        CompiledLayer::forward(self, xs)
    }
}

/// Adding a `[units]` bias to a `[batch, units]` matrix broadcasts to the
/// matrix shape.
proof fn lemma_bias_broadcast(a: Seq<usize>, b: Seq<usize>)
    requires
        a.len() == 2,
        b.len() == 1,
        b[0] == a[1],
    ensures
        broadcast_ok(a, b),
        broadcast_dims(a, b) == a,
{
    assert forall|k: int| 0 <= k < 2 implies #[trigger] bc_pos_ok(a, b, k) by {
        if k == 0 {
        } else {
        }
    }
    assert(broadcast_dims(a, b) =~= a);
}

} // verus!
