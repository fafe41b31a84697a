//! Sequential model composition and the training loop.
//!
//! [`Sequential`] collects an ordered list of layer specifications and
//! compiles them into a [`SequentialModel`]: the executable pipeline bound
//! to one resolved input shape and a shared parameter store.  Compilation
//! resolves the input shape from the first specification that declares
//! one and compiles every layer, in list order, against that single
//! resolved shape.  Forward evaluation threads a tensor through the
//! compiled layers as a left fold in list order; `fit` drives the
//! training loop of forward pass, squared-error loss reduction, backward
//! pass and optimizer step.
use vstd::prelude::*;

use crate::error::ModelError;
use crate::layers::CompiledLayer;
use crate::layers::LayerSpec;
use crate::names::bias_name_spec;
use crate::names::kernel_name_spec;
use crate::names::lemma_bias_names_distinct;
use crate::names::lemma_kernel_bias_distinct;
use crate::names::lemma_kernel_names_distinct;
use crate::names::str_eq;
use crate::optimizer::Optimizer;
use crate::optimizer::Optimizers;
use crate::shape::Loss;
use crate::shape::Dtype;
use crate::shape::Shape;
use crate::optimizer::tensor_on_cpu;
use crate::store::clone_handle;
use crate::store::store_all_vars;
use crate::store::ParameterStore;
use crate::tensor::activation_succeeds;
use crate::tensor::broadcast_sub;
use crate::tensor::clone_device;
use crate::tensor::clone_tensor;
use crate::tensor::device_is_cpu;
use crate::tensor::dims_of;
use crate::tensor::matmul_succeeds;
use crate::tensor::scalar_from_u32;
use crate::tensor::tensor_add;
use crate::tensor::tensor_sqr;
use crate::tensor::tensor_sum_all;

verus! {

/// The input dimensions a specification list resolves to: those declared
/// by the first specification that declares any, if one exists.
pub open spec fn resolved_dims(specs: Seq<LayerSpec>) -> Option<Seq<usize>>
    decreases specs.len(),
{
    if specs.len() == 0 {
        None
    } else if specs[0].declared_input_dims() is Some {
        specs[0].declared_input_dims()
    } else {
        resolved_dims(specs.drop_first())
    }
}

/// The store contents after compiling the first `n` specifications
/// against `resolved`, starting from contents `m`.
pub open spec fn maps_after(
    m: Map<Seq<char>, Seq<usize>>,
    specs: Seq<LayerSpec>,
    resolved: Seq<usize>,
    n: int,
) -> Map<Seq<char>, Seq<usize>>
    decreases n,
{
    if n <= 0 {
        m
    } else {
        specs[n - 1].step_map(maps_after(m, specs, resolved, n - 1), (n - 1) as nat, resolved)
    }
}

/// Whether compiling the first `n` specifications against `resolved`,
/// starting from store contents `m`, meets no parameter-name collision.
pub open spec fn steps_ok(
    m: Map<Seq<char>, Seq<usize>>,
    specs: Seq<LayerSpec>,
    resolved: Seq<usize>,
    n: int,
) -> bool {
    forall|k: int|
        0 <= k < n ==> specs[k].step_ok(
            #[trigger] maps_after(m, specs, resolved, k),
            k as nat,
            resolved,
        )
}

/// The dimensions a compiled pipeline produces from input dimensions, as
/// a left fold in list order, or nothing where some layer refuses its
/// input.
pub open spec fn pipe_out_dims(ls: Seq<CompiledLayer>, d: Seq<usize>) -> Option<Seq<usize>>
    decreases ls.len(),
{
    if ls.len() == 0 {
        Some(d)
    } else {
        match ls[0].out_dims(d) {
            Some(m) => pipe_out_dims(ls.drop_first(), m),
            None => None,
        }
    }
}

/// Whether every layer of a pipeline is an input (identity) layer.
pub open spec fn all_input(ls: Seq<CompiledLayer>) -> bool {
    forall|k: int|
        0 <= k < ls.len() ==> (#[trigger] ls[k]) matches CompiledLayer::Input { .. }
}

/// Composition respects declared order exactly: a concatenated pipeline
/// maps its input through the first part, then through the second.
pub proof fn lemma_pipe_compose(ls1: Seq<CompiledLayer>, ls2: Seq<CompiledLayer>, d: Seq<usize>)
    ensures
        pipe_out_dims(ls1 + ls2, d) == (match pipe_out_dims(ls1, d) {
            Some(m) => pipe_out_dims(ls2, m),
            None => None::<Seq<usize>>,
        }),
    decreases ls1.len(),
{
    if ls1.len() == 0 {
        assert(ls1 + ls2 =~= ls2);
    } else {
        assert((ls1 + ls2)[0] == ls1[0]);
        assert((ls1 + ls2).drop_first() =~= ls1.drop_first() + ls2);
        match ls1[0].out_dims(d) {
            Some(m) => {
                lemma_pipe_compose(ls1.drop_first(), ls2, m);
            },
            None => {
            },
        }
    }
}

/// A list that contains an input declaration anywhere always resolves an
/// input shape.
pub proof fn lemma_input_spec_resolves(specs: Seq<LayerSpec>, i: int)
    requires
        0 <= i < specs.len(),
        specs[i].declared_input_dims() is Some,
    ensures
        resolved_dims(specs) is Some,
    decreases specs.len(),
{
    if specs[0].declared_input_dims() is None {
        assert(specs.drop_first()[i - 1] == specs[i]);
        lemma_input_spec_resolves(specs.drop_first(), i - 1);
    }
}

/// A prefix of specifications that declare no input shape does not change
/// what the list resolves to.
proof fn lemma_resolved_skip(specs: Seq<LayerSpec>, i: int)
    requires
        0 <= i <= specs.len(),
        forall|k: int| 0 <= k < i ==> (#[trigger] specs[k].declared_input_dims()) is None,
    ensures
        resolved_dims(specs) == resolved_dims(specs.skip(i)),
    decreases i,
{
    if i == 0 {
        assert(specs.skip(0) =~= specs);
    } else {
        lemma_resolved_skip(specs, i - 1);
        let s = specs.skip(i - 1);
        assert(s.len() == specs.len() - (i - 1));
        assert(s[0] == specs[i - 1]);
        assert(specs[i - 1].declared_input_dims() is None);
        assert(s.drop_first() =~= specs.skip(i));
        assert(resolved_dims(s) == resolved_dims(s.drop_first()));
    }
}

/// Whether every specification's parameters can be created by their
/// initializers against the resolved shape (see
/// `LayerSpec::step_creatable`).
pub open spec fn all_creatable(specs: Seq<LayerSpec>, resolved: Seq<usize>) -> bool {
    forall|k: int| 0 <= k < specs.len() ==> (#[trigger] specs[k]).step_creatable(resolved)
}

/// Whether `key` is the kernel or bias name of some layer index below
/// `n`.
pub open spec fn param_name_below(key: Seq<char>, n: int) -> bool
    decreases n,
{
    if n <= 0 {
        false
    } else {
        key == kernel_name_spec((n - 1) as nat) || key == bias_name_spec((n - 1) as nat)
            || param_name_below(key, n - 1)
    }
}

/// A kernel name of index `i` is not a parameter name of any index below
/// `n` when `n` does not exceed `i`.
proof fn lemma_kernel_name_not_below(i: nat, n: int)
    requires
        n <= i,
    ensures
        !param_name_below(kernel_name_spec(i), n),
    decreases n,
{
    if n > 0 {
        lemma_kernel_names_distinct(i, (n - 1) as nat);
        lemma_kernel_bias_distinct(i, (n - 1) as nat);
        lemma_kernel_name_not_below(i, n - 1);
    }
}

/// A bias name of index `i` is not a parameter name of any index below
/// `n` when `n` does not exceed `i`.
proof fn lemma_bias_name_not_below(i: nat, n: int)
    requires
        n <= i,
    ensures
        !param_name_below(bias_name_spec(i), n),
    decreases n,
{
    if n > 0 {
        lemma_kernel_bias_distinct((n - 1) as nat, i);
        lemma_bias_names_distinct(i, (n - 1) as nat);
        lemma_bias_name_not_below(i, n - 1);
    }
}

/// Every name registered by the first `n` compilation steps is either an
/// original store name or a kernel or bias name of a layer index below
/// `n`.
proof fn lemma_maps_after_dom(
    m: Map<Seq<char>, Seq<usize>>,
    specs: Seq<LayerSpec>,
    resolved: Seq<usize>,
    n: int,
)
    requires
        0 <= n <= specs.len(),
    ensures
        forall|key: Seq<char>|
            #[trigger] maps_after(m, specs, resolved, n).contains_key(key) ==> m.contains_key(key)
                || param_name_below(key, n),
    decreases n,
{
    if n > 0 {
        lemma_maps_after_dom(m, specs, resolved, n - 1);
        assert forall|key: Seq<char>|
            #[trigger] maps_after(m, specs, resolved, n).contains_key(key) implies m.contains_key(
            key,
        ) || param_name_below(key, n) by {
            let prev = maps_after(m, specs, resolved, n - 1);
            if prev.contains_key(key) {
                assert(m.contains_key(key) || param_name_below(key, n - 1));
            } else {
                match specs[n - 1] {
                    LayerSpec::Dense(d) => {
                        assert(key == kernel_name_spec((n - 1) as nat) || key == bias_name_spec(
                            (n - 1) as nat,
                        ));
                    },
                    _ => {
                        assert(false);
                    },
                }
            }
        }
    }
}

/// Compiling any specification list against a fresh (empty) store meets
/// no parameter-name collision: each layer's parameter names are keyed by
/// its own index, and distinct indices yield distinct names.
pub proof fn lemma_fresh_store_steps_ok(specs: Seq<LayerSpec>, resolved: Seq<usize>)
    ensures
        steps_ok(Map::<Seq<char>, Seq<usize>>::empty(), specs, resolved, specs.len() as int),
{
    let m0 = Map::<Seq<char>, Seq<usize>>::empty();
    assert forall|k: int| 0 <= k < specs.len() implies specs[k].step_ok(
        #[trigger] maps_after(m0, specs, resolved, k),
        k as nat,
        resolved,
    ) by {
        let mk = maps_after(m0, specs, resolved, k);
        lemma_maps_after_dom(m0, specs, resolved, k);
        match specs[k] {
            LayerSpec::Dense(d) => {
                let kn = kernel_name_spec(k as nat);
                let bn = bias_name_spec(k as nat);
                assert(!m0.contains_key(kn));
                assert(!m0.contains_key(bn));
                lemma_kernel_name_not_below(k as nat, k);
                lemma_bias_name_not_below(k as nat, k);
                assert(!mk.contains_key(kn));
                let m1 = mk.insert(kn, seq![resolved.last(), d.units]);
                if d.bias_initializer is Some && m1.contains_key(bn) {
                    lemma_kernel_bias_distinct(k as nat, k as nat);
                    assert(mk.contains_key(bn));
                    assert(false);
                }
            },
            _ => {
            },
        }
    }
}

/// Whether `m` holds every entry of `m0`, unchanged.
pub open spec fn map_extends(m0: Map<Seq<char>, Seq<usize>>, m: Map<Seq<char>, Seq<usize>>) -> bool {
    forall|key: Seq<char>| #[trigger] m0.contains_key(key) ==> m.contains_key(key) && m[key] == m0[key]
}

/// A collision-free compilation step never changes a name already
/// registered: the step's store contents extend what was there.
proof fn lemma_step_preserves_submap(
    m0: Map<Seq<char>, Seq<usize>>,
    m: Map<Seq<char>, Seq<usize>>,
    s: LayerSpec,
    i: nat,
    rd: Seq<usize>,
)
    requires
        map_extends(m0, m),
        s.step_ok(m, i, rd),
    ensures
        map_extends(m0, s.step_map(m, i, rd)),
{
    match s {
        LayerSpec::Dense(d) => {
            let kn = kernel_name_spec(i);
            let bn = bias_name_spec(i);
            let kd = seq![rd.last(), d.units];
            let m1 = m.insert(kn, kd);
            let mf = s.step_map(m, i, rd);
            lemma_kernel_bias_distinct(i, i);
            assert forall|key: Seq<char>| #[trigger] m0.contains_key(key) implies mf.contains_key(
                key,
            ) && mf[key] == m0[key] by {
                assert(m.contains_key(key) && m[key] == m0[key]);
                if key == kn {
                    assert(m[kn] == kd);
                }
                if d.bias_initializer is Some && key == bn {
                    assert(m1.contains_key(bn) && m1[bn] == m[bn]);
                    assert(m1[bn] == seq![d.units]);
                }
            }
        },
        _ => {
        },
    }
}

/// The diagnostics `fit` returns: the loss accumulated over all epochs,
/// as a scalar tensor.
pub struct TrainOutput {
    /// The accumulated scalar loss.
    pub loss: candle_core::Tensor,
}

/// An ordered collection of layer specifications: the builder of a
/// sequential model.
pub struct Sequential {
    layers: Vec<LayerSpec>,
}

impl Sequential {
    /// The collected specifications, in declaration order.
    pub closed spec fn specs(&self) -> Seq<LayerSpec> {
        self.layers@
    }

    /// An empty architecture.
    pub fn new() -> (r: Sequential)
        ensures
            r.specs() == Seq::<LayerSpec>::empty(),
    {
        Sequential { layers: Vec::new() }
    }

    /// Appends one layer specification; order is significant and defines
    /// the forward path.
    pub fn add_layer(self, layer: LayerSpec) -> (r: Sequential)
        ensures
            r.specs() == self.specs().push(layer),
    {
        let mut layers = self.layers;
        layers.push(layer);
        Sequential { layers }
    }

    /// Compiles the collected specifications into a model.
    ///
    /// The declared input shape is resolved from the first specification
    /// that provides one; every layer is then compiled, in list order,
    /// against that single resolved shape and the shared store.  An empty
    /// list and a list with no declared shape are rejected; a
    /// parameter-name collision in the store, or an initializer refusing
    /// its shape (a fan-in-aware initializer over zero units), aborts
    /// compilation.  On a CPU device those are the only failures: a
    /// collision-free, creatable list always compiles, and the compiled
    /// model has exactly one layer per specification.
    pub fn compile(
        &self,
        variables: &mut ParameterStore,
        device: &candle_core::Device,
        loss: Loss,
        optimizer: Optimizers,
    ) -> (r: Result<SequentialModel, ModelError>)
        requires
            forall|i: int|
                0 <= i < self.specs().len() ==> ((#[trigger] self.specs()[i]) matches
                    LayerSpec::Input(inp) ==> inp.shape.wf()),
        ensures
            self.specs().len() == 0 ==> r == Err::<SequentialModel, ModelError>(
                ModelError::EmptyArchitecture,
            ),
            self.specs().len() > 0 && resolved_dims(self.specs()) is None ==> r == Err::<
                SequentialModel,
                ModelError,
            >(ModelError::MissingInputShape),
            self.specs().len() > 0 ==> (resolved_dims(self.specs()) matches Some(rd) && steps_ok(
                old(variables)@,
                self.specs(),
                rd,
                self.specs().len() as int,
            ) && all_creatable(self.specs(), rd) && device_is_cpu(*device) ==> r is Ok),
            r matches Ok(model) ==> {
                let rd = resolved_dims(self.specs()).unwrap();
                &&& self.specs().len() > 0
                &&& resolved_dims(self.specs()) is Some
                &&& model.wf()
                &&& model.spec_layers().len() == self.specs().len()
                &&& forall|i: int|
                    0 <= i < self.specs().len() ==> self.specs()[i].compiles_to(
                        &(#[trigger] model.spec_layers()[i]),
                        i as nat,
                        rd,
                    )
                &&& steps_ok(
                    old(variables)@,
                    self.specs(),
                    rd,
                    self.specs().len() as int,
                )
                &&& final (variables)@ == maps_after(
                    old(variables)@,
                    self.specs(),
                    rd,
                    self.specs().len() as int,
                )
                &&& model.spec_device() == *device
                &&& model.spec_loss() == loss
                &&& model.spec_optimizers() == optimizer
            },
            r matches Err(e) ==> e == ModelError::EmptyArchitecture || e
                == ModelError::MissingInputShape || e == ModelError::ParameterNameCollision || e
                == ModelError::ForwardFailure,
            r == Err::<SequentialModel, ModelError>(ModelError::EmptyArchitecture) ==> self.specs().len() == 0,
            r == Err::<SequentialModel, ModelError>(ModelError::MissingInputShape) ==> self.specs().len() > 0
                && resolved_dims(self.specs()) is None,
            r == Err::<SequentialModel, ModelError>(ModelError::ParameterNameCollision) ==> !(
            resolved_dims(self.specs()) matches Some(rd) && steps_ok(
                old(variables)@,
                self.specs(),
                rd,
                self.specs().len() as int,
            ) && all_creatable(self.specs(), rd) && device_is_cpu(*device)),
            r == Err::<SequentialModel, ModelError>(ModelError::EmptyArchitecture) ==> final (variables)@
                == old(variables)@,
            r == Err::<SequentialModel, ModelError>(ModelError::MissingInputShape) ==> final (variables)@ == old(variables)@,
            r == Err::<SequentialModel, ModelError>(ModelError::ForwardFailure) ==> !device_is_cpu(
                *device,
            ),
            r is Err ==> map_extends(old(variables)@, final (variables)@),
    {
        let n = self.layers.len();
        if n == 0 {
            return Err(ModelError::EmptyArchitecture);
        }
        // Resolve the declared input shape from the first spec providing one.
        let mut idx: usize = 0;
        let mut found: Option<Shape> = None;
        while idx < n && found.is_none()
            invariant
                n == self.specs().len(),
                idx <= n,
                found is None ==> forall|k: int|
                    0 <= k < idx ==> (#[trigger] self.specs()[k].declared_input_dims()) is None,
                found matches Some(s) ==> idx < n && self.specs()[idx as int].declared_input_dims()
                    == Some(s@) && forall|k: int|
                    0 <= k < idx ==> (#[trigger] self.specs()[k].declared_input_dims()) is None,
            decreases n - idx, (if found is None { 1int } else { 0int }),
        {
            match self.layers[idx].input_shape() {
                Some(s) => {
                    found = Some(s);
                },
                None => {
                    idx = idx + 1;
                },
            }
        }
        let input_shape = match found {
            Some(s) => s,
            None => {
                proof {
                    lemma_resolved_skip(self.specs(), n as int);
                    assert(self.specs().skip(n as int) =~= Seq::<LayerSpec>::empty());
                }
                return Err(ModelError::MissingInputShape);
            },
        };
        proof {
            lemma_resolved_skip(self.specs(), idx as int);
            let s = self.specs().skip(idx as int);
            assert(s[0] == self.specs()[idx as int]);
            assert(resolved_dims(self.specs()) == Some(input_shape@));
            assert(self.specs()[idx as int] matches LayerSpec::Input(inp) && inp.shape@
                == input_shape@);
            assert(input_shape.wf());
        }
        let ghost m0 = variables@;
        let ghost rd = input_shape@;
        let mut compiled: Vec<CompiledLayer> = Vec::new();
        let mut i: usize = 0;
        while i < n
            invariant
                n == self.specs().len(),
                i <= n,
                input_shape.wf(),
                rd == input_shape@,
                resolved_dims(self.specs()) == Some(rd),
                compiled@.len() == i,
                forall|k: int|
                    0 <= k < i ==> self.specs()[k].compiles_to(
                        &(#[trigger] compiled@[k]),
                        k as nat,
                        rd,
                    ) && compiled@[k].wf(),
                variables@ == maps_after(m0, self.specs(), rd, i as int),
                steps_ok(m0, self.specs(), rd, i as int),
                m0 == old(variables)@,
                map_extends(m0, variables@),
            decreases n - i,
        {
            let ghost m_before = variables@;
            match self.layers[i].compile(i, &input_shape, variables, device) {
                Ok(l) => {
                    compiled.push(l);
                    proof {
                        assert(self.specs()[i as int].step_ok(m_before, i as nat, rd));
                        lemma_step_preserves_submap(
                            m0,
                            m_before,
                            self.specs()[i as int],
                            i as nat,
                            rd,
                        );
                        assert(variables@ == maps_after(
                            m0,
                            self.specs(),
                            rd,
                            i as int + 1,
                        ));
                        assert forall|k: int| 0 <= k < i as int + 1 implies self.specs()[
                        k].step_ok(
                            #[trigger] maps_after(m0, self.specs(), rd, k),
                            k as nat,
                            rd,
                        ) by {}
                    }
                },
                Err(e) => {
                    proof {
                        if steps_ok(m0, self.specs(), rd, n as int) && all_creatable(
                            self.specs(),
                            rd,
                        ) && device_is_cpu(*device) {
                            assert(self.specs()[i as int].step_ok(
                                maps_after(m0, self.specs(), rd, i as int),
                                i as nat,
                                rd,
                            ));
                            assert(self.specs()[i as int].step_creatable(rd));
                            assert(false);
                        }
                        assert(old(variables)@.submap_of(variables@));
                        assert forall|key: Seq<char>| #[trigger] m0.contains_key(key) implies
                            variables@.contains_key(key) && variables@[key]
                            == m0[key] by {
                            assert(m_before.contains_key(key) && m_before[key] == m0[key]);
                        }
                    }
                    return Err(e);
                },
            }
            i = i + 1;
        }
        let zero_loss = match scalar_from_u32(0, &Dtype::F32, device) {
            Ok(t) => t,
            Err(e) => {
                return Err(e);
            },
        };
        Ok(
            SequentialModel {
                layers: compiled,
                variables: variables.handle(),
                device: clone_device(device),
                loss,
                optimizers: optimizer,
                zero_loss,
            },
        )
    }
}

/// A compiled sequential model: the ordered pipeline of compiled layers,
/// a runtime handle onto the shared parameter store, the loss tag it was
/// compiled with, its optimizer configuration, and the device it lives
/// on.  The caller, not the model, controls the store's lifetime: the
/// model holds a handle onto the caller's store, both observe the same
/// parameters, and the handle's contents are not modeled by the verifier
/// (the store is shared and mutable).
pub struct SequentialModel {
    layers: Vec<CompiledLayer>,
    variables: candle_nn::VarMap,
    device: candle_core::Device,
    loss: Loss,
    optimizers: Optimizers,
    zero_loss: candle_core::Tensor,
}

impl SequentialModel {
    /// The compiled layers, in forward order.
    pub closed spec fn spec_layers(&self) -> Seq<CompiledLayer> {
        self.layers@
    }

    /// The device the model was compiled for.
    pub closed spec fn spec_device(&self) -> candle_core::Device {
        self.device
    }

    /// The loss tag the model reports.
    pub closed spec fn spec_loss(&self) -> Loss {
        self.loss
    }

    /// The optimizer configuration the model was compiled with.
    pub closed spec fn spec_optimizers(&self) -> Optimizers {
        self.optimizers
    }

    /// The zero scalar created at compile time, the starting value of
    /// the accumulated loss.
    pub closed spec fn spec_zero_loss(&self) -> candle_core::Tensor {
        self.zero_loss
    }

    /// Well-formedness: at least one layer, every layer well-formed, and
    /// a scalar zero-loss tensor.
    pub open spec fn wf(&self) -> bool {
        &&& self.spec_layers().len() > 0
        &&& (forall|i: int|
            0 <= i < self.spec_layers().len() ==> (#[trigger] self.spec_layers()[i]).wf())
        &&& dims_of(self.spec_zero_loss()) == Seq::<usize>::empty()
    }

    /// The compiled layers, in forward order.
    pub fn layers(&self) -> (r: &Vec<CompiledLayer>)
        ensures
            r@ == self.spec_layers(),
    {
        &self.layers
    }

    /// Another runtime handle onto the parameter store shared with the
    /// caller, for inspection and persistence.  The handle's contents are
    /// not modeled: the store is shared and mutable, so no claim of a
    /// clone's contents would stay true.
    pub fn variables(&self) -> candle_nn::VarMap {
        clone_handle(&self.variables)
    }

    /// The loss tag the model was compiled with.  Informational: the
    /// training loop's reduction is fixed (see `fit`).
    pub fn loss(&self) -> (r: Loss)
        ensures
            r == self.spec_loss(),
    {
        self.loss
    }

    /// Builds the optimizer described by the model's configuration over
    /// the store's current trainable parameters.  The built optimizer
    /// realizes the configuration; which variables the runtime handle
    /// yields is not modeled (the store is shared), so the binding itself
    /// is stated only at `Optimizers::build`, whose variable list is
    /// explicit.
    pub fn optimizer(&self) -> (r: Result<Optimizer, ModelError>)
        ensures
            r matches Err(e) ==> e == ModelError::ForwardFailure || e == ModelError::NonScalarLoss,
            r matches Ok(o) ==> self.spec_optimizers().describes(&o),
            r matches Err(e) && e == ModelError::NonScalarLoss ==> self.spec_optimizers() matches
                Optimizers::Sgd(_),
            self.spec_optimizers() matches Optimizers::Sgd(lr) ==> (r is Ok || !(tensor_on_cpu(lr)
                && dims_of(lr) == Seq::<usize>::empty())),
    {
        let vars = store_all_vars(&self.variables);
        self.optimizers.build(vars)
    }

    /// Looks a layer up by index.
    fn layer_by_index(&self, i: usize) -> (r: Result<&CompiledLayer, ModelError>)
        ensures
            i < self.spec_layers().len() ==> (r matches Ok(l) && *l == self.spec_layers()[i as int]),
            i >= self.spec_layers().len() ==> r == Err::<&CompiledLayer, ModelError>(
                ModelError::LayerIndexOutOfBounds,
            ),
    {
        if i < self.layers.len() {
            Ok(&self.layers[i])
        } else {
            Err(ModelError::LayerIndexOutOfBounds)
        }
    }

    /// Looks a layer up by name: the first layer, in forward order, whose
    /// stable name equals the query.
    fn layer_by_name(&self, nm: &str) -> (r: Result<&CompiledLayer, ModelError>)
        ensures
            r matches Ok(l) ==> exists|j: int|
                0 <= j < self.spec_layers().len() && *l == self.spec_layers()[j]
                    && (#[trigger] self.spec_layers()[j].spec_name()) == nm@ && forall|k: int|
                    0 <= k < j ==> (#[trigger] self.spec_layers()[k].spec_name()) != nm@,
            r is Err ==> forall|j: int|
                0 <= j < self.spec_layers().len() ==> (#[trigger] self.spec_layers()[
                j].spec_name()) != nm@,
            r matches Err(e) ==> e == ModelError::LayerNotFound,
    {
        let mut j: usize = 0;
        while j < self.layers.len()
            invariant
                j <= self.spec_layers().len(),
                forall|k: int|
                    0 <= k < j ==> (#[trigger] self.spec_layers()[k].spec_name()) != nm@,
            decreases self.spec_layers().len() - j,
        {
            let name = self.layers[j].name();
            if str_eq(name.as_str(), nm) {
                return Ok(&self.layers[j]);
            }
            j = j + 1;
        }
        Err(ModelError::LayerNotFound)
    }

    /// Looks a layer up by exactly one of name and index.  Supplying
    /// both, or neither, is ambiguous and refused; an index past the end
    /// and a name matching no layer are refused with their own errors.
    pub fn get_layer(&self, name: Option<&str>, index: Option<usize>) -> (r: Result<
        &CompiledLayer,
        ModelError,
    >)
        ensures
            name is Some && index is Some ==> r == Err::<&CompiledLayer, ModelError>(
                ModelError::LayerAccessAmbiguous,
            ),
            name is None && index is None ==> r == Err::<&CompiledLayer, ModelError>(
                ModelError::LayerAccessAmbiguous,
            ),
            name is None ==> (index matches Some(i) ==> {
                &&& (i < self.spec_layers().len() ==> (r matches Ok(l) && *l
                    == self.spec_layers()[i as int]))
                &&& (i >= self.spec_layers().len() ==> r == Err::<&CompiledLayer, ModelError>(
                    ModelError::LayerIndexOutOfBounds,
                ))
            }),
            index is None ==> (name matches Some(nm) ==> {
                &&& (r matches Ok(l) ==> exists|j: int|
                    0 <= j < self.spec_layers().len() && *l == self.spec_layers()[j] && (
                    #[trigger] self.spec_layers()[j].spec_name()) == nm@ && forall|k: int|
                        0 <= k < j ==> (#[trigger] self.spec_layers()[k].spec_name()) != nm@)
                &&& (r is Err ==> forall|j: int|
                    0 <= j < self.spec_layers().len() ==> (#[trigger] self.spec_layers()[
                    j].spec_name()) != nm@)
                &&& (r matches Err(e) ==> e == ModelError::LayerNotFound)
            }),
    {
        match (name, index) {
            (Some(_), Some(_)) => Err(ModelError::LayerAccessAmbiguous),
            (None, None) => Err(ModelError::LayerAccessAmbiguous),
            (None, Some(i)) => self.layer_by_index(i),
            (Some(nm), None) => self.layer_by_name(nm),
        }
    }

    /// Forward evaluation: threads the input through every compiled
    /// layer in list order, as a left fold with no branching.  A failure
    /// in any layer aborts the whole pass.  On success the result's
    /// dimensions are exactly those the pipeline assigns to the input's
    /// dimensions.  A pipeline of input layers alone always succeeds; a
    /// single-layer pipeline succeeds under its layer's own stated
    /// success condition.
    pub fn forward(&self, xs: &candle_core::Tensor) -> (r: Result<candle_core::Tensor, ModelError>)
        requires
            self.wf(),
        ensures
            r matches Ok(t) ==> pipe_out_dims(self.spec_layers(), dims_of(*xs)) == Some(dims_of(t)),
            r is Err || pipe_out_dims(self.spec_layers(), dims_of(*xs)) is Some,
            r matches Err(e) ==> e == ModelError::ForwardFailure,
            r is Ok || !all_input(self.spec_layers()),
            r is Ok ==> (self.spec_layers()[0] matches CompiledLayer::Activation {
                activation,
                ..
            } ==> activation_succeeds(activation, *xs)),
            self.spec_layers().len() == 1 ==> (self.spec_layers()[0] matches
                CompiledLayer::Activation { activation, .. } ==> (activation_succeeds(
                activation,
                *xs,
            ) ==> r is Ok)),
            self.spec_layers().len() == 1 ==> (self.spec_layers()[0] matches CompiledLayer::Dense {
                kernel,
                bias,
                activation,
                ..
            } ==> (bias is None && activation is None && self.spec_layers()[0].out_dims(
                dims_of(*xs),
            ) is Some && matmul_succeeds(*xs, kernel) ==> r is Ok)),
    {
        let mut cur = clone_tensor(xs);
        proof {
            assert(self.spec_layers().skip(0) =~= self.spec_layers());
        }
        let mut i: usize = 0;
        while i < self.layers.len()
            invariant
                self.wf(),
                i <= self.spec_layers().len(),
                pipe_out_dims(self.spec_layers().skip(i as int), dims_of(cur)) == pipe_out_dims(
                    self.spec_layers(),
                    dims_of(*xs),
                ),
                i == 0 ==> cur == *xs,
                i > 0 ==> (self.spec_layers()[0] matches CompiledLayer::Activation {
                    activation,
                    ..
                } ==> activation_succeeds(activation, *xs)),
            decreases self.spec_layers().len() - i,
        {
            let ghost pre = dims_of(cur);
            let next = match self.layers[i].forward(&cur) {
                Ok(t) => t,
                Err(e) => {
                    proof {
                        if all_input(self.spec_layers()) {
                            assert(self.spec_layers()[i as int] matches CompiledLayer::Input {
                                ..
                            });
                            assert(false);
                        }
                    }
                    return Err(e);
                },
            };
            proof {
                let s = self.spec_layers().skip(i as int);
                assert(s[0] == self.spec_layers()[i as int]);
                assert(s.drop_first() =~= self.spec_layers().skip(i as int + 1));
            }
            cur = next;
            i = i + 1;
        }
        proof {
            assert(self.spec_layers().skip(self.spec_layers().len() as int) =~= Seq::<
                CompiledLayer,
            >::empty());
        }
        Ok(cur)
    }

    /// The training loop.  Per epoch, in fixed order: forward the whole
    /// input as one batch; reduce prediction minus target, squared, to a
    /// scalar loss (this fixed squared-error reduction is what drives the
    /// gradients, whatever loss tag the model reports); derive gradients
    /// and step the optimizer; accumulate the scalar loss.  Runs exactly
    /// `epochs` epochs with no early stopping; any failure aborts the
    /// loop at once.  With zero epochs the result is the compile-time
    /// zero scalar and nothing is evaluated or stepped.
    pub fn fit(&self, x: &candle_core::Tensor, y: &candle_core::Tensor, epochs: usize) -> (r:
        Result<TrainOutput, ModelError>)
        requires
            self.wf(),
        ensures
            epochs == 0 ==> (r matches Ok(out) && out.loss == self.spec_zero_loss()),
            r matches Ok(out) ==> dims_of(out.loss) == Seq::<usize>::empty(),
            epochs > 0 && pipe_out_dims(self.spec_layers(), dims_of(*x)) is None ==> r is Err,
            r matches Err(e) ==> e == ModelError::ForwardFailure || e == ModelError::NonScalarLoss,
            r matches Err(e) && e == ModelError::NonScalarLoss ==> self.spec_optimizers() matches
                Optimizers::Sgd(_),
    {
        if epochs == 0 {
            return Ok(TrainOutput { loss: clone_tensor(&self.zero_loss) });
        }
        let mut opt = match self.optimizer() {
            Ok(o) => o,
            Err(e) => {
                return Err(e);
            },
        };
        let mut total = clone_tensor(&self.zero_loss);
        let mut e: usize = 0;
        while e < epochs
            invariant
                self.wf(),
                e <= epochs,
                dims_of(total) == Seq::<usize>::empty(),
                e > 0 ==> pipe_out_dims(self.spec_layers(), dims_of(*x)) is Some,
            decreases epochs - e,
        {
            let ys = match self.forward(x) {
                Ok(t) => t,
                Err(err) => {
                    return Err(err);
                },
            };
            let diff = match broadcast_sub(&ys, y) {
                Ok(t) => t,
                Err(err) => {
                    return Err(err);
                },
            };
            let sq = match tensor_sqr(&diff) {
                Ok(t) => t,
                Err(err) => {
                    return Err(err);
                },
            };
            let loss = match tensor_sum_all(&sq) {
                Ok(t) => t,
                Err(err) => {
                    return Err(err);
                },
            };
            match opt.backward_step(&loss) {
                Ok(u) => u,
                Err(err) => {
                    return Err(err);
                },
            };
            total = match tensor_add(&total, &loss) {
                Ok(t) => t,
                Err(err) => {
                    return Err(err);
                },
            };
            e = e + 1;
        }
        Ok(TrainOutput { loss: total })
    }
}

} // verus!
