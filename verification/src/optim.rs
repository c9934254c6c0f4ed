//! The optimizer, as burn provides it, and the trusted calls that compute
//! gradients and apply them to the layers.

use crate::layers::{conv_weight_dims, dense_weight_dims, ConvLayer, DenseLayer};
use crate::tensors::{loss_carries_graph, loss_value, Loss};
use burn::backend::autodiff::grads::Gradients;
use burn::backend::{Autodiff, NdArray};
use burn::lr_scheduler::constant::ConstantLr;
use burn::lr_scheduler::LrScheduler;
use burn::nn::conv::Conv2d;
use burn::nn::Linear;
use burn::optim::adaptor::OptimizerAdaptor;
use burn::optim::{Adam, AdamConfig, GradientsParams, Optimizer};
use burn::tensor::backend::Backend;
use burn::tensor::{DType, TensorData};
use vstd::prelude::*;

verus! {

/// burn's configuration of the Adam optimizer.
#[verifier::external_type_specification]
#[verifier::external_body]
pub struct ExAdamConfig(AdamConfig);

/// The gradients that one backward pass has computed.
#[verifier::external_type_specification]
#[verifier::external_body]
pub struct ExGradients(Gradients);

/// The state of the optimizer: the learning rate, and Adam's moment estimates
/// for the parameters of the convolutions and of the fully connected layers.
#[verifier::external_body]
pub struct AdamOptimizer {
    rate: ConstantLr,
    conv: OptimizerAdaptor<Adam, Conv2d<Autodiff<NdArray>>, Autodiff<NdArray>>,
    dense: OptimizerAdaptor<Adam, Linear<Autodiff<NdArray>>, Autodiff<NdArray>>,
}

/// The learning rate of an optimizer, as the bits of its IEEE 754 binary64
/// encoding.
pub uninterp spec fn learning_rate_bits(optimizer: AdamOptimizer) -> u64;

/// `AdamConfig::init`, once for each kind of layer, and `ConstantLr::new`: an
/// optimizer without moment estimates. The learning rate comes as the bits of
/// its binary64 encoding: they are handed to `TensorData::new` as one 64-bit
/// element, relabelled as binary64, which changes no bit, and read back.
#[verifier::external_body]
pub(crate) fn new_optimizer(config: &AdamConfig, rate: u64) -> (optimizer: AdamOptimizer)
    ensures
        learning_rate_bits(optimizer) == rate,
{
    let mut rate = TensorData::new(vec![rate], [1]);
    rate.dtype = DType::F64;
    let rate = ConstantLr::new(rate.to_vec().unwrap()[0]);
    AdamOptimizer { rate, conv: config.init(), dense: config.init() }
}

/// `Backend::seed`: seeds the generator that initial weights and dropout masks
/// are drawn from.
#[verifier::external_body]
pub(crate) fn seed_backend(seed: u64) {
    <Autodiff<NdArray> as Backend>::seed(seed)
}

/// `Tensor::backward` on a loss, and `Tensor::detach`: the gradients of the
/// loss with respect to every parameter it was computed from, and the same
/// loss cut off from its graph. burn panics where the graph holds no step for
/// the loss: where it was not computed from a parameter, or a backward pass
/// has started from it before. The loss is taken for good, so that no second
/// pass can start from it.
#[verifier::external_body]
pub(crate) fn backward(loss: Loss) -> (r: (Gradients, Loss))
    requires
        loss_carries_graph(loss),
    ensures
        loss_value(r.1) == loss_value(loss),
{
    let gradients = loss.inner.backward();
    (gradients, Loss { inner: loss.inner.detach() })
}

/// `GradientsParams::from_module` and `Optimizer::step` on a convolution:
/// the layer with its parameters updated. Each parameter keeps its
/// dimensions, and the optimizer its learning rate.
#[verifier::external_body]
pub(crate) fn step_conv(
    optimizer: &mut AdamOptimizer,
    layer: ConvLayer,
    gradients: &mut Gradients,
) -> (updated: ConvLayer)
    ensures
        conv_weight_dims(updated) == conv_weight_dims(layer),
        learning_rate_bits(*final(optimizer)) == learning_rate_bits(*old(optimizer)),
{
    let selected = GradientsParams::from_module(gradients, &layer.inner);
    ConvLayer { inner: optimizer.conv.step(optimizer.rate.step(), layer.inner, selected) }
}

/// `GradientsParams::from_module` and `Optimizer::step` on a fully connected
/// layer: the layer with its parameters updated. Each parameter keeps its
/// dimensions, and the optimizer its learning rate.
#[verifier::external_body]
pub(crate) fn step_dense(
    optimizer: &mut AdamOptimizer,
    layer: DenseLayer,
    gradients: &mut Gradients,
) -> (updated: DenseLayer)
    ensures
        dense_weight_dims(updated) == dense_weight_dims(layer),
        learning_rate_bits(*final(optimizer)) == learning_rate_bits(*old(optimizer)),
{
    let selected = GradientsParams::from_module(gradients, &layer.inner);
    DenseLayer { inner: optimizer.dense.step(optimizer.rate.step(), layer.inner, selected) }
}

impl AdamOptimizer {
    /// An optimizer without moment estimates, with the learning rate given as
    /// the bits of its binary64 encoding.
    pub fn new(config: &AdamConfig, learning_rate: u64) -> (optimizer: AdamOptimizer)
        ensures
            learning_rate_bits(optimizer) == learning_rate,
    {
        new_optimizer(config, learning_rate)
    }
}

} // verus!
