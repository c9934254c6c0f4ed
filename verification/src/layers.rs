//! The layers of the network, as burn provides them, and the trusted calls
//! that create and apply them. Each contract states the dimensions of what the
//! layer returns, its elements where the same input gives them on every
//! machine, and leaves out the inputs on which burn panics.

use crate::limits::{all_rectified, elements_fit, values_finite};
use crate::tensors::{
    map_dims, map_values, matrix_carries_graph, matrix_dims, matrix_values, FeatureMaps, Matrix,
};
use burn::backend::ndarray::NdArrayDevice;
use burn::backend::{Autodiff, NdArray};
use burn::module::Param;
use burn::nn::conv::{Conv2d, Conv2dConfig};
use burn::nn::pool::{AdaptiveAvgPool2d, AdaptiveAvgPool2dConfig};
use burn::nn::{Dropout, DropoutConfig, Linear, LinearConfig, Relu};
use burn::tensor::{DType, TensorData};
use vstd::prelude::*;

verus! {

/// burn's dropout layer: it holds the rate and no parameters.
#[verifier::external_type_specification]
#[verifier::external_body]
pub struct ExDropout(Dropout);

/// burn's rectified-linear activation: it holds nothing.
#[verifier::external_type_specification]
#[verifier::external_body]
pub struct ExRelu(Relu);

/// burn's adaptive average pooling: it holds the output size and no
/// parameters.
#[verifier::external_type_specification]
#[verifier::external_body]
pub struct ExAdaptiveAvgPool2d(AdaptiveAvgPool2d);

/// A convolution with stride 1, dilation 1, one group, no padding and a bias,
/// as `Conv2dConfig::new` configures it.
#[verifier::external_body]
pub struct ConvLayer {
    pub(crate) inner: Conv2d<Autodiff<NdArray>>,
}

/// A fully connected layer with a bias, as `LinearConfig::new` configures it.
#[verifier::external_body]
pub struct DenseLayer {
    pub(crate) inner: Linear<Autodiff<NdArray>>,
}

/// The dimensions of a convolution's kernels: `[channels_out, channels_in,
/// kernel_height, kernel_width]`.
pub uninterp spec fn conv_weight_dims(layer: ConvLayer) -> Seq<usize>;

/// The dimensions of a fully connected layer's weights: `[inputs, outputs]`.
pub uninterp spec fn dense_weight_dims(layer: DenseLayer) -> Seq<usize>;

/// The elements of a convolution's kernels, in the order of their dimensions,
/// each as the bits of its IEEE 754 binary32 encoding.
pub uninterp spec fn conv_weight_values(layer: ConvLayer) -> Seq<u32>;

/// The elements of a convolution's bias, one for each output channel, each as
/// the bits of its binary32 encoding.
pub uninterp spec fn conv_bias_values(layer: ConvLayer) -> Seq<u32>;

/// The elements of a fully connected layer's weights, row after row, each as
/// the bits of its binary32 encoding.
pub uninterp spec fn dense_weight_values(layer: DenseLayer) -> Seq<u32>;

/// The elements of a fully connected layer's bias, one for each output, each
/// as the bits of its binary32 encoding.
pub uninterp spec fn dense_bias_values(layer: DenseLayer) -> Seq<u32>;

/// What burn's convolution without padding, with stride and dilation 1 and
/// one group, computes: the elements of the output, in the order of its
/// dimensions, from the kernels and the bias of the given dimensions and the
/// input of the given dimensions. Every element, each as the bits of its
/// binary32 encoding, is a sum of products taken in a fixed order.
pub uninterp spec fn conv_result(
    kernels: Seq<u32>,
    bias: Seq<u32>,
    kernel_dims: Seq<usize>,
    input: Seq<u32>,
    input_dims: Seq<usize>,
) -> Seq<u32>;

/// What burn's adaptive average pooling computes: the elements of the output
/// of the given size, in the order of its dimensions, from the input of the
/// given dimensions. Every element, each as the bits of its binary32
/// encoding, is the sum of a window of the input, taken in a fixed order and
/// divided by the window's size.
pub uninterp spec fn pool_result(input: Seq<u32>, input_dims: Seq<usize>, output_size: Seq<usize>) -> Seq<
    u32,
>;

/// The output size `[height, width]` of an adaptive pooling.
pub uninterp spec fn pool_output_size(pool: AdaptiveAvgPool2d) -> Seq<usize>;

/// The dropout rate, as the bits of its IEEE 754 binary64 encoding.
pub uninterp spec fn dropout_rate_bits(dropout: Dropout) -> u64;

/// Whether `bits` encodes a binary64 number in `[0, 1]`: plus or minus zero, or
/// a positive number up to one.
pub open spec fn encodes_probability(bits: u64) -> bool {
    bits <= 0x3FF0_0000_0000_0000 || bits == 0x8000_0000_0000_0000
}

/// `Conv2dConfig::new([channels_in, channels_out], [kernel_height,
/// kernel_width]).init(device)`: a convolution whose kernels have the
/// dimensions asked for. Kernels and bias are drawn at random from a bounded
/// range, so that every element is finite.
#[verifier::external_body]
pub(crate) fn new_conv(
    channels_in: usize,
    channels_out: usize,
    kernel_height: usize,
    kernel_width: usize,
    device: &NdArrayDevice,
) -> (layer: ConvLayer)
    requires
        channels_in >= 1,
        channels_out >= 1,
        kernel_height >= 1,
        kernel_width >= 1,
        elements_fit(channels_in * channels_out * kernel_height * kernel_width),
    ensures
        conv_weight_dims(layer) == seq![channels_out, channels_in, kernel_height, kernel_width],
        values_finite(conv_weight_values(layer)),
        values_finite(conv_bias_values(layer)),
{
    let config = Conv2dConfig::new([channels_in, channels_out], [kernel_height, kernel_width]);
    ConvLayer { inner: config.init(device) }
}

/// `LinearConfig::new(inputs, outputs).init(device)`: a fully connected layer
/// whose weights have the dimensions asked for. Weights and bias are drawn at
/// random from a bounded range, so that every element is finite.
#[verifier::external_body]
pub(crate) fn new_dense(inputs: usize, outputs: usize, device: &NdArrayDevice) -> (layer: DenseLayer)
    requires
        inputs >= 1,
        outputs >= 1,
        elements_fit(inputs * outputs),
    ensures
        dense_weight_dims(layer) == seq![inputs, outputs],
        values_finite(dense_weight_values(layer)),
        values_finite(dense_bias_values(layer)),
{
    DenseLayer { inner: LinearConfig::new(inputs, outputs).init(device) }
}

/// `Param::from_data`, for the kernels and for the bias of a convolution: the
/// layer then holds the given elements, in its dimensions. The 32-bit
/// elements are handed to `TensorData::new` and relabelled as binary32, which
/// changes no bit. `TensorData::new` panics unless the elements number as the
/// dimensions ask.
#[verifier::external_body]
pub(crate) fn load_conv(
    layer: ConvLayer,
    dims: [usize; 4],
    weights: Vec<u32>,
    bias: Vec<u32>,
    device: &NdArrayDevice,
) -> (loaded: ConvLayer)
    requires
        dims@ == conv_weight_dims(layer),
        weights@.len() == conv_weight_dims(layer)[0] * conv_weight_dims(layer)[1]
            * conv_weight_dims(layer)[2] * conv_weight_dims(layer)[3],
        bias@.len() == conv_weight_dims(layer)[0],
    ensures
        conv_weight_dims(loaded) == conv_weight_dims(layer),
        conv_weight_values(loaded) == weights@,
        conv_bias_values(loaded) == bias@,
{
    let mut inner = layer.inner;
    let mut weights = TensorData::new(weights, dims);
    let mut bias = TensorData::new(bias, [dims[0]]);
    (weights.dtype, bias.dtype) = (DType::F32, DType::F32);
    inner.weight = Param::from_data(weights, device);
    inner.bias = Some(Param::from_data(bias, device));
    ConvLayer { inner }
}

/// `Param::from_data`, for the weights and for the bias of a fully connected
/// layer: the layer then holds the given elements, in its dimensions. The
/// 32-bit elements are handed to `TensorData::new` and relabelled as binary32,
/// which changes no bit. `TensorData::new` panics unless the elements number
/// as the dimensions ask.
#[verifier::external_body]
pub(crate) fn load_dense(
    layer: DenseLayer,
    dims: [usize; 2],
    weights: Vec<u32>,
    bias: Vec<u32>,
    device: &NdArrayDevice,
) -> (loaded: DenseLayer)
    requires
        dims@ == dense_weight_dims(layer),
        weights@.len() == dense_weight_dims(layer)[0] * dense_weight_dims(layer)[1],
        bias@.len() == dense_weight_dims(layer)[1],
    ensures
        dense_weight_dims(loaded) == dense_weight_dims(layer),
        dense_weight_values(loaded) == weights@,
        dense_bias_values(loaded) == bias@,
{
    let mut inner = layer.inner;
    let mut weights = TensorData::new(weights, dims);
    let mut bias = TensorData::new(bias, [dims[1]]);
    (weights.dtype, bias.dtype) = (DType::F32, DType::F32);
    inner.weight = Param::from_data(weights, device);
    inner.bias = Some(Param::from_data(bias, device));
    DenseLayer { inner }
}

/// `Tensor::to_data` on a convolution's kernels, and `TensorData::into_vec`:
/// every element of the kernels. The binary32 elements are relabelled as
/// 32-bit integers before they are taken out, which changes no bit.
#[verifier::external_body]
pub(crate) fn read_conv_weights(layer: &ConvLayer) -> (v: Vec<u32>)
    requires
        conv_weight_dims(*layer).len() == 4,
    ensures
        v@ == conv_weight_values(*layer),
        v@.len() == conv_weight_dims(*layer)[0] * conv_weight_dims(*layer)[1] * conv_weight_dims(
            *layer,
        )[2] * conv_weight_dims(*layer)[3],
{
    let mut data = layer.inner.weight.to_data();
    data.dtype = DType::U32;
    data.into_vec().unwrap()
}

/// `Tensor::to_data` on a convolution's bias, and `TensorData::into_vec`:
/// every element of the bias, one for each output channel. The binary32
/// elements are relabelled as 32-bit integers before they are taken out, which
/// changes no bit.
#[verifier::external_body]
pub(crate) fn read_conv_bias(layer: &ConvLayer) -> (v: Vec<u32>)
    requires
        conv_weight_dims(*layer).len() == 4,
    ensures
        v@ == conv_bias_values(*layer),
        v@.len() == conv_weight_dims(*layer)[0],
{
    let mut data = layer.inner.bias.as_ref().unwrap().to_data();
    data.dtype = DType::U32;
    data.into_vec().unwrap()
}

/// `Tensor::to_data` on a fully connected layer's weights, and
/// `TensorData::into_vec`: every element of the weights. The binary32 elements
/// are relabelled as 32-bit integers before they are taken out, which changes
/// no bit.
#[verifier::external_body]
pub(crate) fn read_dense_weights(layer: &DenseLayer) -> (v: Vec<u32>)
    requires
        dense_weight_dims(*layer).len() == 2,
    ensures
        v@ == dense_weight_values(*layer),
        v@.len() == dense_weight_dims(*layer)[0] * dense_weight_dims(*layer)[1],
{
    let mut data = layer.inner.weight.to_data();
    data.dtype = DType::U32;
    data.into_vec().unwrap()
}

/// `Tensor::to_data` on a fully connected layer's bias, and
/// `TensorData::into_vec`: every element of the bias, one for each output. The
/// binary32 elements are relabelled as 32-bit integers before they are taken
/// out, which changes no bit.
#[verifier::external_body]
pub(crate) fn read_dense_bias(layer: &DenseLayer) -> (v: Vec<u32>)
    requires
        dense_weight_dims(*layer).len() == 2,
    ensures
        v@ == dense_bias_values(*layer),
        v@.len() == dense_weight_dims(*layer)[1],
{
    let mut data = layer.inner.bias.as_ref().unwrap().to_data();
    data.dtype = DType::U32;
    data.into_vec().unwrap()
}

/// `AdaptiveAvgPool2dConfig::new([height, width]).init()`.
#[verifier::external_body]
pub(crate) fn new_pool(height: usize, width: usize) -> (pool: AdaptiveAvgPool2d)
    ensures
        pool_output_size(pool) == seq![height, width],
{
    AdaptiveAvgPool2dConfig::new([height, width]).init()
}

/// `Relu::new`.
#[verifier::external_body]
pub(crate) fn new_relu() -> Relu {
    Relu::new()
}

/// `DropoutConfig::new(rate).init()`, which panics unless the rate is a
/// probability. The rate comes as the bits of its binary64 encoding: they are
/// handed to `TensorData::new` as one 64-bit element, relabelled as binary64,
/// which changes no bit, and read back.
#[verifier::external_body]
pub(crate) fn new_dropout(bits: u64) -> (dropout: Dropout)
    requires
        encodes_probability(bits),
    ensures
        dropout_rate_bits(dropout) == bits,
{
    let mut rate = TensorData::new(vec![bits], [1]);
    rate.dtype = DType::F64;
    DropoutConfig::new(rate.to_vec().unwrap()[0]).init()
}

/// `Conv2d::forward`. Without padding and with stride and dilation 1, each
/// spatial extent shrinks by the kernel's extent less one. burn panics where
/// the input's channels are not the layer's, where the input is smaller than
/// the kernel, or where the output does not fit in one allocation.
#[verifier::external_body]
pub(crate) fn conv_forward(layer: &ConvLayer, x: FeatureMaps) -> (y: FeatureMaps)
    requires
        map_dims(x).len() == 4,
        conv_weight_dims(*layer).len() == 4,
        map_dims(x)[1] == conv_weight_dims(*layer)[1],
        conv_weight_dims(*layer)[2] >= 1,
        conv_weight_dims(*layer)[3] >= 1,
        map_dims(x)[2] >= conv_weight_dims(*layer)[2],
        map_dims(x)[3] >= conv_weight_dims(*layer)[3],
        elements_fit(
            map_dims(x)[0] * conv_weight_dims(*layer)[0] * (map_dims(x)[2] - conv_weight_dims(
                *layer,
            )[2] + 1) * (map_dims(x)[3] - conv_weight_dims(*layer)[3] + 1),
        ),
    ensures
        map_dims(y).len() == 4,
        map_dims(y)[0] == map_dims(x)[0],
        map_dims(y)[1] == conv_weight_dims(*layer)[0],
        map_dims(y)[2] == map_dims(x)[2] - conv_weight_dims(*layer)[2] + 1,
        map_dims(y)[3] == map_dims(x)[3] - conv_weight_dims(*layer)[3] + 1,
        map_values(y) == conv_result(
            conv_weight_values(*layer),
            conv_bias_values(*layer),
            conv_weight_dims(*layer),
            map_values(x),
            map_dims(x),
        ),
{
    FeatureMaps { inner: layer.inner.forward(x.inner) }
}

/// `AdaptiveAvgPool2d::forward`: batch and channels stay, and the spatial
/// extents become the pooling's output size. The output must fit in one
/// allocation.
#[verifier::external_body]
pub(crate) fn pool_forward(pool: &AdaptiveAvgPool2d, x: FeatureMaps) -> (y: FeatureMaps)
    requires
        map_dims(x).len() == 4,
        pool_output_size(*pool).len() == 2,
        elements_fit(
            map_dims(x)[0] * map_dims(x)[1] * pool_output_size(*pool)[0] * pool_output_size(
                *pool,
            )[1],
        ),
    ensures
        map_dims(y).len() == 4,
        map_dims(y)[0] == map_dims(x)[0],
        map_dims(y)[1] == map_dims(x)[1],
        map_dims(y)[2] == pool_output_size(*pool)[0],
        map_dims(y)[3] == pool_output_size(*pool)[1],
        map_values(y) == pool_result(map_values(x), map_dims(x), pool_output_size(*pool)),
{
    FeatureMaps { inner: pool.forward(x.inner) }
}

/// `Linear::forward` on a matrix: one row of `outputs` values for each row of
/// the input. burn panics where the input's row length is not the layer's
/// `inputs`, its matrix product divides by the input's element count, and the
/// output must fit in one allocation. The layer's parameters require
/// gradients, so that the output carries its graph.
#[verifier::external_body]
pub(crate) fn dense_forward(layer: &DenseLayer, x: Matrix) -> (y: Matrix)
    requires
        matrix_dims(x).len() == 2,
        dense_weight_dims(*layer).len() == 2,
        matrix_dims(x)[0] >= 1,
        matrix_dims(x)[1] >= 1,
        dense_weight_dims(*layer)[1] >= 1,
        matrix_dims(x)[1] == dense_weight_dims(*layer)[0],
        elements_fit(matrix_dims(x)[0] * dense_weight_dims(*layer)[1]),
    ensures
        matrix_dims(y).len() == 2,
        matrix_dims(y)[0] == matrix_dims(x)[0],
        matrix_dims(y)[1] == dense_weight_dims(*layer)[1],
        matrix_carries_graph(y),
{
    Matrix { inner: layer.inner.forward(x.inner) }
}

/// `Relu::forward` on feature maps: the dimensions stay, every element below
/// zero becomes zero, and every other stays as it is.
#[verifier::external_body]
pub(crate) fn relu_maps(relu: &Relu, x: FeatureMaps) -> (y: FeatureMaps)
    ensures
        map_dims(y) == map_dims(x),
        map_values(y) == all_rectified(map_values(x)),
{
    FeatureMaps { inner: relu.forward(x.inner) }
}

/// `Relu::forward` on a matrix: the dimensions stay, every element below zero
/// becomes zero, and every other stays as it is. What carries its graph
/// carries it on.
#[verifier::external_body]
pub(crate) fn relu_matrix(relu: &Relu, x: Matrix) -> (y: Matrix)
    ensures
        matrix_dims(y) == matrix_dims(x),
        matrix_values(y) == all_rectified(matrix_values(x)),
        matrix_carries_graph(x) ==> matrix_carries_graph(y),
{
    Matrix { inner: relu.forward(x.inner) }
}

/// `Dropout::forward` on feature maps: the dimensions stay, whichever
/// elements were zeroed. burn draws from a Bernoulli distribution, which
/// panics unless the rate is a probability.
#[verifier::external_body]
pub(crate) fn dropout_maps(dropout: &Dropout, x: FeatureMaps) -> (y: FeatureMaps)
    requires
        encodes_probability(dropout_rate_bits(*dropout)),
    ensures
        map_dims(y) == map_dims(x),
{
    FeatureMaps { inner: dropout.forward(x.inner) }
}

/// `Dropout::forward` on a matrix: the dimensions stay, whichever elements
/// were zeroed, and what carries its graph carries it on. burn draws from a
/// Bernoulli distribution, which panics unless the rate is a probability.
#[verifier::external_body]
pub(crate) fn dropout_matrix(dropout: &Dropout, x: Matrix) -> (y: Matrix)
    requires
        encodes_probability(dropout_rate_bits(*dropout)),
    ensures
        matrix_dims(y) == matrix_dims(x),
        matrix_carries_graph(x) ==> matrix_carries_graph(y),
{
    Matrix { inner: dropout.forward(x.inner) }
}

} // verus!
