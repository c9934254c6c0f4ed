//! Handles for the float tensors of the compute backend, and the trusted calls
//! that create and reshape them. The backend is burn's ndarray backend with
//! automatic differentiation. Verus knows a handle by its dimensions, by its
//! elements as bits, and by whether it carries the graph that a backward pass
//! needs.

use crate::limits::{elements_fit, float_greater, floats_of_pixels};
use burn::backend::ndarray::NdArrayDevice;
use burn::backend::{Autodiff, NdArray};
use burn::nn::loss::CrossEntropyLossConfig;
use burn::tensor::activation::softmax;
use burn::tensor::{DType, Tensor, TensorData};
use vstd::prelude::*;

verus! {

/// The compute device of the ndarray backend.
#[verifier::external_type_specification]
#[verifier::external_body]
pub struct ExNdArrayDevice(NdArrayDevice);

/// A stack of single-channel images: a tensor of rank 3, `[batch, height, width]`.
#[verifier::external_body]
pub struct Images {
    pub(crate) inner: Tensor<Autodiff<NdArray>, 3>,
}

/// A stack of multi-channel feature maps: a tensor of rank 4,
/// `[batch, channels, height, width]`.
#[verifier::external_body]
pub struct FeatureMaps {
    pub(crate) inner: Tensor<Autodiff<NdArray>, 4>,
}

/// One row of features or of class scores per sample: a tensor of rank 2,
/// `[batch, features]`.
#[verifier::external_body]
pub struct Matrix {
    pub(crate) inner: Tensor<Autodiff<NdArray>, 2>,
}

/// A loss: a tensor of rank 1 with one element.
#[verifier::external_body]
pub struct Loss {
    pub(crate) inner: Tensor<Autodiff<NdArray>, 1>,
}

/// The dimensions `[batch, height, width]` of an image stack.
pub uninterp spec fn image_dims(t: Images) -> Seq<usize>;

/// The elements of an image stack, image after image and row after row, each
/// as the bits of its IEEE 754 binary32 encoding.
pub uninterp spec fn image_values(t: Images) -> Seq<u32>;

/// The elements of a stack of feature maps, in the order of its dimensions,
/// each as the bits of its binary32 encoding.
pub uninterp spec fn map_values(t: FeatureMaps) -> Seq<u32>;

/// Whether the matrix was computed from a parameter that requires gradients,
/// so that the automatic differentiation has recorded how.
pub uninterp spec fn matrix_carries_graph(t: Matrix) -> bool;

/// Whether the loss was computed from a parameter that requires gradients, so
/// that the automatic differentiation has recorded how, and no backward pass
/// has started from it yet.
pub uninterp spec fn loss_carries_graph(t: Loss) -> bool;

/// The dimensions `[batch, channels, height, width]` of a stack of feature maps.
pub uninterp spec fn map_dims(t: FeatureMaps) -> Seq<usize>;

/// The dimensions `[batch, features]` of a matrix.
pub uninterp spec fn matrix_dims(t: Matrix) -> Seq<usize>;

/// The elements of a matrix, row after row, each as the bits of its IEEE 754
/// binary32 encoding.
pub uninterp spec fn matrix_values(t: Matrix) -> Seq<u32>;

/// The one element of a loss, as the bits of its IEEE 754 binary32 encoding.
pub uninterp spec fn loss_value(t: Loss) -> u32;

/// The element in row `i` and column `j` of a matrix with rows of `width`
/// elements, given row after row.
pub open spec fn entry(values: Seq<u32>, width: int, i: int, j: int) -> u32 {
    values[i * width + j]
}

/// `TensorData::new` followed by `Tensor::from_data`: the tensor of the given
/// dimensions whose elements are the pixels, in row-major order, each
/// converted to the float that is the same number. `TensorData::new` panics unless the number of pixels
/// is the product of the dimensions, and the backend panics on a shape whose
/// non-zero dimensions multiply to more than fits.
#[verifier::external_body]
pub(crate) fn images_from_pixels(
    pixels: Vec<u8>,
    batch: usize,
    height: usize,
    width: usize,
    device: &NdArrayDevice,
) -> (t: Images)
    requires
        batch >= 1,
        height >= 1,
        width >= 1,
        pixels@.len() == batch * height * width,
        elements_fit(batch * height * width),
    ensures
        image_dims(t) == seq![batch, height, width],
        image_values(t) == floats_of_pixels(pixels@),
{
    Images { inner: Tensor::from_data(TensorData::new(pixels, [batch, height, width]), device) }
}

/// `Tensor::dims` on an image stack.
#[verifier::external_body]
pub(crate) fn read_image_dims(t: &Images) -> (d: [usize; 3])
    ensures
        d@ == image_dims(*t),
{
    t.inner.dims()
}

/// `Tensor::dims` on a matrix.
#[verifier::external_body]
pub(crate) fn read_matrix_dims(t: &Matrix) -> (d: [usize; 2])
    ensures
        d@ == matrix_dims(*t),
{
    t.inner.dims()
}

/// `Tensor::to_data` on a matrix, and `TensorData::into_vec`: every element
/// of the matrix, row after row. The binary32 elements are relabelled as
/// 32-bit integers before they are taken out, which changes no bit.
#[verifier::external_body]
pub(crate) fn read_matrix_values(t: &Matrix) -> (v: Vec<u32>)
    requires
        matrix_dims(*t).len() == 2,
    ensures
        v@ == matrix_values(*t),
        v@.len() == matrix_dims(*t)[0] * matrix_dims(*t)[1],
{
    let mut data = t.inner.to_data();
    data.dtype = DType::U32;
    data.into_vec().unwrap()
}

/// burn's `softmax` along each row: the dimensions stay. burn looks for each
/// row's greatest element and reads the row's first, so the rows may not be
/// empty.
#[verifier::external_body]
pub(crate) fn softmax_rows(t: Matrix) -> (r: Matrix)
    requires
        matrix_dims(t).len() == 2,
        matrix_dims(t)[1] >= 1,
    ensures
        matrix_dims(r) == matrix_dims(t),
        matrix_carries_graph(t) ==> matrix_carries_graph(r),
{
    Matrix { inner: softmax(t.inner, 1) }
}

/// `Tensor::argmax` along each row: for each row the index of an element that
/// none of the row is greater than. burn starts from the row's first element
/// and moves on to each that is greater than the one it holds. It reads the
/// first element, so the rows may not be empty.
#[verifier::external_body]
pub(crate) fn argmax_rows(t: &Matrix) -> (r: Vec<i64>)
    requires
        matrix_dims(*t).len() == 2,
        matrix_dims(*t)[1] >= 1,
    ensures
        r@.len() == matrix_dims(*t)[0],
        forall|i: int| 0 <= i < r@.len() ==> 0 <= #[trigger] r@[i] < matrix_dims(*t)[1],
        forall|i: int, j: int|
            0 <= i < r@.len() && 0 <= j < matrix_dims(*t)[1] ==> !float_greater(
                #[trigger] entry(matrix_values(*t), matrix_dims(*t)[1] as int, i, j),
                entry(matrix_values(*t), matrix_dims(*t)[1] as int, i, r@[i] as int),
            ),
{
    t.inner.clone().argmax(1).into_data().into_vec().unwrap()
}

/// `CrossEntropyLossConfig::new().init(device).forward`: the mean over the
/// rows of the cross-entropy between the row's scores and its label. burn
/// panics unless there is one label per row, and gathers each row's score at
/// its label, which must lie within the row. A loss of scores that carry
/// their graph carries it on.
#[verifier::external_body]
pub(crate) fn cross_entropy(logits: &Matrix, labels: Vec<i64>, device: &NdArrayDevice) -> (loss:
    Loss)
    requires
        matrix_dims(*logits).len() == 2,
        matrix_dims(*logits)[0] >= 1,
        labels@.len() == matrix_dims(*logits)[0],
        forall|i: int|
            0 <= i < labels@.len() ==> 0 <= #[trigger] labels@[i] < matrix_dims(*logits)[1],
    ensures
        matrix_carries_graph(*logits) ==> loss_carries_graph(loss),
{
    let count = labels.len();
    let targets = Tensor::from_data(TensorData::new(labels, [count]), device);
    let criterion = CrossEntropyLossConfig::new().init(device);
    Loss { inner: criterion.forward(logits.inner.clone(), targets) }
}

/// `Tensor::into_scalar` on a loss, through `to_bits`: the loss as the bits of
/// its binary32 encoding.
#[verifier::external_body]
pub(crate) fn read_loss(loss: &Loss) -> (bits: u32)
    ensures
        bits == loss_value(*loss),
{
    loss.inner.clone().into_scalar().to_bits()
}

/// `Tensor::detach`: the same loss, cut off from the computation that led to
/// it, which can then be freed.
#[verifier::external_body]
pub(crate) fn detach_loss(loss: Loss) -> (detached: Loss)
    ensures
        loss_value(detached) == loss_value(loss),
{
    Loss { inner: loss.inner.detach() }
}

/// `Tensor::mul_scalar`: `loss * weight`.
#[verifier::external_body]
pub(crate) fn scale_loss(loss: &Loss, weight: usize) -> Loss {
    Loss { inner: loss.inner.clone().mul_scalar(weight as u64) }
}

/// `Tensor::add`: `total + loss`.
#[verifier::external_body]
pub(crate) fn add_losses(total: Loss, loss: Loss) -> Loss {
    Loss { inner: total.inner.add(loss.inner) }
}

/// `Tensor::zeros`: the loss zero.
#[verifier::external_body]
pub(crate) fn zero_loss(device: &NdArrayDevice) -> Loss {
    Loss { inner: Tensor::zeros([1], device) }
}

/// `Tensor::div_scalar`: `total / count`.
#[verifier::external_body]
pub(crate) fn divide_loss(total: Loss, count: usize) -> Loss {
    Loss { inner: total.inner.div_scalar(count as u64) }
}

/// `Tensor::reshape` of an image stack to feature maps of the dimensions
/// given: the elements stay, in their order. `reshape` panics unless the
/// element counts agree.
#[verifier::external_body]
pub(crate) fn images_to_maps(t: Images, dims: [usize; 4]) -> (r: FeatureMaps)
    requires
        image_dims(t).len() == 3,
        dims@[0] * dims@[1] * dims@[2] * dims@[3] == image_dims(t)[0] * image_dims(t)[1]
            * image_dims(t)[2],
    ensures
        map_dims(r) == dims@,
        map_values(r) == image_values(t),
{
    FeatureMaps { inner: t.inner.reshape(dims) }
}

/// `Tensor::reshape` from `[batch, channels, height, width]` to `[batch,
/// features]`: the elements stay, in their order. `reshape` panics unless the
/// element counts agree, so `features` must be `channels * height * width`.
#[verifier::external_body]
pub(crate) fn flatten_maps(t: FeatureMaps, features: usize) -> (r: Matrix)
    requires
        map_dims(t).len() == 4,
        features == map_dims(t)[1] * map_dims(t)[2] * map_dims(t)[3],
    ensures
        matrix_dims(r) == seq![map_dims(t)[0], features],
        matrix_values(r) == map_values(t),
{
    let batch = t.inner.dims()[0];
    Matrix { inner: t.inner.reshape([batch, features]) }
}

impl Images {
    /// The number of images, and the height and width of each.
    pub fn dims(&self) -> (d: (usize, usize, usize))
        ensures
            image_dims(*self) == seq![d.0, d.1, d.2],
    {
        let d = read_image_dims(self);
        assert(image_dims(*self) =~= seq![d[0], d[1], d[2]]);
        (d[0], d[1], d[2])
    }
}

impl Loss {
    /// The loss, as the bits of its binary32 encoding.
    pub fn to_bits(&self) -> (bits: u32)
        ensures
            bits == loss_value(*self),
    {
        read_loss(self)
    }
}

impl Matrix {
    /// The number of rows, and the length of each.
    pub fn dims(&self) -> (d: (usize, usize))
        ensures
            matrix_dims(*self) == seq![d.0, d.1],
    {
        let d = read_matrix_dims(self);
        assert(matrix_dims(*self) =~= seq![d[0], d[1]]);
        (d[0], d[1])
    }

    /// The elements, row after row, each as the bits of its binary32
    /// encoding.
    pub fn to_bits(&self) -> (v: Vec<u32>)
        ensures
            v@ == matrix_values(*self),
    {
        let d = read_matrix_dims(self);
        read_matrix_values(self)
    }
}

} // verus!
