//! Labelled samples, the source that hands them out by index, and the batcher
//! that stacks them into one image tensor with its labels.

use crate::error::ClassifierError;
use crate::limits::{
    batch_fits, batch_has_room, elements_fit, floats_of_pixels, product_fits,
};
use crate::model::MIN_IMAGE_SIZE;
use crate::tensors::{image_dims, image_values, images_from_pixels, Images};
use burn::backend::ndarray::NdArrayDevice;
use vstd::prelude::*;

verus! {

/// One labelled image: a grid of `height` rows of `width` intensities, row
/// after row, and the class it belongs to.
#[derive(Clone, Debug, PartialEq, Eq)]
pub struct Sample {
    pub pixels: Vec<u8>,
    pub height: usize,
    pub width: usize,
    pub label: usize,
}

/// An immutable collection of samples, addressed by index.
pub struct SampleSource {
    samples: Vec<Sample>,
}

/// The samples of one step: the stacked images and, aligned with them, the
/// labels.
pub struct Batch {
    pub images: Images,
    pub labels: Vec<usize>,
}

/// The pixels of all samples, one sample after the other.
pub open spec fn flattened(samples: Seq<Sample>) -> Seq<u8>
    decreases samples.len(),
{
    if samples.len() == 0 {
        Seq::empty()
    } else {
        flattened(samples.drop_last()) + samples.last().pixels@
    }
}

/// The labels of all samples, in their order.
pub open spec fn labels_of(samples: Seq<Sample>) -> Seq<usize> {
    Seq::new(samples.len(), |i: int| samples[i].label)
}

/// Every sample is a full grid of `height` by `width`.
pub open spec fn uniform(samples: Seq<Sample>, height: usize, width: usize) -> bool {
    forall|i: int|
        0 <= i < samples.len() ==> {
            &&& (#[trigger] samples[i]).height == height
            &&& samples[i].width == width
            &&& samples[i].pixels@.len() == height * width
        }
}

/// Whether the samples can be stacked: there is at least one, each is a full
/// grid of the dimensions of the first, which holds at least one pixel, and
/// the stack fits in memory.
pub open spec fn stackable(samples: Seq<Sample>) -> bool {
    &&& samples.len() >= 1
    &&& samples[0].height >= 1
    &&& samples[0].width >= 1
    &&& uniform(samples, samples[0].height, samples[0].width)
    &&& elements_fit(samples.len() * samples[0].height * samples[0].width)
}

/// The number of samples in the largest batch of a pass over `count` samples
/// in batches of `batch_size`.
pub open spec fn largest_batch(count: int, batch_size: int) -> int {
    if count < batch_size {
        count
    } else {
        batch_size
    }
}

/// What stands against a pass of a classifier of the given sizes over the
/// samples, in batches of `batch_size`: `None` where nothing does, else the
/// error. The samples must be full grids of one size and labelled with
/// classes of the classifier, and the largest batch must fit in memory.
pub open spec fn pass_refusal(
    samples: Seq<Sample>,
    hidden_size: usize,
    num_classes: usize,
    batch_size: usize,
) -> Option<ClassifierError> {
    if batch_size == 0 {
        Some(ClassifierError::InvalidConfig)
    } else if samples.len() == 0 || !uniform(samples, samples[0].height, samples[0].width)
        || !labelled_within(samples, num_classes) || !batch_fits(
        largest_batch(samples.len() as int, batch_size as int),
        samples[0].height as int,
        samples[0].width as int,
        hidden_size as int,
        num_classes as int,
    ) {
        Some(ClassifierError::ShapeMismatch)
    } else if samples[0].height < MIN_IMAGE_SIZE || samples[0].width < MIN_IMAGE_SIZE {
        Some(ClassifierError::InputTooSmall)
    } else {
        None
    }
}

/// The pixels of uniform samples number as many as the grids hold together.
pub proof fn lemma_flattened_len(samples: Seq<Sample>, height: usize, width: usize)
    requires
        uniform(samples, height, width),
    ensures
        flattened(samples).len() == samples.len() * (height * width),
    decreases samples.len(),
{
    if samples.len() > 0 {
        lemma_flattened_len(samples.drop_last(), height, width);
        assert(samples.len() * (height * width) == (samples.len() - 1) * (height * width) + height
            * width) by (nonlinear_arith);
    }
}

/// In the pixels of uniform samples, pixel `j` of sample `i` stands at
/// `i * (height * width) + j`: the stack is laid out sample after sample.
pub proof fn lemma_flattened_index(
    samples: Seq<Sample>,
    height: usize,
    width: usize,
    i: int,
    j: int,
)
    requires
        uniform(samples, height, width),
        0 <= i < samples.len(),
        0 <= j < height * width,
    ensures
        0 <= i * (height * width) + j < flattened(samples).len(),
        flattened(samples)[i * (height * width) + j] == samples[i].pixels@[j],
    decreases samples.len(),
{
    let count = height * width;
    let front = samples.drop_last();
    lemma_flattened_len(samples, height, width);
    lemma_flattened_len(front, height, width);
    assert(i * count + j < samples.len() * count) by (nonlinear_arith)
        requires
            0 <= i < samples.len(),
            0 <= j < count,
    ;
    assert(i * count >= 0) by (nonlinear_arith)
        requires
            i >= 0,
            count >= 0,
    ;
    if i == samples.len() - 1 {
        assert(flattened(samples)[front.len() * count + j] == samples.last().pixels@[j]);
    } else {
        lemma_flattened_index(front, height, width, i, j);
        assert(i * count + j < front.len() * count) by (nonlinear_arith)
            requires
                0 <= i < front.len(),
                0 <= j < count,
        ;
        assert(front[i] == samples[i]);
    }
}

impl Sample {
    /// The pixels fill the grid exactly.
    pub open spec fn well_formed(&self) -> bool {
        self.pixels@.len() == self.height * self.width
    }

    /// A sample of the given grid; `ShapeMismatch` where the pixels do not
    /// fill it exactly.
    pub fn new(pixels: Vec<u8>, height: usize, width: usize, label: usize) -> (r: Result<
        Sample,
        ClassifierError,
    >)
        ensures
            r is Ok <==> pixels@.len() == height * width,
            r matches Ok(s) ==> s.pixels == pixels && s.height == height && s.width == width
                && s.label == label,
            r matches Err(e) ==> e == ClassifierError::ShapeMismatch,
    {
        let count = height.checked_mul(width);
        if count == Some(pixels.len()) {
            Ok(Sample { pixels, height, width, label })
        } else {
            Err(ClassifierError::ShapeMismatch)
        }
    }
}

impl SampleSource {
    /// The samples, in the order of their indices.
    pub closed spec fn view(&self) -> Seq<Sample> {
        self.samples@
    }

    /// A source of the given samples, the first at index 0.
    pub fn new(samples: Vec<Sample>) -> (source: SampleSource)
        ensures
            source@ == samples@,
    {
        SampleSource { samples }
    }

    /// The number of samples.
    pub fn len(&self) -> (n: usize)
        ensures
            n == self@.len(),
    {
        self.samples.len()
    }

    /// The samples from `start` up to `end`, stacked into one batch;
    /// `IndexOutOfRange` where the source has no such run, `ShapeMismatch`
    /// where the run is empty or its samples do not agree.
    pub fn batch(&self, start: usize, end: usize, device: &NdArrayDevice) -> (r: Result<
        Batch,
        ClassifierError,
    >)
        ensures
            !(start <= end <= self@.len()) ==> r == Err::<Batch, ClassifierError>(
                ClassifierError::IndexOutOfRange,
            ),
            start <= end <= self@.len() ==> {
                &&& r is Ok <==> stackable(self@.subrange(start as int, end as int))
                &&& r matches Err(e) ==> e == ClassifierError::ShapeMismatch
                &&& r matches Ok(batch) ==> {
                    &&& image_dims(batch.images) == seq![
                        (end - start) as usize,
                        self@[start as int].height,
                        self@[start as int].width,
                    ]
                    &&& image_values(batch.images) == floats_of_pixels(
                        flattened(self@.subrange(start as int, end as int)),
                    )
                    &&& batch.labels@ == labels_of(self@.subrange(start as int, end as int))
                    &&& batch.well_formed()
                }
            },
    {
        if start > end || end > self.samples.len() {
            return Err(ClassifierError::IndexOutOfRange);
        }
        stack(&self.samples, start, end, device)
    }

    /// Checks that a classifier of the given sizes can pass over the samples
    /// in batches of `batch_size`.
    #[verifier::loop_isolation(false)]
    pub fn check(&self, hidden_size: usize, num_classes: usize, batch_size: usize) -> (r: Result<
        (),
        ClassifierError,
    >)
        ensures
            r is Ok <==> pass_refusal(self@, hidden_size, num_classes, batch_size) is None,
            r matches Err(e) ==> pass_refusal(self@, hidden_size, num_classes, batch_size) == Some(
                e,
            ),
    {
        if batch_size == 0 {
            return Err(ClassifierError::InvalidConfig);
        }
        let samples = &self.samples;
        let n = samples.len();
        if n == 0 {
            return Err(ClassifierError::ShapeMismatch);
        }
        let height = samples[0].height;
        let width = samples[0].width;
        let first_len = samples[0].pixels.len();
        let count = match height.checked_mul(width) {
            Some(count) => count,
            None => {
                assert(first_len != height * width);
                return Err(ClassifierError::ShapeMismatch);
            },
        };
        assert(samples@.subrange(0, n as int) == samples@);
        if !check_uniform(samples, 0, n, height, width, count) {
            return Err(ClassifierError::ShapeMismatch);
        }
        let mut i: usize = 0;
        while i < n
            invariant
                i <= n == samples@.len(),
                forall|k: int| 0 <= k < i ==> (#[trigger] samples@[k]).label < num_classes,
            decreases n - i,
        {
            if samples[i].label >= num_classes {
                return Err(ClassifierError::ShapeMismatch);
            }
            i += 1;
        }
        let largest = if n < batch_size {
            n
        } else {
            batch_size
        };
        if !batch_has_room(largest, height, width, hidden_size, num_classes) {
            return Err(ClassifierError::ShapeMismatch);
        }
        if height < MIN_IMAGE_SIZE || width < MIN_IMAGE_SIZE {
            return Err(ClassifierError::InputTooSmall);
        }
        Ok(())
    }

    /// The labels of the samples, in their order.
    pub fn labels(&self) -> (labels: Vec<usize>)
        ensures
            labels@ == labels_of(self@),
    {
        let mut labels: Vec<usize> = Vec::new();
        let mut i: usize = 0;
        while i < self.samples.len()
            invariant
                i <= self.samples@.len(),
                labels@.len() == i,
                forall|k: int| 0 <= k < i ==> labels@[k] == self.samples@[k].label,
            decreases self.samples@.len() - i,
        {
            labels.push(self.samples[i].label);
            i += 1;
        }
        assert(labels@ =~= labels_of(self@));
        labels
    }

    /// The sample at `index`; `IndexOutOfRange` where there is none.
    pub fn get(&self, index: usize) -> (r: Result<&Sample, ClassifierError>)
        ensures
            r is Ok <==> index < self@.len(),
            r matches Ok(s) ==> *s == self@[index as int],
            r matches Err(e) ==> e == ClassifierError::IndexOutOfRange,
    {
        if index < self.samples.len() {
            Ok(&self.samples[index])
        } else {
            Err(ClassifierError::IndexOutOfRange)
        }
    }
}

impl Batch {
    /// There is one label for each image of the stack.
    pub open spec fn well_formed(&self) -> bool {
        &&& image_dims(self.images).len() == 3
        &&& image_dims(self.images)[0] == self.labels@.len()
    }
}

/// Every label is a class of a classifier with `classes` classes.
pub open spec fn labelled_within(samples: Seq<Sample>, classes: usize) -> bool {
    forall|i: int| 0 <= i < samples.len() ==> (#[trigger] samples[i]).label < classes
}

/// Any run of uniform samples is uniform.
pub proof fn lemma_uniform_subrange(
    samples: Seq<Sample>,
    height: usize,
    width: usize,
    start: int,
    end: int,
)
    requires
        uniform(samples, height, width),
        0 <= start <= end <= samples.len(),
    ensures
        uniform(samples.subrange(start, end), height, width),
{
    assert forall|i: int| 0 <= i < end - start implies {
        &&& (#[trigger] samples.subrange(start, end)[i]).height == height
        &&& samples.subrange(start, end)[i].width == width
        &&& samples.subrange(start, end)[i].pixels@.len() == height * width
    } by {
        assert(samples.subrange(start, end)[i] == samples[start + i]);
    }
}

/// Fewer images of the same size fit where more do.
pub proof fn lemma_smaller_batch_fits(
    smaller: int,
    larger: int,
    height: int,
    width: int,
    hidden_size: int,
    num_classes: int,
)
    requires
        0 <= smaller <= larger,
        0 <= height,
        0 <= width,
        0 <= hidden_size,
        0 <= num_classes,
        batch_fits(larger, height, width, hidden_size, num_classes),
    ensures
        batch_fits(smaller, height, width, hidden_size, num_classes),
        elements_fit(smaller * height * width),
{
    assert(smaller * height * width <= larger * height * width) by (nonlinear_arith)
        requires
            0 <= smaller <= larger,
            0 <= height,
            0 <= width,
    ;
    assert(larger * height * width >= 0) by (nonlinear_arith)
        requires
            0 <= larger,
            0 <= height,
            0 <= width,
    ;
    assert(smaller * hidden_size <= larger * hidden_size) by (nonlinear_arith)
        requires
            0 <= smaller <= larger,
            0 <= hidden_size,
    ;
    assert(smaller * num_classes <= larger * num_classes) by (nonlinear_arith)
        requires
            0 <= smaller <= larger,
            0 <= num_classes,
    ;
}

/// Where nothing stands against a pass, every batch of it can be stacked, and
/// the classifier does not refuse it: it is not empty, its images are of the
/// size of the first sample, which is at least 5 x 5, its labels are classes,
/// and it fits in memory.
pub proof fn lemma_batches_of_a_pass(
    samples: Seq<Sample>,
    hidden_size: usize,
    num_classes: usize,
    batch_size: usize,
    start: int,
    end: int,
)
    requires
        pass_refusal(samples, hidden_size, num_classes, batch_size) is None,
        0 <= start < end <= samples.len(),
        end - start <= batch_size,
    ensures
        stackable(samples.subrange(start, end)),
        samples.subrange(start, end)[0].height == samples[0].height,
        samples.subrange(start, end)[0].width == samples[0].width,
        samples[0].height >= MIN_IMAGE_SIZE,
        samples[0].width >= MIN_IMAGE_SIZE,
        labelled_within(samples.subrange(start, end), num_classes),
        batch_fits(
            end - start,
            samples[0].height as int,
            samples[0].width as int,
            hidden_size as int,
            num_classes as int,
        ),
{
    let height = samples[0].height;
    let width = samples[0].width;
    let run = samples.subrange(start, end);
    lemma_uniform_subrange(samples, height, width, start, end);
    assert(run[0] == samples[start]);
    assert forall|i: int| 0 <= i < run.len() implies (#[trigger] run[i]).label < num_classes by {
        assert(run[i] == samples[start + i]);
    }
    lemma_smaller_batch_fits(
        end - start,
        largest_batch(samples.len() as int, batch_size as int),
        height as int,
        width as int,
        hidden_size as int,
        num_classes as int,
    );
}

/// Whether every sample is a full grid of `height` by `width`.
fn check_uniform(samples: &Vec<Sample>, start: usize, end: usize, height: usize, width: usize, count: usize) -> (b:
    bool)
    requires
        count == height * width,
        start <= end <= samples@.len(),
    ensures
        b == uniform(samples@.subrange(start as int, end as int), height, width),
{
    let ghost run = samples@.subrange(start as int, end as int);
    let mut i: usize = start;
    while i < end
        invariant
            start <= i <= end <= samples@.len(),
            count == height * width,
            run == samples@.subrange(start as int, end as int),
            uniform(run.take(i - start), height, width),
        decreases end - i,
    {
        let s = &samples[i];
        assert(run[i - start] == samples@[i as int]);
        if s.height != height || s.width != width || s.pixels.len() != count {
            return false;
        }
        assert forall|k: int| 0 <= k < i - start + 1 implies {
            &&& (#[trigger] run.take(i - start + 1)[k]).height == height
            &&& run.take(i - start + 1)[k].width == width
            &&& run.take(i - start + 1)[k].pixels@.len() == height * width
        } by {
            if k < i - start {
                assert(run.take(i - start)[k] == run[k]);
            }
        }
        i += 1;
    }
    assert(run.take(i - start) == run);
    true
}

/// The pixels and the labels of the samples from `start` up to `end`, in
/// their order.
pub fn collect(samples: &Vec<Sample>, start: usize, end: usize) -> (r: (Vec<u8>, Vec<usize>))
    requires
        start <= end <= samples@.len(),
    ensures
        r.0@ == flattened(samples@.subrange(start as int, end as int)),
        r.1@ == labels_of(samples@.subrange(start as int, end as int)),
{
    let ghost run = samples@.subrange(start as int, end as int);
    let mut pixels: Vec<u8> = Vec::new();
    let mut labels: Vec<usize> = Vec::new();
    let mut i: usize = start;
    while i < end
        invariant
            start <= i <= end <= samples@.len(),
            run == samples@.subrange(start as int, end as int),
            pixels@ == flattened(run.take(i - start)),
            labels@ == labels_of(run.take(i - start)),
        decreases end - i,
    {
        let s = &samples[i];
        let ghost before = pixels@;
        let mut j: usize = 0;
        while j < s.pixels.len()
            invariant
                j <= s.pixels@.len(),
                pixels@ == before + s.pixels@.take(j as int),
            decreases s.pixels@.len() - j,
        {
            pixels.push(s.pixels[j]);
            assert(s.pixels@.take(j + 1) == s.pixels@.take(j as int).push(s.pixels@[j as int]));
            j += 1;
        }
        labels.push(s.label);
        proof {
            let next = run.take(i - start + 1);
            assert(s.pixels@.take(j as int) == s.pixels@);
            assert(next.drop_last() == run.take(i - start));
            assert(next.last() == samples@[i as int]);
            assert(labels@ =~= labels_of(next));
        }
        i += 1;
    }
    assert(run.take(i - start) == run);
    (pixels, labels)
}

/// Stacks the samples from `start` up to `end` into one batch: the images in
/// their order as one tensor `[count, height, width]`, whose elements are the
/// pixels as floats, and the labels beside them. Samples that are not stackable give `ShapeMismatch`.
pub fn stack(samples: &Vec<Sample>, start: usize, end: usize, device: &NdArrayDevice) -> (r:
    Result<Batch, ClassifierError>)
    requires
        start <= end <= samples@.len(),
    ensures
        r is Ok <==> stackable(samples@.subrange(start as int, end as int)),
        r matches Err(e) ==> e == ClassifierError::ShapeMismatch,
        r matches Ok(batch) ==> {
            &&& image_dims(batch.images) == seq![
                (end - start) as usize,
                samples@[start as int].height,
                samples@[start as int].width,
            ]
            &&& image_values(batch.images) == floats_of_pixels(
                flattened(samples@.subrange(start as int, end as int)),
            )
            &&& batch.labels@ == labels_of(samples@.subrange(start as int, end as int))
            &&& batch.well_formed()
        },
{
    let ghost run = samples@.subrange(start as int, end as int);
    if start == end {
        return Err(ClassifierError::ShapeMismatch);
    }
    assert(run[0] == samples@[start as int]);
    let height = samples[start].height;
    let width = samples[start].width;
    let first_len = samples[start].pixels.len();
    if height == 0 || width == 0 {
        return Err(ClassifierError::ShapeMismatch);
    }
    let count = match height.checked_mul(width) {
        Some(count) => count,
        None => {
            assert(first_len != height * width);
            return Err(ClassifierError::ShapeMismatch);
        },
    };
    if !check_uniform(samples, start, end, height, width, count) {
        return Err(ClassifierError::ShapeMismatch);
    }
    let n = end - start;
    assert(n * height * width == n * (height * width)) by (nonlinear_arith);
    if !product_fits(n, count) {
        return Err(ClassifierError::ShapeMismatch);
    }
    let (pixels, labels) = collect(samples, start, end);
    proof {
        lemma_flattened_len(run, height, width);
    }
    let images = images_from_pixels(pixels, n, height, width, device);
    Ok(Batch { images, labels })
}

/// Stacks the samples into one batch: the images in their order as one tensor
/// `[count, height, width]`, whose elements are the pixels as floats, and the
/// labels beside them. Samples that are not
/// stackable give `ShapeMismatch`.
pub fn make_batch(samples: &Vec<Sample>, device: &NdArrayDevice) -> (r: Result<
    Batch,
    ClassifierError,
>)
    ensures
        r is Ok <==> stackable(samples@),
        r matches Err(e) ==> e == ClassifierError::ShapeMismatch,
        r matches Ok(batch) ==> {
            &&& image_dims(batch.images) == seq![
                samples@.len() as usize,
                samples@[0].height,
                samples@[0].width,
            ]
            &&& image_values(batch.images) == floats_of_pixels(flattened(samples@))
            &&& batch.labels@ == labels_of(samples@)
            &&& batch.well_formed()
        },
{
    assert(samples@.subrange(0, samples@.len() as int) == samples@);
    stack(samples, 0, samples.len(), device)
}

} // verus!
