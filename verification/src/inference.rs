//! Classifying one sample with a restored classifier.

use crate::checkpoint::Checkpoint;
use crate::data::{make_batch, Sample};
use crate::error::ClassifierError;
use crate::limits::{batch_fits, float_greater, greatest_at};
use crate::model::{Model, MIN_IMAGE_SIZE};
use crate::tensors::{
    argmax_rows, entry, matrix_dims, matrix_values, read_matrix_dims, read_matrix_values,
    softmax_rows, Matrix,
};
use burn::backend::ndarray::NdArrayDevice;
use vstd::prelude::*;

verus! {

/// The class that the classifier chose for a sample, the share of the
/// normalized class scores that went to it, and the shares of all classes,
/// each as the bits of its IEEE 754 binary32 encoding.
#[derive(Clone, Debug, PartialEq, Eq)]
pub struct Prediction {
    pub label: usize,
    pub confidence: u32,
    pub shares: Vec<u32>,
}

impl Prediction {
    /// The chosen class is one of the classes, no class has a greater share,
    /// and the confidence is the share of the chosen class.
    pub open spec fn well_formed(&self) -> bool {
        &&& greatest_at(self.shares@, self.label as int)
        &&& self.confidence == self.shares@[self.label as int]
    }
}

/// What a classifier of the given sizes answers to a sample: `None` where it
/// classifies it, else the error.
pub open spec fn sample_refusal(sample: Sample, hidden_size: usize, num_classes: usize) -> Option<
    ClassifierError,
> {
    if !sample.well_formed() || sample.height == 0 || sample.width == 0 || !batch_fits(
        1,
        sample.height as int,
        sample.width as int,
        hidden_size as int,
        num_classes as int,
    ) {
        Some(ClassifierError::ShapeMismatch)
    } else if sample.height < MIN_IMAGE_SIZE || sample.width < MIN_IMAGE_SIZE {
        Some(ClassifierError::InputTooSmall)
    } else {
        None
    }
}

/// What `infer` answers to a checkpoint, if one was found, and a sample:
/// `None` where it classifies the sample, else the error. The checkpoint is
/// looked at first.
pub open spec fn inference_refusal(checkpoint: Option<Checkpoint>, sample: Sample) -> Option<
    ClassifierError,
> {
    match checkpoint {
        None => Some(ClassifierError::CheckpointNotFound),
        Some(found) => if !found.config.valid() {
            Some(ClassifierError::InvalidConfig)
        } else if !found.restorable() {
            Some(ClassifierError::CheckpointCorrupt)
        } else {
            sample_refusal(sample, found.config.hidden_size, found.config.num_classes)
        },
    }
}

/// The checkpoint behind the reference, if there is one.
pub open spec fn found(checkpoint: Option<&Checkpoint>) -> Option<Checkpoint> {
    match checkpoint {
        Some(c) => Some(*c),
        None => None,
    }
}

/// The rows of a matrix, given by its elements row after row.
pub fn rows_of(values: &Vec<u32>, rows: usize, width: usize) -> (r: Vec<Vec<u32>>)
    requires
        values@.len() == rows * width,
    ensures
        r@.len() == rows,
        forall|i: int| 0 <= i < rows ==> (#[trigger] r@[i])@.len() == width,
        forall|i: int, j: int|
            0 <= i < rows && 0 <= j < width ==> r@[i]@[j] == #[trigger] entry(
                values@,
                width as int,
                i,
                j,
            ),
{
    let count = values.len();
    let mut r: Vec<Vec<u32>> = Vec::new();
    let mut i: usize = 0;
    while i < rows
        invariant
            i <= rows,
            values@.len() == rows * width == count,
            r@.len() == i,
            forall|k: int| 0 <= k < i ==> (#[trigger] r@[k])@.len() == width,
            forall|k: int, j: int|
                0 <= k < i && 0 <= j < width ==> r@[k]@[j] == #[trigger] entry(
                    values@,
                    width as int,
                    k,
                    j,
                ),
        decreases rows - i,
    {
        let mut row: Vec<u32> = Vec::new();
        let mut j: usize = 0;
        assert(0 <= i * width && i * width + width <= rows * width) by (nonlinear_arith)
            requires
                0 <= i < rows,
                0 <= width,
        ;
        let start = i * width;
        while j < width
            invariant
                j <= width,
                start == i * width,
                start + width <= values@.len() == count,
                row@.len() == j,
                forall|c: int| 0 <= c < j ==> row@[c] == values@[start + c],
            decreases width - j,
        {
            row.push(values[start + j]);
            j += 1;
        }
        r.push(row);
        i += 1;
    }
    r
}

/// For each row of scores the class that burn found to have the greatest, and
/// the rows themselves: no score of a row is greater than that of its class.
pub fn favourites(scores: &Matrix) -> (r: (Vec<usize>, Vec<Vec<u32>>))
    requires
        matrix_dims(*scores).len() == 2,
        matrix_dims(*scores)[1] >= 1,
    ensures
        r.0@.len() == matrix_dims(*scores)[0],
        r.1@.len() == matrix_dims(*scores)[0],
        forall|i: int|
            0 <= i < r.1@.len() ==> {
                &&& (#[trigger] r.1@[i])@.len() == matrix_dims(*scores)[1]
                &&& greatest_at(r.1@[i]@, r.0@[i] as int)
            },
{
    let dims = read_matrix_dims(scores);
    let width = dims[1];
    let chosen = argmax_rows(scores);
    let values = read_matrix_values(scores);
    let rows = rows_of(&values, dims[0], width);
    let mut labels: Vec<usize> = Vec::new();
    let mut i: usize = 0;
    while i < chosen.len()
        invariant
            i <= chosen@.len() == rows@.len(),
            width == matrix_dims(*scores)[1],
            values@ == matrix_values(*scores),
            labels@.len() == i,
            forall|k: int| 0 <= k < rows@.len() ==> (#[trigger] rows@[k])@.len() == width,
            forall|k: int, j: int|
                0 <= k < rows@.len() && 0 <= j < width ==> rows@[k]@[j] == #[trigger] entry(
                    values@,
                    width as int,
                    k,
                    j,
                ),
            forall|k: int| 0 <= k < chosen@.len() ==> 0 <= #[trigger] chosen@[k] < width,
            forall|k: int, j: int|
                0 <= k < chosen@.len() && 0 <= j < width ==> !float_greater(
                    #[trigger] entry(values@, width as int, k, j),
                    entry(values@, width as int, k, chosen@[k] as int),
                ),
            forall|k: int| 0 <= k < i ==> greatest_at(rows@[k]@, #[trigger] labels@[k] as int),
        decreases chosen@.len() - i,
    {
        let label = chosen[i] as usize;
        proof {
            let row = rows@[i as int]@;
            assert forall|j: int| 0 <= j < row.len() implies !float_greater(
                #[trigger] row[j],
                row[label as int],
            ) by {
                assert(row[j] == entry(values@, width as int, i as int, j));
                assert(row[label as int] == entry(values@, width as int, i as int, label as int));
            }
        }
        labels.push(label);
        i += 1;
    }
    (labels, rows)
}

/// The prediction for one sample, given the class that was chosen and the
/// shares of all classes.
pub fn pick(label: usize, shares: Vec<u32>) -> (p: Prediction)
    requires
        label < shares@.len(),
    ensures
        p.label == label,
        p.shares == shares,
        p.confidence == shares@[label as int],
        greatest_at(shares@, label as int) ==> p.well_formed(),
{
    Prediction { label, confidence: shares[label], shares }
}

/// Classifies one sample: runs the classifier without dropout on the sample
/// alone, normalizes the class scores to shares, and returns the class that
/// was found to have the greatest share, with its share. A sample whose
/// pixels do not fill its grid gives `ShapeMismatch`, one under 5 x 5 gives
/// `InputTooSmall`.
pub fn predict(model: &Model, sample: Sample, device: &NdArrayDevice) -> (r: Result<
    Prediction,
    ClassifierError,
>)
    ensures
        match r {
            Ok(p) => {
                &&& sample_refusal(sample, model.hidden_size(), model.num_classes()) is None
                &&& p.shares@.len() == model.num_classes()
                &&& p.well_formed()
            },
            Err(e) => sample_refusal(sample, model.hidden_size(), model.num_classes()) == Some(e),
        },
{
    let classes = model.configuration().num_classes;
    let samples = vec![sample];
    proof {
        assert(samples@[0] == sample);
        assert(1 * sample.height * sample.width == sample.height * sample.width);
        assert(64 * (1 * sample.height * sample.width) >= sample.height * sample.width);
    }
    let batch = match make_batch(&samples, device) {
        Ok(batch) => batch,
        Err(e) => {
            return Err(e);
        },
    };
    let logits = match model.scores(batch.images, false) {
        Ok(logits) => logits,
        Err(e) => {
            return Err(e);
        },
    };
    let shares = softmax_rows(logits);
    let (mut labels, mut rows) = favourites(&shares);
    let label = labels.remove(0);
    let row = rows.remove(0);
    Ok(pick(label, row))
}

/// Restores the classifier that the checkpoint holds and classifies the
/// sample with it. Without a checkpoint the answer is `CheckpointNotFound`.
pub fn infer(checkpoint: Option<&Checkpoint>, device: &NdArrayDevice, sample: Sample) -> (r:
    Result<Prediction, ClassifierError>)
    ensures
        match r {
            Ok(p) => {
                &&& inference_refusal(found(checkpoint), sample) is None
                &&& checkpoint matches Some(c) && p.shares@.len() == c.config.num_classes
                &&& p.well_formed()
            },
            Err(e) => inference_refusal(found(checkpoint), sample) == Some(e),
        },
{
    let checkpoint = match checkpoint {
        Some(checkpoint) => checkpoint,
        None => {
            return Err(ClassifierError::CheckpointNotFound);
        },
    };
    match Model::restore(checkpoint, device) {
        Ok(model) => predict(&model, sample, device),
        Err(e) => Err(e),
    }
}

} // verus!
