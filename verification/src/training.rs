//! Training: the step on one batch, the pass over a held-out split, and the
//! run over all epochs.

use crate::data::{
    labels_of, lemma_batches_of_a_pass, pass_refusal, Batch, Sample, SampleSource,
};
use crate::error::ClassifierError;
use crate::inference::favourites;
use crate::limits::{encodes_finite, greatest_at};
use crate::model::{Model, ModelConfig};
use crate::optim::{backward, learning_rate_bits, seed_backend, AdamOptimizer};
use crate::tensors::{
    add_losses, cross_entropy, detach_loss, divide_loss, image_dims, loss_value,
    read_image_dims, read_loss, scale_loss, zero_loss, Loss,
};
use burn::backend::ndarray::NdArrayDevice;
use burn::optim::AdamConfig;
use vstd::prelude::*;

verus! {

/// The number of epochs of a configuration that names none.
pub const DEFAULT_EPOCHS: usize = 10;

/// The batch size of a configuration that names none.
pub const DEFAULT_BATCH_SIZE: usize = 64;

/// The seed of a configuration that names none.
pub const DEFAULT_SEED: u64 = 42;

/// The learning rate of a configuration that names none: one ten-thousandth,
/// as the bits of its IEEE 754 binary64 encoding.
pub const DEFAULT_LEARNING_RATE: u64 = 0x3F1A_36E2_EB1C_432D;

/// Everything that a training run is configured by. The learning rate is
/// given as the bits of its binary64 encoding.
pub struct TrainingConfig {
    pub model: ModelConfig,
    pub optimizer: AdamConfig,
    pub num_epochs: usize,
    pub batch_size: usize,
    pub seed: u64,
    pub learning_rate: u64,
}

/// What a pass over a split measured: the mean loss per sample, as the bits of
/// its IEEE 754 binary32 encoding, and how many of the samples were classified
/// as their label says.
#[derive(Clone, Copy, Debug, PartialEq, Eq, Structural)]
pub struct Metrics {
    pub loss: u32,
    pub correct: usize,
    pub total: usize,
}

/// What one epoch did: the number of training steps, the mean training loss
/// per sample, as the bits of its binary32 encoding, and the measurements on
/// the held-out split.
#[derive(Clone, Copy, Debug, PartialEq, Eq, Structural)]
pub struct EpochReport {
    pub steps: usize,
    pub train_loss: u32,
    pub validation: Metrics,
}

/// What a pass over a split found: for each sample the class that the
/// classifier chose and the scores of all classes, each as the bits of its
/// IEEE 754 binary32 encoding, and the measurements.
pub struct Evaluation {
    pub predictions: Vec<usize>,
    pub scores: Vec<Vec<u32>>,
    pub metrics: Metrics,
}

impl Evaluation {
    /// There is a row of `classes` scores for each prediction, and no score
    /// of the row is greater than that of the class that was chosen.
    pub open spec fn chosen_by_score(&self, classes: usize) -> bool {
        &&& self.scores@.len() == self.predictions@.len()
        &&& forall|i: int|
            0 <= i < self.scores@.len() ==> {
                &&& (#[trigger] self.scores@[i])@.len() == classes
                &&& greatest_at(self.scores@[i]@, self.predictions@[i] as int)
            }
    }
}

/// The classifier after one training step, and the loss that the step
/// started from.
pub struct StepOutcome {
    pub model: Model,
    pub loss: Loss,
}

/// The trained classifier, and the report of each epoch.
pub struct TrainingReport {
    pub model: Model,
    pub epochs: Vec<EpochReport>,
}

/// How many predictions are the label at the same place.
pub open spec fn agreements(predictions: Seq<usize>, labels: Seq<usize>) -> nat
    decreases predictions.len(),
{
    if predictions.len() == 0 || labels.len() != predictions.len() {
        0
    } else {
        agreements(predictions.drop_last(), labels.drop_last()) + if predictions.last()
            == labels.last() {
            1nat
        } else {
            0nat
        }
    }
}

/// Every label is below `classes`.
pub open spec fn labels_within(labels: Seq<usize>, classes: usize) -> bool {
    forall|i: int| 0 <= i < labels.len() ==> labels[i] < classes
}

/// The number of steps that covers `samples` samples with batches of
/// `batch_size`: the least number of batches that hold them all.
pub open spec fn covers(steps: int, samples: int, batch_size: int) -> bool {
    &&& steps * batch_size >= samples
    &&& (steps - 1) * batch_size < samples
}

/// The number of steps that covers the samples is the number of samples
/// divided by the batch size, rounded up.
pub proof fn lemma_covering_steps(steps: int, samples: int, batch_size: int)
    requires
        batch_size >= 1,
        samples >= 0,
        covers(steps, samples, batch_size),
    ensures
        steps == (samples + batch_size - 1) / batch_size,
{
    let rounded = (samples + batch_size - 1) / batch_size;
    assert(rounded * batch_size <= samples + batch_size - 1 < (rounded + 1) * batch_size)
        by (nonlinear_arith)
        requires
            batch_size >= 1,
            rounded == (samples + batch_size - 1) / batch_size,
    ;
    assert(steps == rounded) by (nonlinear_arith)
        requires
            batch_size >= 1,
            steps * batch_size >= samples,
            (steps - 1) * batch_size < samples,
            rounded * batch_size <= samples + batch_size - 1 < (rounded + 1) * batch_size,
    ;
}

/// What stands against a training step of the classifier on the batch:
/// `None` where nothing does, else the error.
pub open spec fn step_refusal(model: Model, batch: Batch) -> Option<ClassifierError> {
    if !batch.well_formed() || !labels_within(batch.labels@, model.num_classes()) {
        Some(ClassifierError::ShapeMismatch)
    } else {
        model.refusal(image_dims(batch.images))
    }
}

/// What stands against a training run: `None` where nothing does, else the
/// error. The configuration is looked at first, then the training split, then
/// the held-out split.
pub open spec fn training_refusal(
    config: TrainingConfig,
    training: Seq<Sample>,
    validation: Seq<Sample>,
) -> Option<ClassifierError> {
    let sizes = config.model;
    if !sizes.valid() || !sizes.fits_memory() || config.batch_size == 0 {
        Some(ClassifierError::InvalidConfig)
    } else if pass_refusal(training, sizes.hidden_size, sizes.num_classes, config.batch_size)
        is Some {
        pass_refusal(training, sizes.hidden_size, sizes.num_classes, config.batch_size)
    } else {
        pass_refusal(validation, sizes.hidden_size, sizes.num_classes, config.batch_size)
    }
}

/// A loss that is infinite or not a number gives `NumericalInstability`.
pub fn check_loss(bits: u32) -> (r: Result<(), ClassifierError>)
    ensures
        r is Ok <==> encodes_finite(bits),
        r matches Err(e) ==> e == ClassifierError::NumericalInstability,
{
    if bits & 0x7F80_0000 != 0x7F80_0000 {
        Ok(())
    } else {
        Err(ClassifierError::NumericalInstability)
    }
}

/// Counts the predictions that are the label at the same place.
pub fn count_agreements(predictions: &Vec<usize>, labels: &Vec<usize>) -> (n: usize)
    requires
        predictions@.len() == labels@.len(),
    ensures
        n == agreements(predictions@, labels@),
        n <= labels@.len(),
{
    let mut n: usize = 0;
    let mut i: usize = 0;
    while i < predictions.len()
        invariant
            i <= predictions@.len() == labels@.len(),
            n == agreements(predictions@.take(i as int), labels@.take(i as int)),
            n <= i,
        decreases predictions@.len() - i,
    {
        proof {
            assert(predictions@.take(i + 1).drop_last() == predictions@.take(i as int));
            assert(labels@.take(i + 1).drop_last() == labels@.take(i as int));
        }
        if predictions[i] == labels[i] {
            n += 1;
        }
        i += 1;
    }
    proof {
        assert(predictions@.take(i as int) == predictions@);
        assert(labels@.take(i as int) == labels@);
    }
    n
}

/// The labels as the targets of a loss.
fn targets_of(labels: &Vec<usize>, classes: usize) -> (targets: Vec<i64>)
    requires
        labels_within(labels@, classes),
        classes <= isize::MAX,
    ensures
        targets@.len() == labels@.len(),
        forall|i: int| 0 <= i < targets@.len() ==> targets@[i] == labels@[i],
{
    let mut targets: Vec<i64> = Vec::new();
    let mut i: usize = 0;
    while i < labels.len()
        invariant
            i <= labels@.len(),
            targets@.len() == i,
            labels_within(labels@, classes),
            classes <= isize::MAX,
            forall|k: int| 0 <= k < i ==> targets@[k] == labels@[k],
        decreases labels@.len() - i,
    {
        targets.push(labels[i] as i64);
        i += 1;
    }
    targets
}

/// Whether every label is below `classes`.
fn check_labels(labels: &Vec<usize>, classes: usize) -> (b: bool)
    ensures
        b == labels_within(labels@, classes),
{
    let mut i: usize = 0;
    while i < labels.len()
        invariant
            i <= labels@.len(),
            forall|k: int| 0 <= k < i ==> labels@[k] < classes,
        decreases labels@.len() - i,
    {
        if labels[i] >= classes {
            return false;
        }
        i += 1;
    }
    true
}

impl TrainingConfig {
    /// A configuration for the given classifier and optimizer, with ten
    /// epochs, batches of 64, the seed 42 and the learning rate 0.0001.
    pub fn new(model: ModelConfig, optimizer: AdamConfig) -> (config: TrainingConfig)
        ensures
            config.model == model,
            config.optimizer == optimizer,
            config.num_epochs == DEFAULT_EPOCHS,
            config.batch_size == DEFAULT_BATCH_SIZE,
            config.seed == DEFAULT_SEED,
            config.learning_rate == DEFAULT_LEARNING_RATE,
    {
        TrainingConfig {
            model,
            optimizer,
            num_epochs: DEFAULT_EPOCHS,
            batch_size: DEFAULT_BATCH_SIZE,
            seed: DEFAULT_SEED,
            learning_rate: DEFAULT_LEARNING_RATE,
        }
    }
}

/// One training step: the class scores of the batch with dropout applied, the
/// cross-entropy between the scores and the labels, the gradient of that loss
/// with respect to every parameter, and one optimizer step along it. A batch
/// without a label for each image, or with a label that is no class, gives
/// `ShapeMismatch`; images under 5 x 5 give `InputTooSmall`; a loss that is
/// not finite, or a gradient that leaves a parameter not finite, gives
/// `NumericalInstability`, and the classifier is then given up.
pub fn train_step(
    model: Model,
    optimizer: &mut AdamOptimizer,
    batch: Batch,
    device: &NdArrayDevice,
) -> (r: Result<StepOutcome, ClassifierError>)
    ensures
        learning_rate_bits(*final(optimizer)) == learning_rate_bits(*old(optimizer)),
        match r {
            Ok(outcome) => {
                &&& step_refusal(model, batch) is None
                &&& encodes_finite(loss_value(outcome.loss))
                &&& outcome.model.finite()
                &&& outcome.model.config() == model.config()
                &&& outcome.model.is_training() == model.is_training()
            },
            Err(e) => match step_refusal(model, batch) {
                Some(refusal) => e == refusal,
                None => e == ClassifierError::NumericalInstability,
            },
        },
{
    let classes = model.configuration().num_classes;
    let dims = read_image_dims(&batch.images);
    if dims[0] != batch.labels.len() || !check_labels(&batch.labels, classes) {
        return Err(ClassifierError::ShapeMismatch);
    }
    let logits = match model.scores(batch.images, true) {
        Ok(logits) => logits,
        Err(e) => {
            return Err(e);
        },
    };
    let loss = cross_entropy(&logits, targets_of(&batch.labels, classes), device);
    match check_loss(read_loss(&loss)) {
        Ok(()) => {},
        Err(e) => {
            return Err(e);
        },
    }
    let (gradients, loss) = backward(loss);
    let model = model.apply(optimizer, gradients);
    if !model.is_finite() {
        return Err(ClassifierError::NumericalInstability);
    }
    Ok(StepOutcome { model, loss })
}

/// One pass over the samples in batches of `batch_size`, without dropout and
/// without any update: for each sample the scores of all classes and the
/// class that was chosen, which none has a greater score than, the mean
/// cross-entropy per sample, and the number of samples whose class was chosen.
pub fn evaluate(
    model: &Model,
    source: &SampleSource,
    batch_size: usize,
    device: &NdArrayDevice,
) -> (r: Result<Evaluation, ClassifierError>)
    ensures
        match r {
            Ok(evaluation) => {
                &&& pass_refusal(source@, model.hidden_size(), model.num_classes(), batch_size)
                    is None
                &&& evaluation.predictions@.len() == source@.len()
                &&& labels_within(evaluation.predictions@, model.num_classes())
                &&& evaluation.chosen_by_score(model.num_classes())
                &&& evaluation.metrics.total == source@.len()
                &&& evaluation.metrics.correct == agreements(
                    evaluation.predictions@,
                    labels_of(source@),
                )
                &&& evaluation.metrics.correct <= evaluation.metrics.total
            },
            Err(e) => pass_refusal(source@, model.hidden_size(), model.num_classes(), batch_size)
                == Some(e),
        },
{
    let classes = model.configuration().num_classes;
    let hidden = model.configuration().hidden_size;
    match source.check(hidden, classes, batch_size) {
        Ok(()) => {},
        Err(e) => {
            return Err(e);
        },
    }
    let n = source.len();
    let mut total = zero_loss(device);
    let mut predictions: Vec<usize> = Vec::new();
    let mut scores: Vec<Vec<u32>> = Vec::new();
    let mut start: usize = 0;
    while start < n
        invariant
            start <= n == source@.len(),
            predictions@.len() == start,
            scores@.len() == start,
            labels_within(predictions@, classes),
            forall|i: int|
                0 <= i < start ==> {
                    &&& (#[trigger] scores@[i])@.len() == classes
                    &&& greatest_at(scores@[i]@, predictions@[i] as int)
                },
            classes <= isize::MAX,
            batch_size >= 1,
            classes == model.num_classes(),
            hidden == model.hidden_size(),
            pass_refusal(source@, hidden, classes, batch_size) is None,
        decreases n - start,
    {
        let end = if n - start > batch_size {
            start + batch_size
        } else {
            n
        };
        proof {
            lemma_batches_of_a_pass(source@, hidden, classes, batch_size, start as int, end as int);
        }
        let batch = match source.batch(start, end, device) {
            Ok(batch) => batch,
            Err(e) => {
                assert(false);
                return Err(e);
            },
        };
        let logits = match model.scores(batch.images, false) {
            Ok(logits) => logits,
            Err(e) => {
                assert(false);
                return Err(e);
            },
        };
        assert forall|i: int| 0 <= i < batch.labels@.len() implies batch.labels@[i] < classes by {
            assert(source@.subrange(start as int, end as int)[i] == source@[start + i]);
        }
        let loss = detach_loss(
            cross_entropy(&logits, targets_of(&batch.labels, classes), device),
        );
        total = add_losses(total, scale_loss(&loss, end - start));
        let (mut chosen, mut rows) = favourites(&logits);
        proof {
            assert forall|i: int| 0 <= i < chosen@.len() implies chosen@[i] < classes by {
                assert(greatest_at(rows@[i]@, chosen@[i] as int));
            }
        }
        let ghost before = (predictions@, scores@);
        predictions.append(&mut chosen);
        scores.append(&mut rows);
        proof {
            assert forall|i: int| 0 <= i < end implies {
                &&& (#[trigger] scores@[i])@.len() == classes
                &&& greatest_at(scores@[i]@, predictions@[i] as int)
            } by {
                if i < start {
                    assert(scores@[i] == before.1[i]);
                    assert(predictions@[i] == before.0[i]);
                }
            }
        }
        start = end;
    }
    let mean = divide_loss(total, n);
    let labels = source.labels();
    let correct = count_agreements(&predictions, &labels);
    Ok(
        Evaluation {
            predictions,
            scores,
            metrics: Metrics { loss: read_loss(&mean), correct, total: n },
        },
    )
}

/// One epoch: a training step on each batch of the split, in order. Returns
/// the classifier after the last step, the number of steps, and the mean
/// training loss per sample.
fn train_epoch(
    model: Model,
    optimizer: &mut AdamOptimizer,
    source: &SampleSource,
    batch_size: usize,
    device: &NdArrayDevice,
) -> (r: Result<(Model, usize, u32), ClassifierError>)
    requires
        pass_refusal(source@, model.hidden_size(), model.num_classes(), batch_size) is None,
    ensures
        match r {
            Ok((trained, steps, _)) => {
                &&& covers(steps as int, source@.len() as int, batch_size as int)
                &&& trained.finite()
                &&& trained.config() == model.config()
                &&& trained.is_training() == model.is_training()
            },
            Err(e) => e == ClassifierError::NumericalInstability,
        },
{
    let n = source.len();
    let ghost classes = model.num_classes();
    let ghost hidden = model.hidden_size();
    let ghost initial = model;
    let mut model = model;
    let mut total = zero_loss(device);
    let mut steps: usize = 0;
    let mut start: usize = 0;
    while start < n
        invariant
            start <= n == source@.len(),
            batch_size >= 1,
            steps <= start,
            start == n || start == steps * batch_size,
            steps * batch_size >= start,
            steps == 0 ==> start == 0,
            steps >= 1 ==> (steps - 1) * batch_size < start,
            steps >= 1 ==> model.finite(),
            model.config() == initial.config(),
            classes == initial.num_classes(),
            hidden == initial.hidden_size(),
            model.is_training() == initial.is_training(),
            pass_refusal(source@, hidden, classes, batch_size) is None,
        decreases n - start,
    {
        let end = if n - start > batch_size {
            start + batch_size
        } else {
            n
        };
        proof {
            lemma_batches_of_a_pass(source@, hidden, classes, batch_size, start as int, end as int);
            assert((steps + 1) * batch_size == steps * batch_size + batch_size)
                by (nonlinear_arith);
        }
        let batch = match source.batch(start, end, device) {
            Ok(batch) => batch,
            Err(e) => {
                assert(false);
                return Err(e);
            },
        };
        assert forall|i: int| 0 <= i < batch.labels@.len() implies batch.labels@[i] < classes by {
            assert(source@.subrange(start as int, end as int)[i] == source@[start + i]);
        }
        let outcome = match train_step(model, optimizer, batch, device) {
            Ok(outcome) => outcome,
            Err(e) => {
                return Err(e);
            },
        };
        model = outcome.model;
        total = add_losses(total, scale_loss(&outcome.loss, end - start));
        steps = steps + 1;
        start = end;
    }
    let mean = divide_loss(total, n);
    Ok((model, steps, read_loss(&mean)))
}

/// A training run: seeds the backend, creates the classifier and the
/// optimizer state, and for each epoch trains on every batch of the training
/// split and then measures the held-out split. The run stops at the first
/// step that fails; a run of no epochs that nothing stands against succeeds,
/// and returns the classifier as it was created.
pub fn train(
    config: &TrainingConfig,
    training: &SampleSource,
    validation: &SampleSource,
    device: &NdArrayDevice,
) -> (r: Result<TrainingReport, ClassifierError>)
    ensures
        config.num_epochs == 0 && training_refusal(*config, training@, validation@) is None
            ==> r is Ok,
        match r {
            Ok(report) => {
                &&& training_refusal(*config, training@, validation@) is None
                &&& report.model.config() == config.model
                &&& report.model.is_training()
                &&& report.model.finite()
                &&& report.epochs@.len() == config.num_epochs
                &&& forall|i: int|
                    0 <= i < report.epochs@.len() ==> {
                        &&& covers(
                            (#[trigger] report.epochs@[i]).steps as int,
                            training@.len() as int,
                            config.batch_size as int,
                        )
                        &&& report.epochs@[i].validation.total == validation@.len()
                        &&& report.epochs@[i].validation.correct <= validation@.len()
                    }
            },
            Err(e) => match training_refusal(*config, training@, validation@) {
                Some(refusal) => e == refusal,
                None => e == ClassifierError::NumericalInstability,
            },
        },
{
    if config.batch_size == 0 {
        return Err(ClassifierError::InvalidConfig);
    }
    seed_backend(config.seed);
    let mut model = match config.model.init(device) {
        Ok(model) => model,
        Err(e) => {
            return Err(e);
        },
    };
    let sizes = &config.model;
    match training.check(sizes.hidden_size, sizes.num_classes, config.batch_size) {
        Ok(()) => {},
        Err(e) => {
            return Err(e);
        },
    }
    match validation.check(sizes.hidden_size, sizes.num_classes, config.batch_size) {
        Ok(()) => {},
        Err(e) => {
            return Err(e);
        },
    }
    let mut optimizer = AdamOptimizer::new(&config.optimizer, config.learning_rate);
    let mut epochs: Vec<EpochReport> = Vec::new();
    let mut epoch: usize = 0;
    while epoch < config.num_epochs
        invariant
            epoch <= config.num_epochs,
            epochs@.len() == epoch,
            config.batch_size >= 1,
            training_refusal(*config, training@, validation@) is None,
            model.config() == config.model,
            model.is_training(),
            model.finite(),
            forall|i: int|
                0 <= i < epochs@.len() ==> {
                    &&& covers(
                        (#[trigger] epochs@[i]).steps as int,
                        training@.len() as int,
                        config.batch_size as int,
                    )
                    &&& epochs@[i].validation.total == validation@.len()
                    &&& epochs@[i].validation.correct <= validation@.len()
                },
        decreases config.num_epochs - epoch,
    {
        let (trained, steps, train_loss) = match train_epoch(
            model,
            &mut optimizer,
            training,
            config.batch_size,
            device,
        ) {
            Ok(done) => done,
            Err(e) => {
                return Err(e);
            },
        };
        model = trained;
        let metrics = match evaluate(&model, validation, config.batch_size, device) {
            Ok(evaluation) => evaluation.metrics,
            Err(e) => {
                assert(false);
                return Err(e);
            },
        };
        epochs.push(EpochReport { steps, train_loss, validation: metrics });
        epoch += 1;
    }
    Ok(TrainingReport { model, epochs })
}

} // verus!
