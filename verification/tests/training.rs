use burn::backend::ndarray::NdArrayDevice;
use burn::optim::AdamConfig;
use image_classifier::data::{make_batch, Sample, SampleSource};
use image_classifier::error::ClassifierError;
use image_classifier::inference::{infer, predict};
use image_classifier::model::{Model, ModelConfig};
use image_classifier::optim::AdamOptimizer;
use image_classifier::training::{
    check_loss, count_agreements, evaluate, train, train_step, EpochReport, Metrics,
    TrainingConfig, DEFAULT_BATCH_SIZE, DEFAULT_EPOCHS, DEFAULT_LEARNING_RATE, DEFAULT_SEED,
};

/// A classifier of the given configuration whose parameters, and whatever is
/// drawn after them, come from a fixed seed: a training run of no epochs
/// seeds the generator and hands the classifier back as it was created.
fn seeded(model: ModelConfig) -> Model {
    let run = TrainingConfig {
        model,
        optimizer: AdamConfig::new(),
        num_epochs: 0,
        batch_size: 1,
        seed: 2024,
        learning_rate: 0,
    };
    let source = SampleSource::new(vec![Sample::new(vec![0; 25], 5, 5, 0).unwrap()]);
    train(&run, &source, &source, &NdArrayDevice::Cpu).unwrap().model
}

/// An image whose bright half tells its class: the left half for class 0, the
/// right half for class 1.
fn half(size: usize, label: usize, shade: u8) -> Sample {
    let mut pixels = vec![0u8; size * size];
    for row in 0..size {
        for col in 0..size {
            let bright = if label == 0 { col < size / 2 } else { col >= size / 2 };
            if bright {
                pixels[row * size + col] = shade;
            }
        }
    }
    Sample::new(pixels, size, size, label).unwrap()
}

fn halves(size: usize, count: usize) -> SampleSource {
    SampleSource::new((0..count).map(|i| half(size, i % 2, 1 + (i % 3) as u8)).collect())
}

fn config(num_classes: usize, epochs: usize, batch_size: usize, rate: f64) -> TrainingConfig {
    TrainingConfig {
        model: ModelConfig::new(num_classes, 16).with_dropout(0.0f64.to_bits()),
        optimizer: AdamConfig::new(),
        num_epochs: epochs,
        batch_size,
        seed: 42,
        learning_rate: rate.to_bits(),
    }
}

#[test]
fn training_lowers_the_loss_on_a_toy_set() {
    let device = NdArrayDevice::Cpu;
    let report = train(&config(2, 12, 4, 0.01), &halves(8, 12), &halves(8, 6), &device).unwrap();
    assert_eq!(report.epochs.len(), 12);
    let first = f32::from_bits(report.epochs[0].train_loss);
    let last = f32::from_bits(report.epochs[11].train_loss);
    assert!(last < first, "{last} is not below {first}");
    let validation = report.epochs[11].validation;
    assert_eq!(validation.total, 6);
    assert!(validation.correct * 2 > validation.total);
    for epoch in &report.epochs {
        assert_eq!(epoch.steps, 3);
    }
}

#[test]
fn training_counts_a_partial_last_batch() {
    let device = NdArrayDevice::Cpu;
    let report = train(&config(2, 1, 4, 0.01), &halves(8, 10), &halves(8, 3), &device).unwrap();
    assert_eq!(report.epochs.len(), 1);
    assert_eq!(report.epochs[0].steps, 3);
    assert_eq!(report.epochs[0].validation.total, 3);
}

#[test]
fn training_without_epochs_reports_nothing() {
    let device = NdArrayDevice::Cpu;
    let report = train(&config(2, 0, 4, 0.01), &halves(8, 4), &halves(8, 2), &device).unwrap();
    assert!(report.epochs.is_empty());
}

#[test]
fn training_refuses_a_bad_configuration() {
    let device = NdArrayDevice::Cpu;
    let refused = train(&config(0, 1, 4, 0.01), &halves(8, 4), &halves(8, 2), &device);
    assert_eq!(refused.err(), Some(ClassifierError::InvalidConfig));
    let refused = train(&config(2, 1, 0, 0.01), &halves(8, 4), &halves(8, 2), &device);
    assert_eq!(refused.err(), Some(ClassifierError::InvalidConfig));
}

#[test]
fn training_refuses_malformed_data() {
    let device = NdArrayDevice::Cpu;
    let empty = SampleSource::new(Vec::new());
    let refused = train(&config(2, 1, 4, 0.01), &empty, &halves(8, 2), &device);
    assert_eq!(refused.err(), Some(ClassifierError::ShapeMismatch));
    let mixed = SampleSource::new(vec![half(8, 0, 1), half(9, 1, 1)]);
    let refused = train(&config(2, 1, 4, 0.01), &mixed, &halves(8, 2), &device);
    assert_eq!(refused.err(), Some(ClassifierError::ShapeMismatch));
    let mislabelled = SampleSource::new(vec![half(8, 0, 1), half(8, 1, 1)]);
    let refused = train(&config(1, 1, 4, 0.01), &mislabelled, &halves(8, 2), &device);
    assert_eq!(refused.err(), Some(ClassifierError::ShapeMismatch));
    let refused = train(&config(2, 1, 4, 0.01), &halves(4, 4), &halves(8, 2), &device);
    assert_eq!(refused.err(), Some(ClassifierError::InputTooSmall));
    let refused = train(&config(2, 1, 4, 0.01), &halves(8, 4), &halves(4, 2), &device);
    assert_eq!(refused.err(), Some(ClassifierError::InputTooSmall));
}

#[test]
fn training_stops_at_a_loss_that_is_not_finite() {
    let device = NdArrayDevice::Cpu;
    let refused = train(&config(2, 3, 4, f64::INFINITY), &halves(8, 8), &halves(8, 2), &device);
    assert_eq!(refused.err(), Some(ClassifierError::NumericalInstability));
}

#[test]
fn a_step_keeps_the_shape_and_changes_the_parameters() {
    let device = NdArrayDevice::Cpu;
    let model = seeded(ModelConfig::new(2, 8));
    let before = model.snapshot();
    let mut optimizer = AdamOptimizer::new(&AdamConfig::new(), 0.01f64.to_bits());
    let batch = make_batch(&vec![half(8, 0, 1), half(8, 1, 1)], &device).unwrap();
    let outcome = train_step(model, &mut optimizer, batch, &device).unwrap();
    assert!(f32::from_bits(outcome.loss.to_bits()).is_finite());
    assert!(outcome.model.is_finite());
    let after = outcome.model.snapshot();
    assert_eq!(after.parameters.len(), 8);
    for (old, new) in before.parameters.iter().zip(after.parameters.iter()) {
        assert_eq!(old.dims, new.dims);
        assert_eq!(old.values.len(), new.values.len());
    }
    assert_ne!(before.parameters[7].values, after.parameters[7].values);
}

#[test]
fn a_step_refuses_labels_that_do_not_fit() {
    let device = NdArrayDevice::Cpu;
    let mut optimizer = AdamOptimizer::new(&AdamConfig::new(), 0.01f64.to_bits());
    let model = seeded(ModelConfig::new(2, 8));
    let mut batch = make_batch(&vec![half(8, 0, 1), half(8, 1, 1)], &device).unwrap();
    batch.labels.pop();
    let refused = train_step(model, &mut optimizer, batch, &device);
    assert_eq!(refused.err(), Some(ClassifierError::ShapeMismatch));
    let model = seeded(ModelConfig::new(2, 8));
    let mut batch = make_batch(&vec![half(8, 0, 1), half(8, 1, 1)], &device).unwrap();
    batch.labels[1] = 2;
    let refused = train_step(model, &mut optimizer, batch, &device);
    assert_eq!(refused.err(), Some(ClassifierError::ShapeMismatch));
    let model = seeded(ModelConfig::new(2, 8));
    let batch = make_batch(&vec![half(4, 0, 1)], &device).unwrap();
    let refused = train_step(model, &mut optimizer, batch, &device);
    assert_eq!(refused.err(), Some(ClassifierError::InputTooSmall));
}

#[test]
fn evaluation_counts_every_sample() {
    let device = NdArrayDevice::Cpu;
    let model = seeded(ModelConfig::new(2, 8));
    let evaluation = evaluate(&model, &halves(8, 7), 3, &device).unwrap();
    let metrics = evaluation.metrics;
    assert_eq!(metrics.total, 7);
    assert_eq!(evaluation.predictions.len(), 7);
    assert!(evaluation.predictions.iter().all(|class| *class < 2));
    let labels = halves(8, 7).labels();
    assert_eq!(labels, vec![0, 1, 0, 1, 0, 1, 0]);
    assert_eq!(metrics.correct, count_agreements(&evaluation.predictions, &labels));
    assert!(f32::from_bits(metrics.loss).is_finite());
    let refused = evaluate(&model, &halves(8, 7), 0, &device);
    assert_eq!(refused.err(), Some(ClassifierError::InvalidConfig));
    let refused = evaluate(&model, &SampleSource::new(Vec::new()), 3, &device);
    assert_eq!(refused.err(), Some(ClassifierError::ShapeMismatch));
}

#[test]
fn evaluation_is_the_same_whatever_the_batch_size() {
    let device = NdArrayDevice::Cpu;
    let model = seeded(ModelConfig::new(2, 8));
    let whole = evaluate(&model, &halves(8, 6), 6, &device).unwrap();
    let split = evaluate(&model, &halves(8, 6), 2, &device).unwrap();
    for (a, b) in whole.scores.iter().flatten().zip(split.scores.iter().flatten()) {
        let (a, b) = (f32::from_bits(*a), f32::from_bits(*b));
        assert!((a - b).abs() <= 1e-4 * (1.0 + a.abs()), "{a} and {b}");
    }
    for (i, row) in whole.scores.iter().enumerate() {
        let gap = (f32::from_bits(row[0]) - f32::from_bits(row[1])).abs();
        if gap > 1e-3 * (1.0 + f32::from_bits(row[0]).abs()) {
            assert_eq!(whole.predictions[i], split.predictions[i]);
        }
    }
    let (a, b) = (f32::from_bits(whole.metrics.loss), f32::from_bits(split.metrics.loss));
    assert!((a - b).abs() <= 1e-4 * (1.0 + a.abs()), "{a} and {b}");
}

#[test]
fn a_loss_is_checked_by_its_exponent() {
    assert_eq!(check_loss(0.0f32.to_bits()), Ok(()));
    assert_eq!(check_loss(2.302585f32.to_bits()), Ok(()));
    assert_eq!(check_loss((-1.5f32).to_bits()), Ok(()));
    assert_eq!(check_loss(f32::MAX.to_bits()), Ok(()));
    assert_eq!(check_loss(f32::INFINITY.to_bits()), Err(ClassifierError::NumericalInstability));
    assert_eq!(check_loss(f32::NEG_INFINITY.to_bits()), Err(ClassifierError::NumericalInstability));
    assert_eq!(check_loss(f32::NAN.to_bits()), Err(ClassifierError::NumericalInstability));
}

#[test]
fn agreements_are_counted_place_by_place() {
    assert_eq!(count_agreements(&vec![1, 2, 3, 4], &vec![1, 0, 3, 0]), 2);
    assert_eq!(count_agreements(&vec![], &vec![]), 0);
    assert_eq!(count_agreements(&vec![5], &vec![5]), 1);
    assert_eq!(count_agreements(&vec![1, 2], &vec![2, 1]), 0);
}

/// A 28 x 28 image with one bright row, whose place tells the class.
fn stripe(label: usize, shade: u8) -> Sample {
    let mut pixels = vec![0u8; 28 * 28];
    for col in 0..28 {
        pixels[(2 + 2 * label) * 28 + col] = shade;
        pixels[(3 + 2 * label) * 28 + col] = shade;
    }
    Sample::new(pixels, 28, 28, label).unwrap()
}

#[test]
fn a_trained_classifier_recognizes_the_dominant_class() {
    let device = NdArrayDevice::Cpu;
    let mut samples = Vec::new();
    for i in 0..10 {
        samples.push(stripe(7, 2 + (i % 2) as u8));
    }
    samples.push(stripe(1, 2));
    samples.push(stripe(4, 2));
    let training = SampleSource::new(samples);
    let validation = SampleSource::new(vec![stripe(7, 2), stripe(7, 3)]);
    let config = TrainingConfig {
        model: ModelConfig::new(10, 16).with_dropout(0.0f64.to_bits()),
        optimizer: AdamConfig::new(),
        num_epochs: 10,
        batch_size: 4,
        seed: 7,
        learning_rate: 0.01f64.to_bits(),
    };
    let report = train(&config, &training, &validation, &device).unwrap();
    let checkpoint = report.model.snapshot();
    let prediction = infer(Some(&checkpoint), &device, stripe(7, 2)).unwrap();
    assert_eq!(prediction.label, 7);
    let confidence = f32::from_bits(prediction.confidence);
    assert!(confidence > 0.5, "confidence {confidence}");
    assert!(confidence <= 1.0);
    let direct = predict(&report.model, stripe(7, 2), &device).unwrap();
    assert_eq!(direct, prediction);
}

#[test]
fn a_step_stops_at_a_gradient_that_is_not_finite() {
    let device = NdArrayDevice::Cpu;
    // The feature maps are 1e30 throughout and the hidden units next to nothing, so that the
    // scores and the loss are small; the gradient of the first fully connected layer is the
    // product of the features and of what the second layer hands back, about 1e20, and that
    // is beyond the range.
    let quiet = ModelConfig::new(2, 2).with_dropout(0.0f64.to_bits());
    let mut checkpoint = quiet.init(&device).unwrap().snapshot();
    let values = [0.0f32, 0.0, 0.0, 1e30, 0.0, 1e-20, 1e20, 0.0];
    for (parameter, value) in checkpoint.parameters.iter_mut().zip(values) {
        parameter.values.iter_mut().for_each(|v| *v = value.to_bits());
    }
    checkpoint.parameters[6].values[0] = (-1e20f32).to_bits();
    let step = |checkpoint: &image_classifier::checkpoint::Checkpoint| {
        let model = Model::restore(checkpoint, &device).unwrap();
        let mut optimizer = AdamOptimizer::new(&AdamConfig::new(), 0.01f64.to_bits());
        let batch = make_batch(&vec![half(8, 0, 1), half(8, 1, 1)], &device).unwrap();
        train_step(model, &mut optimizer, batch, &device)
    };
    assert_eq!(step(&checkpoint).err(), Some(ClassifierError::NumericalInstability));
    let loss = evaluate(
        &Model::restore(&checkpoint, &device).unwrap(),
        &halves(8, 2),
        2,
        &device,
    )
    .unwrap()
    .metrics
    .loss;
    assert!(f32::from_bits(loss).is_finite());
    checkpoint.parameters[3].values.iter_mut().for_each(|v| *v = 1.0f32.to_bits());
    assert!(step(&checkpoint).is_ok());
}

#[test]
fn a_training_configuration_has_defaults() {
    let config = TrainingConfig::new(ModelConfig::new(10, 512), AdamConfig::new());
    assert_eq!(config.model, ModelConfig::new(10, 512));
    assert_eq!(config.num_epochs, 10);
    assert_eq!(config.batch_size, 64);
    assert_eq!(config.seed, 42);
    assert_eq!(f64::from_bits(config.learning_rate), 1.0e-4);
    assert_eq!(
        (DEFAULT_EPOCHS, DEFAULT_BATCH_SIZE, DEFAULT_SEED, DEFAULT_LEARNING_RATE),
        (10, 64, 42, 1.0e-4f64.to_bits())
    );
}

#[test]
fn the_learning_rate_scales_the_step() {
    let device = NdArrayDevice::Cpu;
    let values = |rate: f64| {
        let model = seeded(ModelConfig::new(2, 8));
        let before = model.snapshot();
        let mut optimizer = AdamOptimizer::new(&AdamConfig::new(), rate.to_bits());
        let batch = make_batch(&vec![half(8, 0, 1)], &device).unwrap();
        let after = train_step(model, &mut optimizer, batch, &device).unwrap().model.snapshot();
        (before.parameters[7].values.clone(), after.parameters[7].values.clone())
    };
    let (before, after) = values(0.0);
    assert_eq!(before, after);
    let (before, after) = values(0.5);
    for (old, new) in before.iter().zip(after.iter()) {
        let moved = (f32::from_bits(*new) - f32::from_bits(*old)).abs();
        assert!(moved > 0.4 && moved < 0.6, "moved by {moved}");
    }
}

#[test]
fn the_moment_estimates_outlive_a_step() {
    let device = NdArrayDevice::Cpu;
    let model = seeded(ModelConfig::new(2, 8).with_dropout(0.0f64.to_bits()));
    let mut optimizer = AdamOptimizer::new(&AdamConfig::new(), 0.01f64.to_bits());
    let mut losses = Vec::new();
    let mut model = model;
    for _ in 0..5 {
        let batch = make_batch(&vec![half(8, 0, 1), half(8, 1, 1)], &device).unwrap();
        let outcome = train_step(model, &mut optimizer, batch, &device).unwrap();
        losses.push(f32::from_bits(outcome.loss.to_bits()));
        model = outcome.model;
    }
    assert!(losses[4] < losses[0], "{losses:?}");
    assert_eq!(model.configuration(), ModelConfig::new(2, 8).with_dropout(0.0f64.to_bits()));
}

#[test]
fn the_seed_fixes_the_run() {
    let device = NdArrayDevice::Cpu;
    let run = |seed: u64| {
        let mut config = config(2, 2, 4, 0.01);
        config.model = config.model.with_dropout(0.5f64.to_bits());
        config.seed = seed;
        let report = train(&config, &halves(8, 8), &halves(8, 4), &device).unwrap();
        let values: Vec<Vec<u32>> =
            report.model.snapshot().parameters.into_iter().map(|p| p.values).collect();
        (report.epochs, values)
    };
    let first = run(1);
    assert_eq!(run(1), first);
    assert_ne!(run(2).1, first.1);
}

#[test]
fn an_untrained_classifier_is_as_good_as_chance() {
    let device = NdArrayDevice::Cpu;
    let mut checkpoint = seeded(ModelConfig::new(4, 8)).snapshot();
    for parameter in checkpoint.parameters.iter_mut() {
        for value in parameter.values.iter_mut() {
            *value = 0.0f32.to_bits();
        }
    }
    let model = Model::restore(&checkpoint, &device).unwrap();
    let source = SampleSource::new((0..8).map(|i| {
        let mut sample = half(8, i % 2, 1);
        sample.label = i % 4;
        sample
    }).collect());
    let evaluation = evaluate(&model, &source, 3, &device).unwrap();
    assert_eq!(evaluation.predictions, vec![0; 8]);
    let metrics = evaluation.metrics;
    assert!((f32::from_bits(metrics.loss) - 4.0f32.ln()).abs() < 1e-5);
    assert_eq!(metrics, Metrics { loss: metrics.loss, correct: 2, total: 8 });
}

#[test]
fn an_epoch_report_is_plain_data() {
    let metrics = Metrics { loss: 1, correct: 2, total: 3 };
    let report = EpochReport { steps: 4, train_loss: 5, validation: metrics };
    assert_eq!(report, report.clone());
    assert_eq!(report.validation.correct, 2);
}

#[test]
fn a_classifier_is_finite_unless_a_parameter_is_not() {
    let device = NdArrayDevice::Cpu;
    let model = seeded(ModelConfig::new(2, 4));
    assert!(model.is_finite());
    for (parameter, bad) in [(0, f32::NAN), (3, f32::INFINITY), (4, f32::NEG_INFINITY), (7, f32::NAN)] {
        let mut checkpoint = model.snapshot();
        let last = checkpoint.parameters[parameter].values.len() - 1;
        checkpoint.parameters[parameter].values[last] = bad.to_bits();
        let restored = Model::restore(&checkpoint, &device).unwrap();
        assert!(!restored.is_finite());
    }
}

#[test]
fn training_works_on_the_smallest_and_on_oblong_images() {
    let device = NdArrayDevice::Cpu;
    let oblong = |height: usize, width: usize, count: usize| {
        SampleSource::new(
            (0..count)
                .map(|i| {
                    let pixels = (0..height * width).map(|p| ((p + i) % 3) as u8).collect();
                    Sample::new(pixels, height, width, i % 2).unwrap()
                })
                .collect(),
        )
    };
    for (height, width) in [(5, 5), (5, 6), (6, 5), (5, 17), (23, 7), (9, 9)] {
        for batch_size in [1, 2, 5] {
            let mut config = config(2, 2, batch_size, 0.01);
            config.model = ModelConfig::new(2, 3);
            let report =
                train(&config, &oblong(height, width, 3), &oblong(height, width, 2), &device)
                    .unwrap();
            assert_eq!(report.epochs.len(), 2);
            assert_eq!(report.epochs[0].steps, (3 + batch_size - 1) / batch_size);
            assert!(report.model.is_finite());
        }
    }
}

#[test]
fn evaluation_chooses_by_the_scores() {
    let device = NdArrayDevice::Cpu;
    let model = seeded(ModelConfig::new(3, 8));
    let source = SampleSource::new((0..7).map(|i| {
        let mut sample = half(8, i % 2, 1 + i as u8);
        sample.label = i % 3;
        sample
    }).collect());
    let evaluation = evaluate(&model, &source, 3, &device).unwrap();
    assert_eq!(evaluation.scores.len(), 7);
    for (row, chosen) in evaluation.scores.iter().zip(evaluation.predictions.iter()) {
        assert_eq!(row.len(), 3);
        let best = f32::from_bits(row[*chosen]);
        assert!(row.iter().all(|score| !(f32::from_bits(*score) > best)));
    }
    let alone = evaluate(&model, &source, 7, &device).unwrap();
    for (a, b) in alone.scores.iter().flatten().zip(evaluation.scores.iter().flatten()) {
        let (a, b) = (f32::from_bits(*a), f32::from_bits(*b));
        assert!((a - b).abs() <= 1e-4 * (1.0 + a.abs()), "{a} and {b}");
    }
}

#[test]
fn a_run_of_no_epochs_returns_the_classifier_as_it_was_created() {
    let device = NdArrayDevice::Cpu;
    let report = train(&config(2, 0, 4, 0.01), &halves(8, 4), &halves(8, 2), &device).unwrap();
    assert!(report.epochs.is_empty());
    assert!(report.model.is_finite());
    assert_eq!(report.model.configuration(), config(2, 0, 4, 0.01).model);
    let again = train(&config(2, 0, 4, 0.01), &halves(8, 4), &halves(8, 2), &device).unwrap();
    assert_eq!(again.model.snapshot(), report.model.snapshot());
}

#[test]
fn a_step_can_follow_a_step_and_an_evaluation() {
    let device = NdArrayDevice::Cpu;
    let mut model = seeded(ModelConfig::new(2, 4));
    let mut optimizer = AdamOptimizer::new(&AdamConfig::new(), 0.01f64.to_bits());
    for _ in 0..3 {
        let batch = make_batch(&vec![half(8, 0, 1), half(8, 1, 2)], &device).unwrap();
        let outcome = train_step(model, &mut optimizer, batch, &device).unwrap();
        assert!(f32::from_bits(outcome.loss.to_bits()).is_finite());
        model = outcome.model;
        assert_eq!(evaluate(&model, &halves(8, 3), 2, &device).unwrap().metrics.total, 3);
    }
}
