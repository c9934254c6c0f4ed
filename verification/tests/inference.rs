use burn::backend::ndarray::NdArrayDevice;
use burn::optim::AdamConfig;
use image_classifier::data::{Sample, SampleSource};
use image_classifier::error::ClassifierError;
use image_classifier::inference::{infer, pick, predict, rows_of, Prediction};
use image_classifier::model::{Model, ModelConfig};
use image_classifier::training::{train, TrainingConfig};

/// A classifier of the given configuration whose parameters, and whatever is
/// drawn after them, come from a fixed seed: a training run of no epochs
/// seeds the generator and hands the classifier back as it was created.
fn seeded(model: ModelConfig) -> Model {
    let run = TrainingConfig {
        model,
        optimizer: AdamConfig::new(),
        num_epochs: 0,
        batch_size: 1,
        seed: 2024,
        learning_rate: 0,
    };
    let source = SampleSource::new(vec![Sample::new(vec![0; 25], 5, 5, 0).unwrap()]);
    train(&run, &source, &source, &NdArrayDevice::Cpu).unwrap().model
}

fn sample(height: usize, width: usize) -> Sample {
    let pixels: Vec<u8> = (0..height * width).map(|i| (i % 5) as u8).collect();
    Sample::new(pixels, height, width, 0).unwrap()
}

#[test]
fn a_prediction_names_a_class_and_its_share() {
    let device = NdArrayDevice::Cpu;
    let model = seeded(ModelConfig::new(10, 16));
    let prediction = predict(&model, sample(28, 28), &device).unwrap();
    assert!(prediction.label < 10);
    let confidence = f32::from_bits(prediction.confidence);
    assert!(confidence >= 0.0999 && confidence <= 1.0, "{confidence}");
    assert_eq!(prediction.shares.len(), 10);
    assert_eq!(prediction.shares[prediction.label], prediction.confidence);
    let shares: Vec<f32> = prediction.shares.iter().map(|s| f32::from_bits(*s)).collect();
    assert!((shares.iter().sum::<f32>() - 1.0).abs() < 1e-5);
    assert!(shares.iter().all(|share| *share <= confidence));
    assert_eq!(predict(&model, sample(28, 28), &device).unwrap(), prediction);
}

#[test]
fn a_classifier_with_one_class_is_certain() {
    let device = NdArrayDevice::Cpu;
    let model = seeded(ModelConfig::new(1, 4));
    let prediction = predict(&model, sample(5, 5), &device).unwrap();
    let certain = 1.0f32.to_bits();
    assert_eq!(prediction, Prediction { label: 0, confidence: certain, shares: vec![certain] });
}

#[test]
fn the_greatest_score_is_chosen() {
    let device = NdArrayDevice::Cpu;
    let model = seeded(ModelConfig::new(4, 3));
    for favourite in 0..4 {
        let mut checkpoint = model.snapshot();
        for value in checkpoint.parameters[6].values.iter_mut() {
            *value = 0.0f32.to_bits();
        }
        for (class, value) in checkpoint.parameters[7].values.iter_mut().enumerate() {
            *value = (if class == favourite { 2.0f32 } else { -1.0 }).to_bits();
        }
        let prediction = infer(Some(&checkpoint), &device, sample(9, 9)).unwrap();
        assert_eq!(prediction.label, favourite);
        let share = 2.0f32.exp() / (2.0f32.exp() + 3.0 * (-1.0f32).exp());
        assert!((f32::from_bits(prediction.confidence) - share).abs() < 1e-5);
    }
}

#[test]
fn a_sample_that_does_not_fit_is_refused() {
    let device = NdArrayDevice::Cpu;
    let model = seeded(ModelConfig::new(10, 16));
    let mut torn = sample(28, 28);
    torn.pixels.pop();
    assert_eq!(predict(&model, torn, &device).err(), Some(ClassifierError::ShapeMismatch));
    assert_eq!(predict(&model, sample(0, 0), &device).err(), Some(ClassifierError::ShapeMismatch));
    assert_eq!(predict(&model, sample(4, 28), &device).err(), Some(ClassifierError::InputTooSmall));
    assert_eq!(predict(&model, sample(28, 4), &device).err(), Some(ClassifierError::InputTooSmall));
    let mut torn = sample(3, 3);
    torn.pixels.push(1);
    assert_eq!(predict(&model, torn, &device).err(), Some(ClassifierError::ShapeMismatch));
}

#[test]
fn inference_looks_at_the_checkpoint_first() {
    let device = NdArrayDevice::Cpu;
    let good = seeded(ModelConfig::new(10, 16)).snapshot();
    assert!(infer(Some(&good), &device, sample(28, 28)).unwrap().label < 10);
    let mut invalid = seeded(ModelConfig::new(10, 16)).snapshot();
    invalid.config.num_classes = 0;
    assert_eq!(infer(Some(&invalid), &device, sample(2, 2)).err(), Some(ClassifierError::InvalidConfig));
    let mut corrupt = seeded(ModelConfig::new(10, 16)).snapshot();
    corrupt.parameters[3].values.pop();
    assert_eq!(
        infer(Some(&corrupt), &device, sample(2, 2)).err(),
        Some(ClassifierError::CheckpointCorrupt)
    );
    assert_eq!(
        infer(Some(&good), &device, sample(2, 2)).err(),
        Some(ClassifierError::InputTooSmall)
    );
    assert_eq!(infer(None, &device, sample(28, 28)).err(), Some(ClassifierError::CheckpointNotFound));
    assert_eq!(infer(None, &device, sample(2, 2)).err(), Some(ClassifierError::CheckpointNotFound));
}

#[test]
fn the_share_of_the_chosen_class_is_picked() {
    let shares = vec![10, 20, 30];
    assert_eq!(
        pick(0, shares.clone()),
        Prediction { label: 0, confidence: 10, shares: shares.clone() }
    );
    assert_eq!(
        pick(2, shares.clone()),
        Prediction { label: 2, confidence: 30, shares: shares.clone() }
    );
    assert_eq!(pick(0, vec![7]), Prediction { label: 0, confidence: 7, shares: vec![7] });
}

#[test]
fn the_rows_of_a_matrix_are_cut_in_order() {
    assert_eq!(rows_of(&vec![1, 2, 3, 4, 5, 6], 2, 3), vec![vec![1, 2, 3], vec![4, 5, 6]]);
    assert_eq!(rows_of(&vec![1, 2, 3, 4, 5, 6], 3, 2), vec![vec![1, 2], vec![3, 4], vec![5, 6]]);
    assert_eq!(rows_of(&vec![7], 1, 1), vec![vec![7]]);
    assert_eq!(rows_of(&Vec::new(), 0, 4), Vec::<Vec<u32>>::new());
    assert_eq!(rows_of(&Vec::new(), 2, 0), vec![Vec::<u32>::new(), Vec::new()]);
}

#[test]
fn no_share_is_greater_than_the_confidence() {
    let device = NdArrayDevice::Cpu;
    for classes in [1, 2, 5, 10] {
        let model = seeded(ModelConfig::new(classes, 6));
        for size in [5, 9, 28] {
            let prediction = predict(&model, sample(size, size), &device).unwrap();
            let confidence = f32::from_bits(prediction.confidence);
            assert_eq!(prediction.shares.len(), classes);
            for share in &prediction.shares {
                assert!(!(f32::from_bits(*share) > confidence));
            }
        }
    }
}
