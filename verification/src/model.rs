//! The classifier: two 3 x 3 convolutions, an adaptive average pooling to
//! 8 x 8, and two fully connected layers.

use crate::checkpoint::{expected_counts, expected_dims, Checkpoint, Parameter, PARAMETER_COUNT};
use crate::error::ClassifierError;
use crate::layers::{
    conv_bias_values, conv_forward, conv_result, conv_weight_dims, conv_weight_values,
    dense_bias_values, dense_forward, dense_weight_dims, dense_weight_values, dropout_maps,
    dropout_matrix, dropout_rate_bits, load_conv, load_dense, new_conv, new_dense, new_dropout,
    new_pool, new_relu, pool_forward, pool_output_size, pool_result, read_conv_bias,
    read_conv_weights, read_dense_bias, read_dense_weights, relu_maps, relu_matrix, ConvLayer,
    DenseLayer,
};
use crate::limits::{
    all_finite, all_rectified, batch_fits, batch_has_room, elements_fit, product_fits,
    values_finite,
};
use crate::optim::{learning_rate_bits, step_conv, step_dense, AdamOptimizer};
use crate::tensors::{
    flatten_maps, image_dims, image_values, images_to_maps, map_dims, matrix_carries_graph,
    matrix_dims, matrix_values, read_image_dims, Images, Matrix,
};
use burn::backend::autodiff::grads::Gradients;
use burn::backend::ndarray::NdArrayDevice;
use burn::nn::pool::AdaptiveAvgPool2d;
use burn::nn::{Dropout, Relu};
use vstd::prelude::*;

verus! {

/// Channels that the first convolution produces.
pub const CONV1_CHANNELS: usize = 8;

/// Channels that the second convolution produces.
pub const CONV2_CHANNELS: usize = 16;

/// Height and width of the convolution kernels.
pub const KERNEL_SIZE: usize = 3;

/// Height and width of the pooled feature maps.
pub const POOLED_SIZE: usize = 8;

/// Length of a sample's feature vector after pooling: 16 maps of 8 x 8.
pub const FLAT_FEATURES: usize = 1024;

/// The least height and width that two 3 x 3 convolutions without padding
/// leave something of.
pub const MIN_IMAGE_SIZE: usize = 5;

/// The dropout rate of a configuration that names none: one half, as the bits
/// of its IEEE 754 binary64 encoding.
pub const DEFAULT_DROPOUT: u64 = 0x3FE0_0000_0000_0000;

/// Whether `bits` encodes a binary64 number in `[0, 1)`: plus or minus zero, or
/// a positive number below one. Among non-negative binary64 numbers the order
/// of the encodings is the order of the numbers, and one is
/// `0x3FF0_0000_0000_0000`.
pub open spec fn encodes_rate(bits: u64) -> bool {
    bits < 0x3FF0_0000_0000_0000 || bits == 0x8000_0000_0000_0000
}

/// What a classifier of the given sizes answers to an image stack of the given
/// dimensions: `None` where it computes class scores, else the error.
pub open spec fn forward_refusal(dims: Seq<usize>, hidden_size: usize, num_classes: usize) -> Option<
    ClassifierError,
> {
    if dims.len() != 3 || dims[0] == 0 || !batch_fits(
        dims[0] as int,
        dims[1] as int,
        dims[2] as int,
        hidden_size as int,
        num_classes as int,
    ) {
        Some(ClassifierError::ShapeMismatch)
    } else if dims[1] < MIN_IMAGE_SIZE || dims[2] < MIN_IMAGE_SIZE {
        Some(ClassifierError::InputTooSmall)
    } else {
        None
    }
}

/// The shape of a classifier: the number of classes, the width of the first
/// fully connected layer, and the dropout rate, as the bits of its IEEE 754
/// binary64 encoding.
#[derive(Clone, Copy, Debug, PartialEq, Eq, Structural)]
pub struct ModelConfig {
    pub num_classes: usize,
    pub hidden_size: usize,
    pub dropout: u64,
}

/// The classifier with its parameters.
pub struct Model {
    config: ModelConfig,
    conv1: ConvLayer,
    conv2: ConvLayer,
    pool: AdaptiveAvgPool2d,
    dropout: Dropout,
    linear1: DenseLayer,
    linear2: DenseLayer,
    activation: Relu,
    training: bool,
}

impl ModelConfig {
    /// Both sizes are positive and the dropout rate lies in `[0, 1)`.
    pub open spec fn valid(&self) -> bool {
        &&& self.num_classes >= 1
        &&& self.hidden_size >= 1
        &&& encodes_rate(self.dropout)
    }

    /// The weights of each fully connected layer fit in one allocation.
    pub open spec fn fits_memory(&self) -> bool {
        &&& elements_fit(FLAT_FEATURES * self.hidden_size)
        &&& elements_fit(self.hidden_size * self.num_classes)
    }

    /// A configuration with the default dropout rate, one half.
    pub fn new(num_classes: usize, hidden_size: usize) -> (config: ModelConfig)
        ensures
            config == (ModelConfig { num_classes, hidden_size, dropout: DEFAULT_DROPOUT }),
    {
        ModelConfig { num_classes, hidden_size, dropout: DEFAULT_DROPOUT }
    }

    /// The same configuration with another dropout rate, given as the bits of
    /// its binary64 encoding.
    pub fn with_dropout(self, dropout: u64) -> (config: ModelConfig)
        ensures
            config == (ModelConfig { dropout, ..self }),
    {
        ModelConfig { dropout, ..self }
    }

    /// Tests `valid`.
    pub fn is_valid(&self) -> (b: bool)
        ensures
            b == self.valid(),
    {
        self.num_classes >= 1 && self.hidden_size >= 1 && (self.dropout < 0x3FF0_0000_0000_0000
            || self.dropout == 0x8000_0000_0000_0000)
    }

    /// Tests `fits_memory`.
    pub fn has_room(&self) -> (b: bool)
        ensures
            b == self.fits_memory(),
    {
        product_fits(FLAT_FEATURES, self.hidden_size) && product_fits(
            self.hidden_size,
            self.num_classes,
        )
    }

    /// Creates a classifier of this shape with freshly drawn parameters, each
    /// of them finite, in training mode. A configuration that is not valid, or
    /// whose layers do not fit in memory, gives `InvalidConfig` and no
    /// classifier.
    pub fn init(&self, device: &NdArrayDevice) -> (r: Result<Model, ClassifierError>)
        ensures
            r is Ok <==> self.valid() && self.fits_memory(),
            r matches Err(e) ==> e == ClassifierError::InvalidConfig,
            r matches Ok(model) ==> {
                &&& model.config() == *self
                &&& model.is_training()
                &&& model.finite()
            },
    {
        if !self.is_valid() || !self.has_room() {
            return Err(ClassifierError::InvalidConfig);
        }
        let model = Model {
            config: *self,
            conv1: new_conv(1, CONV1_CHANNELS, KERNEL_SIZE, KERNEL_SIZE, device),
            conv2: new_conv(CONV1_CHANNELS, CONV2_CHANNELS, KERNEL_SIZE, KERNEL_SIZE, device),
            pool: new_pool(POOLED_SIZE, POOLED_SIZE),
            activation: new_relu(),
            linear1: new_dense(FLAT_FEATURES, self.hidden_size, device),
            linear2: new_dense(self.hidden_size, self.num_classes, device),
            dropout: new_dropout(self.dropout),
            training: true,
        };
        Ok(model)
    }
}

impl Model {
    #[verifier::type_invariant]
    spec fn well_formed(&self) -> bool {
        &&& self.config.valid()
        &&& self.config.fits_memory()
        &&& conv_weight_dims(self.conv1) == seq![CONV1_CHANNELS, 1usize, KERNEL_SIZE, KERNEL_SIZE]
        &&& conv_weight_dims(self.conv2) == seq![
            CONV2_CHANNELS,
            CONV1_CHANNELS,
            KERNEL_SIZE,
            KERNEL_SIZE,
        ]
        &&& pool_output_size(self.pool) == seq![POOLED_SIZE, POOLED_SIZE]
        &&& dense_weight_dims(self.linear1) == seq![FLAT_FEATURES, self.config.hidden_size]
        &&& dense_weight_dims(self.linear2) == seq![
            self.config.hidden_size,
            self.config.num_classes,
        ]
        &&& dropout_rate_bits(self.dropout) == self.config.dropout
    }

    /// The configuration that the classifier was created from.
    pub closed spec fn config(&self) -> ModelConfig {
        self.config
    }

    /// The number of classes that the classifier tells apart.
    pub open spec fn num_classes(&self) -> usize {
        self.config().num_classes
    }

    /// The width of the first fully connected layer.
    pub open spec fn hidden_size(&self) -> usize {
        self.config().hidden_size
    }

    /// Whether `forward` applies dropout.
    pub closed spec fn is_training(&self) -> bool {
        self.training
    }

    /// Moves every parameter one optimizer step along its gradient.
    pub(crate) fn apply(self, optimizer: &mut AdamOptimizer, gradients: Gradients) -> (updated:
        Model)
        ensures
            updated.config() == self.config(),
            updated.is_training() == self.is_training(),
            learning_rate_bits(*final(optimizer)) == learning_rate_bits(*old(optimizer)),
    {
        proof {
            use_type_invariant(&self);
        }
        let mut gradients = gradients;
        let conv1 = step_conv(optimizer, self.conv1, &mut gradients);
        let conv2 = step_conv(optimizer, self.conv2, &mut gradients);
        let linear1 = step_dense(optimizer, self.linear1, &mut gradients);
        let linear2 = step_dense(optimizer, self.linear2, &mut gradients);
        Model::assemble(
            self.config,
            self.training,
            conv1,
            conv2,
            self.pool,
            self.dropout,
            linear1,
            linear2,
            self.activation,
        )
    }

    /// The classifier of the given configuration and mode that holds the given
    /// layers: its parameters are those of the layers, in the order of a
    /// checkpoint. The layers must have the dimensions that the configuration
    /// asks for, and the dropout its rate.
    fn assemble(
        config: ModelConfig,
        training: bool,
        conv1: ConvLayer,
        conv2: ConvLayer,
        pool: AdaptiveAvgPool2d,
        dropout: Dropout,
        linear1: DenseLayer,
        linear2: DenseLayer,
        activation: Relu,
    ) -> (model: Model)
        requires
            config.valid(),
            config.fits_memory(),
            conv_weight_dims(conv1) == seq![CONV1_CHANNELS, 1usize, KERNEL_SIZE, KERNEL_SIZE],
            conv_weight_dims(conv2) == seq![
                CONV2_CHANNELS,
                CONV1_CHANNELS,
                KERNEL_SIZE,
                KERNEL_SIZE,
            ],
            pool_output_size(pool) == seq![POOLED_SIZE, POOLED_SIZE],
            dense_weight_dims(linear1) == seq![FLAT_FEATURES, config.hidden_size],
            dense_weight_dims(linear2) == seq![config.hidden_size, config.num_classes],
            dropout_rate_bits(dropout) == config.dropout,
        ensures
            model.config() == config,
            model.is_training() == training,
            model.parameters() == seq![
                conv_weight_values(conv1),
                conv_bias_values(conv1),
                conv_weight_values(conv2),
                conv_bias_values(conv2),
                dense_weight_values(linear1),
                dense_bias_values(linear1),
                dense_weight_values(linear2),
                dense_bias_values(linear2),
            ],
    {
        Model { config, conv1, conv2, pool, dropout, linear1, linear2, activation, training }
    }

    /// What `forward` answers to an image stack of the given dimensions: `None`
    /// where it computes class scores, else the error.
    pub open spec fn refusal(&self, dims: Seq<usize>) -> Option<ClassifierError> {
        forward_refusal(dims, self.hidden_size(), self.num_classes())
    }

    /// The elements of each parameter, in the order of a checkpoint.
    pub closed spec fn parameters(&self) -> Seq<Seq<u32>> {
        seq![
            conv_weight_values(self.conv1),
            conv_bias_values(self.conv1),
            conv_weight_values(self.conv2),
            conv_bias_values(self.conv2),
            dense_weight_values(self.linear1),
            dense_bias_values(self.linear1),
            dense_weight_values(self.linear2),
            dense_bias_values(self.linear2),
        ]
    }

    /// Every element of every parameter is a finite number.
    pub open spec fn finite(&self) -> bool {
        forall|i: int|
            0 <= i < self.parameters().len() ==> values_finite(#[trigger] self.parameters()[i])
    }

    /// What the classifier computes without dropout from a stack of images, up
    /// to the first fully connected layer: for each image the 1024 elements of
    /// its pooled feature maps. The stack is given by its elements and its
    /// dimensions `[batch, height, width]`.
    pub closed spec fn feature_values(&self, images: Seq<u32>, dims: Seq<usize>) -> Seq<u32> {
        let first = conv_result(
            conv_weight_values(self.conv1),
            conv_bias_values(self.conv1),
            seq![CONV1_CHANNELS, 1usize, KERNEL_SIZE, KERNEL_SIZE],
            images,
            seq![dims[0], 1usize, dims[1], dims[2]],
        );
        let second = conv_result(
            conv_weight_values(self.conv2),
            conv_bias_values(self.conv2),
            seq![CONV2_CHANNELS, CONV1_CHANNELS, KERNEL_SIZE, KERNEL_SIZE],
            first,
            seq![dims[0], CONV1_CHANNELS, (dims[1] - 2) as usize, (dims[2] - 2) as usize],
        );
        pool_result(
            all_rectified(second),
            seq![dims[0], CONV2_CHANNELS, (dims[1] - 4) as usize, (dims[2] - 4) as usize],
            seq![POOLED_SIZE, POOLED_SIZE],
        )
    }

    /// The checkpoint holds this classifier: its configuration, and each of
    /// its parameters element for element.
    pub open spec fn recorded_in(&self, checkpoint: Checkpoint) -> bool {
        &&& checkpoint.config == self.config()
        &&& checkpoint.consistent()
        &&& checkpoint.values() == self.parameters()
    }

    /// The configuration that the classifier was created from. It is valid,
    /// and its layers fit in memory.
    pub fn configuration(&self) -> (config: ModelConfig)
        ensures
            config == self.config(),
            config.valid(),
            config.fits_memory(),
            config.num_classes <= isize::MAX,
    {
        proof {
            use_type_invariant(self);
            assert(self.config.num_classes <= self.config.hidden_size * self.config.num_classes)
                by (nonlinear_arith)
                requires
                    self.config.hidden_size >= 1,
            ;
        }
        self.config
    }

    /// Tests `finite`.
    pub fn is_finite(&self) -> (b: bool)
        ensures
            b == self.finite(),
    {
        proof {
            use_type_invariant(self);
        }
        let ghost all = self.parameters();
        let p0 = read_conv_weights(&self.conv1);
        if !all_finite(&p0) {
            assert(all[0] == p0@);
            return false;
        }
        let p1 = read_conv_bias(&self.conv1);
        if !all_finite(&p1) {
            assert(all[1] == p1@);
            return false;
        }
        let p2 = read_conv_weights(&self.conv2);
        if !all_finite(&p2) {
            assert(all[2] == p2@);
            return false;
        }
        let p3 = read_conv_bias(&self.conv2);
        if !all_finite(&p3) {
            assert(all[3] == p3@);
            return false;
        }
        let p4 = read_dense_weights(&self.linear1);
        if !all_finite(&p4) {
            assert(all[4] == p4@);
            return false;
        }
        let p5 = read_dense_bias(&self.linear1);
        if !all_finite(&p5) {
            assert(all[5] == p5@);
            return false;
        }
        let p6 = read_dense_weights(&self.linear2);
        if !all_finite(&p6) {
            assert(all[6] == p6@);
            return false;
        }
        let p7 = read_dense_bias(&self.linear2);
        if !all_finite(&p7) {
            assert(all[7] == p7@);
            return false;
        }
        assert forall|i: int| 0 <= i < all.len() implies values_finite(#[trigger] all[i]) by {
            if i == 0 {
                assert(all[i] == p0@);
            } else if i == 1 {
                assert(all[i] == p1@);
            } else if i == 2 {
                assert(all[i] == p2@);
            } else if i == 3 {
                assert(all[i] == p3@);
            } else if i == 4 {
                assert(all[i] == p4@);
            } else if i == 5 {
                assert(all[i] == p5@);
            } else if i == 6 {
                assert(all[i] == p6@);
            } else {
                assert(all[i] == p7@);
            }
        }
        true
    }

    /// The same classifier with dropout switched on.
    pub fn train(self) -> (model: Model)
        ensures
            model.is_training(),
            model.config() == self.config(),
            model.parameters() == self.parameters(),
    {
        proof {
            use_type_invariant(&self);
        }
        let mut model = self;
        model.training = true;
        model
    }

    /// The same classifier with dropout switched off.
    pub fn eval(self) -> (model: Model)
        ensures
            !model.is_training(),
            model.config() == self.config(),
            model.parameters() == self.parameters(),
    {
        proof {
            use_type_invariant(&self);
        }
        let mut model = self;
        model.training = false;
        model
    }

    /// Computes the class scores of each image of the stack: one row of
    /// `num_classes` scores per image. An empty stack, or one too large for
    /// memory, gives `ShapeMismatch`; images under 5 x 5 give
    /// `InputTooSmall`. In training mode dropout is
    /// applied after each convolution and after the first fully connected
    /// layer.
    pub fn forward(&self, images: Images) -> (r: Result<Matrix, ClassifierError>)
        ensures
            match r {
                Ok(logits) => {
                    &&& self.refusal(image_dims(images)) is None
                    &&& matrix_dims(logits) == seq![image_dims(images)[0], self.num_classes()]
                },
                Err(e) => self.refusal(image_dims(images)) == Some(e),
            },
    {
        self.scores(images, self.training)
    }

    /// The pooled feature maps of each image of the stack, computed without
    /// dropout: one row of 1024 elements per image, which is what the first
    /// fully connected layer is handed in evaluation mode. The stack is
    /// refused as `forward` refuses it.
    pub fn features(&self, images: Images) -> (r: Result<Matrix, ClassifierError>)
        ensures
            match r {
                Ok(features) => {
                    &&& self.refusal(image_dims(images)) is None
                    &&& matrix_dims(features) == seq![image_dims(images)[0], FLAT_FEATURES]
                    &&& matrix_values(features) == self.feature_values(
                        image_values(images),
                        image_dims(images),
                    )
                },
                Err(e) => self.refusal(image_dims(images)) == Some(e),
            },
    {
        self.pooled(images, false)
    }

    /// The pooled feature maps of each image of the stack, with dropout
    /// applied after each convolution where `dropout` says so.
    fn pooled(&self, images: Images, dropout: bool) -> (r: Result<Matrix, ClassifierError>)
        ensures
            match r {
                Ok(features) => {
                    &&& self.refusal(image_dims(images)) is None
                    &&& matrix_dims(features) == seq![image_dims(images)[0], FLAT_FEATURES]
                    &&& !dropout ==> matrix_values(features) == self.feature_values(
                        image_values(images),
                        image_dims(images),
                    )
                },
                Err(e) => self.refusal(image_dims(images)) == Some(e),
            },
    {
        proof {
            use_type_invariant(self);
        }
        let dims = read_image_dims(&images);
        let (batch, height, width) = (dims[0], dims[1], dims[2]);
        let sizes = &self.config;
        if batch == 0 || !batch_has_room(
            batch,
            height,
            width,
            sizes.hidden_size,
            sizes.num_classes,
        ) {
            return Err(ClassifierError::ShapeMismatch);
        }
        if height < MIN_IMAGE_SIZE || width < MIN_IMAGE_SIZE {
            return Err(ClassifierError::InputTooSmall);
        }
        proof {
            lemma_maps_fit(batch as int, height as int, width as int);
            assert(batch * 1 * height * width == batch * height * width) by (nonlinear_arith);
        }
        let x = images_to_maps(images, [batch, 1, height, width]);
        let x = conv_forward(&self.conv1, x);
        assert(map_dims(x) =~= seq![
            batch,
            CONV1_CHANNELS,
            (height - 2) as usize,
            (width - 2) as usize,
        ]);
        let x = if dropout {
            dropout_maps(&self.dropout, x)
        } else {
            x
        };
        let x = conv_forward(&self.conv2, x);
        assert(map_dims(x) =~= seq![
            batch,
            CONV2_CHANNELS,
            (height - 4) as usize,
            (width - 4) as usize,
        ]);
        let x = if dropout {
            dropout_maps(&self.dropout, x)
        } else {
            x
        };
        let x = relu_maps(&self.activation, x);
        let x = pool_forward(&self.pool, x);
        let features = flatten_maps(x, FLAT_FEATURES);
        assert(matrix_dims(features) =~= seq![image_dims(images)[0], FLAT_FEATURES]);
        Ok(features)
    }

    /// `forward`, with dropout applied where `dropout` says so, whatever the
    /// mode. The scores carry their graph.
    pub(crate) fn scores(&self, images: Images, dropout: bool) -> (r: Result<
        Matrix,
        ClassifierError,
    >)
        ensures
            match r {
                Ok(logits) => {
                    &&& self.refusal(image_dims(images)) is None
                    &&& matrix_dims(logits) == seq![image_dims(images)[0], self.num_classes()]
                    &&& matrix_carries_graph(logits)
                },
                Err(e) => self.refusal(image_dims(images)) == Some(e),
            },
    {
        proof {
            use_type_invariant(self);
        }
        let x = match self.pooled(images, dropout) {
            Ok(features) => features,
            Err(e) => {
                return Err(e);
            },
        };
        let x = dense_forward(&self.linear1, x);
        let x = if dropout {
            dropout_matrix(&self.dropout, x)
        } else {
            x
        };
        let x = relu_matrix(&self.activation, x);
        let logits = dense_forward(&self.linear2, x);
        assert(matrix_dims(logits) =~= seq![image_dims(images)[0], self.num_classes()]);
        Ok(logits)
    }

    /// Snapshots the classifier: its configuration and a copy of every
    /// parameter. The snapshot can be restored.
    pub fn snapshot(&self) -> (checkpoint: Checkpoint)
        ensures
            self.recorded_in(checkpoint),
            checkpoint.restorable(),
    {
        proof {
            use_type_invariant(self);
        }
        let config = self.config;
        let hidden_size = config.hidden_size;
        let num_classes = config.num_classes;
        let mut parameters: Vec<Parameter> = Vec::new();
        parameters.push(
            Parameter {
                dims: vec![CONV1_CHANNELS, 1, KERNEL_SIZE, KERNEL_SIZE],
                values: read_conv_weights(&self.conv1),
            },
        );
        parameters.push(
            Parameter { dims: vec![CONV1_CHANNELS], values: read_conv_bias(&self.conv1) },
        );
        parameters.push(
            Parameter {
                dims: vec![CONV2_CHANNELS, CONV1_CHANNELS, KERNEL_SIZE, KERNEL_SIZE],
                values: read_conv_weights(&self.conv2),
            },
        );
        parameters.push(
            Parameter { dims: vec![CONV2_CHANNELS], values: read_conv_bias(&self.conv2) },
        );
        parameters.push(
            Parameter {
                dims: vec![FLAT_FEATURES, hidden_size],
                values: read_dense_weights(&self.linear1),
            },
        );
        parameters.push(Parameter { dims: vec![hidden_size], values: read_dense_bias(&self.linear1) });
        parameters.push(
            Parameter {
                dims: vec![hidden_size, num_classes],
                values: read_dense_weights(&self.linear2),
            },
        );
        parameters.push(Parameter { dims: vec![num_classes], values: read_dense_bias(&self.linear2) });
        let checkpoint = Checkpoint { config, parameters };
        proof {
            let expected = expected_dims(num_classes, hidden_size);
            assert forall|i: int| 0 <= i < PARAMETER_COUNT implies {
                &&& (#[trigger] checkpoint.parameters@[i]).dims@ == expected[i]
                &&& checkpoint.parameters@[i].values@.len() == expected_counts(
                    num_classes,
                    hidden_size,
                )[i]
            } by {
                assert(checkpoint.parameters@[i].dims@ =~= expected[i]);
                let a = conv_weight_dims(self.conv1);
                let b = conv_weight_dims(self.conv2);
                assert(a[0] * a[1] * a[2] * a[3] == 72) by (nonlinear_arith)
                    requires
                        a[0] == 8 && a[1] == 1 && a[2] == 3 && a[3] == 3,
                ;
                assert(b[0] * b[1] * b[2] * b[3] == 1152) by (nonlinear_arith)
                    requires
                        b[0] == 16 && b[1] == 8 && b[2] == 3 && b[3] == 3,
                ;
            }
            assert(checkpoint.values() =~= self.parameters());
        }
        checkpoint
    }

    /// Restores the classifier that a checkpoint holds, in evaluation mode. A
    /// configuration that is not valid gives `InvalidConfig`; parameters that
    /// are not those that the configuration asks for give `CheckpointCorrupt`.
    pub fn restore(checkpoint: &Checkpoint, device: &NdArrayDevice) -> (r: Result<
        Model,
        ClassifierError,
    >)
        ensures
            r is Ok <==> checkpoint.restorable(),
            r matches Ok(model) ==> model.recorded_in(*checkpoint) && !model.is_training(),
            r matches Err(e) ==> e == (if checkpoint.config.valid() {
                ClassifierError::CheckpointCorrupt
            } else {
                ClassifierError::InvalidConfig
            }),
    {
        let config = &checkpoint.config;
        if !config.is_valid() {
            return Err(ClassifierError::InvalidConfig);
        }
        if !config.has_room() || checkpoint.parameters.len() != PARAMETER_COUNT {
            return Err(ClassifierError::CheckpointCorrupt);
        }
        let hidden_size = config.hidden_size;
        let num_classes = config.num_classes;
        let ghost expected = expected_dims(num_classes, hidden_size);
        let ghost counts = expected_counts(num_classes, hidden_size);
        let p = &checkpoint.parameters;
        let dims0: Vec<usize> = vec![CONV1_CHANNELS, 1, KERNEL_SIZE, KERNEL_SIZE];
        let dims1: Vec<usize> = vec![CONV1_CHANNELS];
        let dims2: Vec<usize> = vec![CONV2_CHANNELS, CONV1_CHANNELS, KERNEL_SIZE, KERNEL_SIZE];
        let dims3: Vec<usize> = vec![CONV2_CHANNELS];
        let dims4: Vec<usize> = vec![FLAT_FEATURES, hidden_size];
        let dims5: Vec<usize> = vec![hidden_size];
        let dims6: Vec<usize> = vec![hidden_size, num_classes];
        let dims7: Vec<usize> = vec![num_classes];
        proof {
            assert(dims0@ =~= expected[0]);
            assert(dims1@ =~= expected[1]);
            assert(dims2@ =~= expected[2]);
            assert(dims3@ =~= expected[3]);
            assert(dims4@ =~= expected[4]);
            assert(dims5@ =~= expected[5]);
            assert(dims6@ =~= expected[6]);
            assert(dims7@ =~= expected[7]);
        }
        let matching = p[0].matches(&dims0, 72) && p[1].matches(&dims1, 8) && p[2].matches(
            &dims2,
            1152,
        ) && p[3].matches(&dims3, 16) && p[4].matches(&dims4, FLAT_FEATURES * hidden_size)
            && p[5].matches(&dims5, hidden_size) && p[6].matches(
            &dims6,
            hidden_size * num_classes,
        ) && p[7].matches(&dims7, num_classes);
        if !matching {
            return Err(ClassifierError::CheckpointCorrupt);
        }
        assert(checkpoint.consistent()) by {
            assert forall|i: int| 0 <= i < PARAMETER_COUNT implies {
                &&& (#[trigger] checkpoint.parameters@[i]).dims@ == expected[i]
                &&& checkpoint.parameters@[i].values@.len() == counts[i]
            } by {
                if i == 0 {
                } else if i == 1 {
                } else if i == 2 {
                } else if i == 3 {
                } else if i == 4 {
                } else if i == 5 {
                } else if i == 6 {
                } else {
                    assert(i == 7);
                }
            }
        }
        let conv1 = new_conv(1, CONV1_CHANNELS, KERNEL_SIZE, KERNEL_SIZE, device);
        let conv2 = new_conv(CONV1_CHANNELS, CONV2_CHANNELS, KERNEL_SIZE, KERNEL_SIZE, device);
        let linear1 = new_dense(FLAT_FEATURES, hidden_size, device);
        let linear2 = new_dense(hidden_size, num_classes, device);
        proof {
            let a = conv_weight_dims(conv1);
            let b = conv_weight_dims(conv2);
            assert(a[0] * a[1] * a[2] * a[3] == 72) by (nonlinear_arith)
                requires
                    a[0] == 8 && a[1] == 1 && a[2] == 3 && a[3] == 3,
            ;
            assert(b[0] * b[1] * b[2] * b[3] == 1152) by (nonlinear_arith)
                requires
                    b[0] == 16 && b[1] == 8 && b[2] == 3 && b[3] == 3,
            ;
        }
        let model = Model {
            config: *config,
            conv1: load_conv(
                conv1,
                [CONV1_CHANNELS, 1, KERNEL_SIZE, KERNEL_SIZE],
                p[0].copy_values(),
                p[1].copy_values(),
                device,
            ),
            conv2: load_conv(
                conv2,
                [CONV2_CHANNELS, CONV1_CHANNELS, KERNEL_SIZE, KERNEL_SIZE],
                p[2].copy_values(),
                p[3].copy_values(),
                device,
            ),
            pool: new_pool(POOLED_SIZE, POOLED_SIZE),
            activation: new_relu(),
            linear1: load_dense(
                linear1,
                [FLAT_FEATURES, hidden_size],
                p[4].copy_values(),
                p[5].copy_values(),
                device,
            ),
            linear2: load_dense(
                linear2,
                [hidden_size, num_classes],
                p[6].copy_values(),
                p[7].copy_values(),
                device,
            ),
            dropout: new_dropout(config.dropout),
            training: false,
        };
        assert(checkpoint.values() =~= model.parameters());
        Ok(model)
    }
}

/// The feature maps that the classifier computes from a stack of images hold
/// at most 64 elements for each pixel of the stack: 8 maps after the first
/// convolution, 16 after the second, and 16 maps of 8 x 8 after the pooling.
proof fn lemma_maps_fit(batch: int, height: int, width: int)
    requires
        batch >= 1,
        height >= MIN_IMAGE_SIZE,
        width >= MIN_IMAGE_SIZE,
        elements_fit(64 * (batch * height * width)),
    ensures
        elements_fit(batch * 8 * (height - 3 + 1) * (width - 3 + 1)),
        elements_fit(batch * 16 * (height - 2 - 3 + 1) * (width - 2 - 3 + 1)),
        elements_fit(batch * 16 * 8 * 8),
{
    assert(batch * 8 * (height - 3 + 1) * (width - 3 + 1) <= 64 * (batch * height * width))
        by (nonlinear_arith)
        requires
            batch >= 1,
            height >= 5,
            width >= 5,
    ;
    assert(batch * 16 * (height - 2 - 3 + 1) * (width - 2 - 3 + 1) <= 64 * (batch * height
        * width)) by (nonlinear_arith)
        requires
            batch >= 1,
            height >= 5,
            width >= 5,
    ;
    assert(batch * 16 * 8 * 8 <= 64 * (batch * height * width)) by (nonlinear_arith)
        requires
            batch >= 1,
            height >= 5,
            width >= 5,
    ;
}

/// A classifier never refuses a stack of at least one image of at least
/// 5 x 5 that fits in memory: `forward` then returns one row of `num_classes`
/// scores for each image.
pub proof fn lemma_forward_accepts(model: Model, dims: Seq<usize>)
    requires
        dims.len() == 3,
        dims[0] >= 1,
        dims[1] >= MIN_IMAGE_SIZE,
        dims[2] >= MIN_IMAGE_SIZE,
        batch_fits(
            dims[0] as int,
            dims[1] as int,
            dims[2] as int,
            model.hidden_size() as int,
            model.num_classes() as int,
        ),
    ensures
        model.refusal(dims) is None,
{
}

/// Two classifiers with the same parameters compute the same pooled feature
/// maps from the same stack of images, bit for bit.
pub proof fn lemma_same_parameters_same_features(
    a: Model,
    b: Model,
    images: Seq<u32>,
    dims: Seq<usize>,
)
    requires
        a.parameters() == b.parameters(),
    ensures
        a.feature_values(images, dims) == b.feature_values(images, dims),
{
    assert(a.parameters()[0] == b.parameters()[0]);
    assert(a.parameters()[1] == b.parameters()[1]);
    assert(a.parameters()[2] == b.parameters()[2]);
    assert(a.parameters()[3] == b.parameters()[3]);
}

/// A classifier restored from a snapshot of another refuses the stacks that
/// the other refuses, and computes from any stack the same pooled feature
/// maps, bit for bit: the two hand the same numbers to their first fully
/// connected layers, which hold the same weights.
pub proof fn lemma_restore_returns_features(
    model: Model,
    checkpoint: Checkpoint,
    restored: Model,
    images: Seq<u32>,
    dims: Seq<usize>,
)
    requires
        model.recorded_in(checkpoint),
        restored.recorded_in(checkpoint),
    ensures
        restored.refusal(dims) == model.refusal(dims),
        restored.feature_values(images, dims) == model.feature_values(images, dims),
{
    lemma_same_parameters_same_features(model, restored, images, dims);
}

/// A classifier restored from a snapshot of another has the other's
/// configuration, and every parameter of the other bit for bit.
pub proof fn lemma_restore_returns_parameters(model: Model, checkpoint: Checkpoint, restored: Model)
    requires
        model.recorded_in(checkpoint),
        restored.recorded_in(checkpoint),
    ensures
        restored.config() == model.config(),
        restored.parameters() == model.parameters(),
{
}

} // verus!
