use vstd::prelude::*;

verus! {

/// Every way in which the classifier pipeline refuses its input.
#[derive(Clone, Copy, Debug, PartialEq, Eq, Structural)]
pub enum ClassifierError {
    /// `num_classes` or `hidden_size` is zero, the dropout rate lies outside
    /// `[0, 1)`, the layers outgrow memory, or the batch size is zero.
    InvalidConfig,
    /// A batch is empty or outgrows memory, its samples are not full grids of
    /// one size, or its labels are not one class of the classifier for each
    /// image.
    ShapeMismatch,
    /// An image is smaller than 5 x 5, so that the two convolutions leave
    /// nothing.
    InputTooSmall,
    /// A loss, or a parameter after a training step, was infinite or not a
    /// number.
    NumericalInstability,
    /// No checkpoint was found.
    CheckpointNotFound,
    /// A checkpoint's parameters are not those that its configuration asks
    /// for.
    CheckpointCorrupt,
    /// A sample source has no sample at the index, or no such run of samples.
    IndexOutOfRange,
}

} // verus!
