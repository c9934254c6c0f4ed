//! The snapshot of a classifier that outlives it: the configuration, and each
//! parameter as plain numbers.

use crate::model::{
    ModelConfig, CONV1_CHANNELS, CONV2_CHANNELS, FLAT_FEATURES, KERNEL_SIZE,
};
use vstd::prelude::*;

verus! {

/// The number of parameters of a classifier: kernels and bias of each
/// convolution, weights and bias of each fully connected layer.
pub const PARAMETER_COUNT: usize = 8;

/// One parameter: its dimensions, and its elements in the order of the
/// dimensions, each as the bits of its IEEE 754 binary32 encoding.
#[derive(Clone, Debug, PartialEq, Eq)]
pub struct Parameter {
    pub dims: Vec<usize>,
    pub values: Vec<u32>,
}

/// A classifier's configuration and its parameters, in the order of the
/// layers: kernels and bias of the first convolution, kernels and bias of the
/// second, weights and bias of the first fully connected layer, weights and
/// bias of the second.
#[derive(Clone, Debug, PartialEq, Eq)]
pub struct Checkpoint {
    pub config: ModelConfig,
    pub parameters: Vec<Parameter>,
}

/// The dimensions of each parameter of a classifier of the given sizes.
pub open spec fn expected_dims(num_classes: usize, hidden_size: usize) -> Seq<Seq<usize>> {
    seq![
        seq![CONV1_CHANNELS, 1usize, KERNEL_SIZE, KERNEL_SIZE],
        seq![CONV1_CHANNELS],
        seq![CONV2_CHANNELS, CONV1_CHANNELS, KERNEL_SIZE, KERNEL_SIZE],
        seq![CONV2_CHANNELS],
        seq![FLAT_FEATURES, hidden_size],
        seq![hidden_size],
        seq![hidden_size, num_classes],
        seq![num_classes],
    ]
}

/// The number of elements of each parameter of a classifier of the given
/// sizes.
pub open spec fn expected_counts(num_classes: usize, hidden_size: usize) -> Seq<int> {
    seq![
        72int,
        8int,
        1152int,
        16int,
        FLAT_FEATURES * hidden_size,
        hidden_size as int,
        hidden_size * num_classes,
        num_classes as int,
    ]
}

impl Checkpoint {
    /// The elements of each parameter.
    pub open spec fn values(&self) -> Seq<Seq<u32>> {
        Seq::new(self.parameters@.len(), |i: int| self.parameters@[i].values@)
    }

    /// There are eight parameters, and each has the dimensions and the number
    /// of elements that the configuration asks for.
    pub open spec fn consistent(&self) -> bool {
        &&& self.parameters@.len() == PARAMETER_COUNT
        &&& forall|i: int|
            0 <= i < PARAMETER_COUNT ==> {
                &&& (#[trigger] self.parameters@[i]).dims@ == expected_dims(
                    self.config.num_classes,
                    self.config.hidden_size,
                )[i]
                &&& self.parameters@[i].values@.len() == expected_counts(
                    self.config.num_classes,
                    self.config.hidden_size,
                )[i]
            }
    }

    /// A classifier can be restored from this checkpoint: the configuration is
    /// valid, the parameters are consistent with it, and the weights of each
    /// layer fit in one allocation.
    pub open spec fn restorable(&self) -> bool {
        &&& self.config.valid()
        &&& self.config.fits_memory()
        &&& self.consistent()
    }
}

impl Parameter {
    /// Whether the parameter has exactly the given dimensions and number of
    /// elements.
    pub fn matches(&self, dims: &Vec<usize>, count: usize) -> (b: bool)
        ensures
            b == (self.dims@ == dims@ && self.values@.len() == count),
    {
        if self.dims.len() != dims.len() || self.values.len() != count {
            return false;
        }
        let mut i: usize = 0;
        while i < dims.len()
            invariant
                i <= dims@.len(),
                self.dims@.len() == dims@.len(),
                forall|k: int| 0 <= k < i ==> self.dims@[k] == dims@[k],
            decreases dims@.len() - i,
        {
            if self.dims[i] != dims[i] {
                return false;
            }
            i += 1;
        }
        assert(self.dims@ =~= dims@);
        true
    }

    /// A copy of the elements.
    pub fn copy_values(&self) -> (v: Vec<u32>)
        ensures
            v@ == self.values@,
    {
        let mut v: Vec<u32> = Vec::new();
        let mut i: usize = 0;
        while i < self.values.len()
            invariant
                i <= self.values@.len(),
                v@ == self.values@.take(i as int),
            decreases self.values@.len() - i,
        {
            v.push(self.values[i]);
            assert(self.values@.take(i + 1) == self.values@.take(i as int).push(
                self.values@[i as int],
            ));
            i += 1;
        }
        assert(self.values@.take(i as int) == self.values@);
        v
    }
}

} // verus!
