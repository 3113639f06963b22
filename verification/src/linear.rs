//! The fully connected layer.

use vstd::prelude::*;
use crate::error::ShapeError;
use crate::shape::Shape2;

verus! {

/// A linear map from `d_input` to `d_output` features per sample.
#[derive(Clone, Copy, Debug, PartialEq, Eq, Structural)]
pub struct Linear {
    pub d_input: usize,
    pub d_output: usize,
}

impl Linear {
    /// The shape behind the layer: a matrix with `d_input` features per
    /// sample comes out with `d_output` features per sample, and no other
    /// matrix is accepted.
    pub open spec fn output_shape(self, input: Shape2) -> Result<Shape2, ShapeError> {
        if input.features != self.d_input {
            Err(ShapeError::FeatureMismatch { expected: self.d_input, found: input.features })
        } else {
            Ok(Shape2 { batch: input.batch, features: self.d_output })
        }
    }

    /// The layer from `d_input` to `d_output` features.
    pub fn new(d_input: usize, d_output: usize) -> (layer: Linear)
        ensures
            layer == (Linear { d_input, d_output }),
    {
        Linear { d_input, d_output }
    }

    /// The shape of the layer's result for a matrix of shape `input`.
    pub fn forward(&self, input: Shape2) -> (r: Result<Shape2, ShapeError>)
        ensures
            r == self.output_shape(input),
    {
        if input.features != self.d_input {
            Err(ShapeError::FeatureMismatch { expected: self.d_input, found: input.features })
        } else {
            Ok(Shape2 { batch: input.batch, features: self.d_output })
        }
    }
}

} // verus!
