//! The two embedding heads, and the flattening step they share.

use vstd::prelude::*;
use crate::conv::{BlockConfig, LinearBlock};
use crate::error::ShapeError;
use crate::laws::gdc_output_formula;
use crate::linear::Linear;
use crate::shape::{Dims2, Shape2, Shape4};

verus! {

/// Channel count of the feature map that the heads are laid out for.
pub const FEATURE_CHANNELS: usize = 512;

/// Height and width of the feature map that the heads are laid out for.
pub const FEATURE_SIDE: usize = 7;

/// The shape of a tensor of shape `input` once its channel and spatial axes
/// are merged into one, unless their product does not fit in `usize`.
pub open spec fn flattened(input: Shape4) -> Result<Shape2, ShapeError> {
    if input.channels * input.height * input.width > usize::MAX {
        Err(ShapeError::Overflow)
    } else {
        Ok(
            Shape2 {
                batch: input.batch,
                features: (input.channels * input.height * input.width) as usize,
            },
        )
    }
}

/// Merges the channel and spatial axes of a tensor into one.
#[derive(Clone, Copy, Debug)]
pub struct Flatten;

impl Flatten {
    /// The flattening step, which has no parameters.
    pub fn new() -> (f: Flatten) {
        Flatten
    }

    /// The shape of the flattened tensor, see [`flattened`].
    pub fn forward(&self, input: Shape4) -> (r: Result<Shape2, ShapeError>)
        ensures
            r == flattened(input),
    {
        let c: u128 = input.channels as u128;
        let h: u128 = input.height as u128;
        let w: u128 = input.width as u128;
        if c == 0 || h == 0 || w == 0 {
            assert(c * h * w == 0) by (nonlinear_arith)
                requires
                    c == 0 || h == 0 || w == 0,
            ;
            return Ok(Shape2 { batch: input.batch, features: 0 });
        }
        assert(c * h <= 0xffff_ffff_ffff_ffff * 0xffff_ffff_ffff_ffff) by (nonlinear_arith)
            requires
                c <= 0xffff_ffff_ffff_ffff,
                h <= 0xffff_ffff_ffff_ffff,
        ;
        let plane: u128 = c * h;
        if plane > usize::MAX as u128 {
            assert(c * h * w >= c * h) by (nonlinear_arith)
                requires
                    w >= 1,
                    c * h >= 0,
            ;
            return Err(ShapeError::Overflow);
        }
        assert(plane * w <= 0xffff_ffff_ffff_ffff * 0xffff_ffff_ffff_ffff) by (nonlinear_arith)
            requires
                plane <= 0xffff_ffff_ffff_ffff,
                w <= 0xffff_ffff_ffff_ffff,
        ;
        let volume: u128 = plane * w;
        if volume > usize::MAX as u128 {
            return Err(ShapeError::Overflow);
        }
        Ok(Shape2 { batch: input.batch, features: volume as usize })
    }
}

/// The parameters of an embedding head.
#[derive(Clone, Copy, Debug, PartialEq, Eq, Structural)]
pub enum HeadVariant {
    /// Global-norm-aware pooling over `num_features` channels.
    Gnap { num_features: usize },
    /// Global depthwise convolution and a projection to `embedding_size`.
    Gdc { embedding_size: usize },
}

impl HeadVariant {
    /// The depthwise convolution of the second head: its kernel covers the
    /// whole feature map, one group per channel.
    pub open spec fn gdc_conv() -> BlockConfig {
        BlockConfig {
            in_channels: FEATURE_CHANNELS,
            out_channels: FEATURE_CHANNELS,
            kernel: Dims2::of(FEATURE_SIDE, FEATURE_SIDE),
            stride: Dims2::of(1, 1),
            padding: Dims2::of(0, 0),
            groups: FEATURE_CHANNELS,
        }
    }

    /// The projection of the second head, from one value per channel to
    /// the embedding.
    pub open spec fn gdc_linear(embedding_size: usize) -> Linear {
        Linear { d_input: FEATURE_CHANNELS, d_output: embedding_size }
    }

    /// The shape of the embedding that the head computes from a feature map
    /// of shape `input`.
    ///
    /// The first head normalizes, pools each channel down to one value and
    /// normalizes again: it asks for its own channel count and returns one
    /// feature per channel. The second head convolves, flattens and
    /// projects: the flattened tensor must have the width the projection was
    /// built for, and the result has the configured embedding size.
    pub open spec fn output(self, input: Shape4) -> Result<Shape2, ShapeError> {
        match self {
            HeadVariant::Gnap { num_features } => if input.channels != num_features {
                Err(ShapeError::ChannelMismatch { expected: num_features, found: input.channels })
            } else {
                Ok(Shape2 { batch: input.batch, features: num_features })
            },
            HeadVariant::Gdc { embedding_size } => match Self::gdc_conv().output_shape(input) {
                Err(e) => Err(e),
                Ok(pooled) => match flattened(pooled) {
                    Err(e) => Err(e),
                    Ok(flat) => Self::gdc_linear(embedding_size).output_shape(flat),
                },
            },
        }
    }
}

impl HeadVariant {
    /// What [`HeadVariant::output`] comes to, said at once: for the first
    /// head it is said so there, for the second head it is
    /// [`gdc_embedding`].
    pub open spec fn embedding(self, input: Shape4) -> Result<Shape2, ShapeError> {
        match self {
            HeadVariant::Gnap { num_features } => self.output(input),
            HeadVariant::Gdc { embedding_size } => gdc_embedding(embedding_size, input),
        }
    }
}

/// What [`HeadVariant::output`] comes to for the second head: the head
/// accepts exactly the feature maps it is laid out for and returns
/// `embedding_size` features per sample. A smaller map is smaller than the
/// kernel; a larger one leaves more than the projection takes.
pub open spec fn gdc_embedding(embedding_size: usize, input: Shape4) -> Result<Shape2, ShapeError> {
    if input.channels != FEATURE_CHANNELS {
        Err(ShapeError::ChannelMismatch { expected: FEATURE_CHANNELS, found: input.channels })
    } else if input.height < FEATURE_SIDE || input.width < FEATURE_SIDE {
        Err(ShapeError::KernelExceedsInput)
    } else if input.height == FEATURE_SIDE && input.width == FEATURE_SIDE {
        Ok(Shape2 { batch: input.batch, features: embedding_size })
    } else if FEATURE_CHANNELS * (input.height - FEATURE_SIDE + 1) * (input.width - FEATURE_SIDE
        + 1) > usize::MAX {
        Err(ShapeError::Overflow)
    } else {
        Err(
            ShapeError::FeatureMismatch {
                expected: FEATURE_CHANNELS,
                found: (FEATURE_CHANNELS * (input.height - FEATURE_SIDE + 1) * (input.width
                    - FEATURE_SIDE + 1)) as usize,
            },
        )
    }
}

/// Global-norm-aware pooling: normalization, rescaling by the ratio of the
/// global mean to each position's norm over the channels, global average
/// pooling, flattening, normalization.
#[derive(Debug)]
pub struct GNAP {
    num_features: usize,
}

impl View for GNAP {
    type V = HeadVariant;

    closed spec fn view(&self) -> HeadVariant {
        HeadVariant::Gnap { num_features: self.num_features }
    }
}

impl GNAP {
    /// The head for feature maps with `embedding_size` channels.
    pub fn new(embedding_size: usize) -> (head: GNAP)
        ensures
            head@ == (HeadVariant::Gnap { num_features: embedding_size }),
    {
        GNAP { num_features: embedding_size }
    }

    /// The channel count the head was built for, which is also the width of
    /// its embedding.
    pub fn num_features(&self) -> (n: usize)
        ensures
            self@ == (HeadVariant::Gnap { num_features: n }),
    {
        self.num_features
    }

    /// The shape of the embedding for a feature map of shape `input`.
    pub fn forward(&self, input: Shape4) -> (r: Result<Shape2, ShapeError>)
        ensures
            self@ is Gnap,
            r == self@.output(input),
            r == self@.embedding(input),
    {
        if input.channels != self.num_features {
            Err(ShapeError::ChannelMismatch { expected: self.num_features, found: input.channels })
        } else {
            Ok(Shape2 { batch: input.batch, features: input.channels })
        }
    }
}

impl Clone for GNAP {
    fn clone(&self) -> (head: GNAP)
        ensures
            head@ == self@,
    {
        GNAP { num_features: self.num_features }
    }
}

/// Global depthwise convolution: a depthwise convolution over the whole
/// feature map, flattening, a projection without bias, normalization.
#[derive(Debug)]
pub struct GDC {
    conv_6_dw: LinearBlock,
    conv_6_flatten: Flatten,
    linear: Linear,
}

impl View for GDC {
    type V = HeadVariant;

    closed spec fn view(&self) -> HeadVariant {
        HeadVariant::Gdc { embedding_size: self.linear.d_output }
    }
}

impl GDC {
    #[verifier::type_invariant]
    spec fn wf(&self) -> bool {
        &&& self.conv_6_dw@ == HeadVariant::gdc_conv()
        &&& self.linear.d_input == FEATURE_CHANNELS
    }

    /// The head that projects to `embedding_size` features.
    pub fn new(embedding_size: usize) -> (head: GDC)
        ensures
            head@ == (HeadVariant::Gdc { embedding_size }),
    {
        let conv_6_dw = LinearBlock::with_config(
            BlockConfig {
                in_channels: FEATURE_CHANNELS,
                out_channels: FEATURE_CHANNELS,
                kernel: Dims2 { h: FEATURE_SIDE, w: FEATURE_SIDE },
                stride: Dims2 { h: 1, w: 1 },
                padding: Dims2 { h: 0, w: 0 },
                groups: FEATURE_CHANNELS,
            },
        );
        let linear = Linear::new(FEATURE_CHANNELS, embedding_size);
        GDC { conv_6_dw, conv_6_flatten: Flatten::new(), linear }
    }

    /// The width of the head's embedding.
    pub fn embedding_size(&self) -> (n: usize)
        ensures
            self@ == (HeadVariant::Gdc { embedding_size: n }),
    {
        self.linear.d_output
    }

    /// The head's depthwise convolution.
    pub fn conv_6_dw(&self) -> (block: &LinearBlock)
        ensures
            block@ == HeadVariant::gdc_conv(),
    {
        proof {
            use_type_invariant(self);
        }
        &self.conv_6_dw
    }

    /// The head's projection.
    pub fn linear(&self) -> (layer: Linear)
        ensures
            self@ matches HeadVariant::Gdc { embedding_size } && layer == HeadVariant::gdc_linear(
                embedding_size,
            ),
    {
        proof {
            use_type_invariant(self);
        }
        self.linear
    }

    /// The shape of the embedding for a feature map of shape `input`:
    /// `embedding_size` features per sample for a feature map of 512
    /// channels of 7 by 7, and a failure for every other feature map.
    pub fn forward(&self, input: Shape4) -> (r: Result<Shape2, ShapeError>)
        ensures
            self@ is Gdc,
            r == self@.output(input),
            r == self@.embedding(input),
    {
        proof {
            use_type_invariant(self);
            gdc_output_formula(self.linear.d_output, input);
        }
        let pooled = match self.conv_6_dw.forward(input) {
            Ok(shape) => shape,
            Err(e) => { return Err(e); },
        };
        let flat = match self.conv_6_flatten.forward(pooled) {
            Ok(shape) => shape,
            Err(e) => { return Err(e); },
        };
        self.linear.forward(flat)
    }
}

impl Clone for GDC {
    fn clone(&self) -> (head: GDC)
        ensures
            head@ == self@,
    {
        proof {
            use_type_invariant(self);
        }
        GDC {
            conv_6_dw: self.conv_6_dw.clone(),
            conv_6_flatten: Flatten::new(),
            linear: self.linear,
        }
    }
}

/// The embedding head of a network: one of the two variants, chosen when the
/// network is built.
#[derive(Debug)]
pub enum OutputLayer {
    GNAP(GNAP),
    GDC(GDC),
}

impl View for OutputLayer {
    type V = HeadVariant;

    open spec fn view(&self) -> HeadVariant {
        match self {
            OutputLayer::GNAP(layer) => layer@,
            OutputLayer::GDC(layer) => layer@,
        }
    }
}

impl OutputLayer {
    /// The shape of the embedding for a feature map of shape `input`.
    pub fn forward(&self, input: Shape4) -> (r: Result<Shape2, ShapeError>)
        ensures
            r == self@.output(input),
            r == self@.embedding(input),
            self matches OutputLayer::GNAP(_) ==> self@ is Gnap,
            self matches OutputLayer::GDC(_) ==> self@ is Gdc,
    {
        match self {
            OutputLayer::GNAP(layer) => layer.forward(input),
            OutputLayer::GDC(layer) => layer.forward(input),
        }
    }
}

impl Clone for OutputLayer {
    fn clone(&self) -> (head: OutputLayer)
        ensures
            head@ == self@,
    {
        match self {
            OutputLayer::GNAP(layer) => OutputLayer::GNAP(layer.clone()),
            OutputLayer::GDC(layer) => OutputLayer::GDC(layer.clone()),
        }
    }
}

} // verus!
