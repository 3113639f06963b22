//! The two leaf blocks: a convolution followed by a normalization, with or
//! without an activation behind it. Neither the normalization nor the
//! activation changes a shape, so both blocks map shapes the same way.

use vstd::prelude::*;
use vstd::arithmetic::div_mod::lemma_div_is_ordered_by_denominator;
use crate::error::{ConfigError, ShapeError};
use crate::shape::{Dims2, Shape4};

verus! {

/// Size of one spatial axis behind a convolution:
/// `floor((size + 2 * padding - kernel) / stride) + 1`.
pub open spec fn conv_out_dim(size: int, kernel: int, stride: int, padding: int) -> int {
    (size + 2 * padding - kernel) / stride + 1
}

/// What a convolution makes of one spatial axis: the size given by
/// [`conv_out_dim`], unless the padded axis is shorter than the kernel or the
/// size does not fit in `usize`.
pub open spec fn conv_axis(size: usize, kernel: usize, stride: usize, padding: usize) -> Result<
    usize,
    ShapeError,
> {
    if size + 2 * padding < kernel {
        Err(ShapeError::KernelExceedsInput)
    } else if conv_out_dim(size as int, kernel as int, stride as int, padding as int)
        > usize::MAX {
        Err(ShapeError::Overflow)
    } else {
        Ok(conv_out_dim(size as int, kernel as int, stride as int, padding as int) as usize)
    }
}

/// Computes [`conv_axis`] without overflowing on the way.
fn conv_output_size(size: usize, kernel: usize, stride: usize, padding: usize) -> (r: Result<
    usize,
    ShapeError,
>)
    requires
        stride > 0,
    ensures
        r == conv_axis(size, kernel, stride, padding),
{
    let padded: u128 = size as u128 + 2 * (padding as u128);
    if padded < kernel as u128 {
        return Err(ShapeError::KernelExceedsInput);
    }
    let span: u128 = padded - kernel as u128;
    let steps: u128 = span / (stride as u128);
    proof {
        lemma_div_is_ordered_by_denominator(span as int, 1, stride as int);
    }
    let out: u128 = steps + 1;
    if out > usize::MAX as u128 {
        return Err(ShapeError::Overflow);
    }
    Ok(out as usize)
}

/// The parameters of one convolution block.
#[derive(Clone, Copy, Debug, PartialEq, Eq, Structural)]
pub struct BlockConfig {
    pub in_channels: usize,
    pub out_channels: usize,
    pub kernel: Dims2,
    pub stride: Dims2,
    pub padding: Dims2,
    pub groups: usize,
}

impl BlockConfig {
    /// The configuration with the given channel counts, `[h, w]` pairs and
    /// group count.
    pub open spec fn of(
        in_channels: usize,
        out_channels: usize,
        kernel: [usize; 2],
        stride: [usize; 2],
        padding: [usize; 2],
        groups: usize,
    ) -> BlockConfig {
        BlockConfig {
            in_channels,
            out_channels,
            kernel: Dims2::of(kernel[0], kernel[1]),
            stride: Dims2::of(stride[0], stride[1]),
            padding: Dims2::of(padding[0], padding[1]),
            groups,
        }
    }

    /// The first reason, if any, why no block can be built from `self`: a
    /// group count that is zero or does not divide both channel counts, then
    /// a kernel of zero height or width, then a stride of zero.
    pub open spec fn config_error(self) -> Option<ConfigError> {
        if self.groups == 0 || self.in_channels % self.groups != 0 || self.out_channels
            % self.groups != 0 {
            Some(
                ConfigError::ChannelsNotDivisible {
                    in_channels: self.in_channels,
                    out_channels: self.out_channels,
                    groups: self.groups,
                },
            )
        } else if self.kernel.h == 0 || self.kernel.w == 0 {
            Some(ConfigError::ZeroKernel)
        } else if self.stride.h == 0 || self.stride.w == 0 {
            Some(ConfigError::ZeroStride)
        } else {
            None
        }
    }

    /// A block can be built from `self`.
    pub open spec fn valid(self) -> bool {
        self.config_error() is None
    }

    /// The shape that a block built from `self` produces for `input`: the
    /// batch size is kept, the channel count becomes `out_channels`, and each
    /// spatial axis gets the size given by [`conv_out_dim`]. A tensor with
    /// the wrong channel count is rejected first, then one that is smaller
    /// than the kernel once padded, then one whose result does not fit in
    /// `usize`.
    pub open spec fn output_shape(self, input: Shape4) -> Result<Shape4, ShapeError> {
        let height = conv_out_dim(
            input.height as int,
            self.kernel.h as int,
            self.stride.h as int,
            self.padding.h as int,
        );
        let width = conv_out_dim(
            input.width as int,
            self.kernel.w as int,
            self.stride.w as int,
            self.padding.w as int,
        );
        if input.channels != self.in_channels {
            Err(ShapeError::ChannelMismatch { expected: self.in_channels, found: input.channels })
        } else if input.height + 2 * self.padding.h < self.kernel.h || input.width + 2
            * self.padding.w < self.kernel.w {
            Err(ShapeError::KernelExceedsInput)
        } else if height > usize::MAX || width > usize::MAX {
            Err(ShapeError::Overflow)
        } else {
            Ok(
                Shape4 {
                    batch: input.batch,
                    channels: self.out_channels,
                    height: height as usize,
                    width: width as usize,
                },
            )
        }
    }

    /// Checks the parameters: `Ok` exactly when `self` is valid, and
    /// otherwise the error named by [`BlockConfig::config_error`].
    pub fn validate(&self) -> (r: Result<(), ConfigError>)
        ensures
            match r {
                Ok(_) => self.valid(),
                Err(e) => self.config_error() == Some(e),
            },
    {
        if self.groups == 0 || self.in_channels % self.groups != 0 || self.out_channels
            % self.groups != 0 {
            Err(
                ConfigError::ChannelsNotDivisible {
                    in_channels: self.in_channels,
                    out_channels: self.out_channels,
                    groups: self.groups,
                },
            )
        } else if self.kernel.h == 0 || self.kernel.w == 0 {
            Err(ConfigError::ZeroKernel)
        } else if self.stride.h == 0 || self.stride.w == 0 {
            Err(ConfigError::ZeroStride)
        } else {
            Ok(())
        }
    }

    /// Computes [`BlockConfig::output_shape`].
    fn apply(&self, input: Shape4) -> (r: Result<Shape4, ShapeError>)
        requires
            self.valid(),
        ensures
            r == self.output_shape(input),
    {
        if input.channels != self.in_channels {
            return Err(
                ShapeError::ChannelMismatch { expected: self.in_channels, found: input.channels },
            );
        }
        let h = conv_output_size(input.height, self.kernel.h, self.stride.h, self.padding.h);
        let w = conv_output_size(input.width, self.kernel.w, self.stride.w, self.padding.w);
        match (h, w) {
            (Ok(height), Ok(width)) => Ok(
                Shape4 { batch: input.batch, channels: self.out_channels, height, width },
            ),
            (Err(ShapeError::KernelExceedsInput), _) => Err(ShapeError::KernelExceedsInput),
            (_, Err(ShapeError::KernelExceedsInput)) => Err(ShapeError::KernelExceedsInput),
            _ => Err(ShapeError::Overflow),
        }
    }
}

/// Convolution, normalization, activation.
#[derive(Debug)]
pub struct ConvBlock {
    config: BlockConfig,
}

impl View for ConvBlock {
    type V = BlockConfig;

    closed spec fn view(&self) -> BlockConfig {
        self.config
    }
}

impl ConvBlock {
    #[verifier::type_invariant]
    spec fn wf(&self) -> bool {
        self.config.valid()
    }

    /// Builds the block, or says why its parameters are not those of a
    /// convolution.
    pub fn new(
        in_c: usize,
        out_c: usize,
        kernel: [usize; 2],
        stride: [usize; 2],
        padding: [usize; 2],
        groups: usize,
    ) -> (r: Result<ConvBlock, ConfigError>)
        ensures
            match r {
                Ok(block) => block@ == BlockConfig::of(in_c, out_c, kernel, stride, padding, groups)
                    && block@.valid(),
                Err(e) => BlockConfig::of(
                    in_c,
                    out_c,
                    kernel,
                    stride,
                    padding,
                    groups,
                ).config_error() == Some(e),
            },
    {
        let config = BlockConfig {
            in_channels: in_c,
            out_channels: out_c,
            kernel: Dims2::from_array(kernel),
            stride: Dims2::from_array(stride),
            padding: Dims2::from_array(padding),
            groups,
        };
        match config.validate() {
            Ok(_) => Ok(ConvBlock { config }),
            Err(e) => Err(e),
        }
    }

    /// Builds the block from parameters already known to be valid.
    pub(crate) fn with_config(config: BlockConfig) -> (block: ConvBlock)
        requires
            config.valid(),
        ensures
            block@ == config,
    {
        ConvBlock { config }
    }

    /// The parameters the block was built from.
    pub fn config(&self) -> (c: BlockConfig)
        ensures
            c == self@,
            c.valid(),
    {
        proof {
            use_type_invariant(self);
        }
        self.config
    }

    /// The shape of the block's result for a tensor of shape `input`.
    pub fn forward(&self, input: Shape4) -> (r: Result<Shape4, ShapeError>)
        ensures
            self@.valid(),
            r == self@.output_shape(input),
            r matches Ok(out) ==> {
                &&& out.batch == input.batch
                &&& out.channels == self@.out_channels
                &&& out.height == (input.height + 2 * self@.padding.h - self@.kernel.h)
                    / (self@.stride.h as int) + 1
                &&& out.width == (input.width + 2 * self@.padding.w - self@.kernel.w)
                    / (self@.stride.w as int) + 1
            },
    {
        proof {
            use_type_invariant(self);
        }
        self.config.apply(input)
    }
}

impl Clone for ConvBlock {
    fn clone(&self) -> (block: ConvBlock)
        ensures
            block@ == self@,
    {
        proof {
            use_type_invariant(self);
        }
        ConvBlock { config: self.config }
    }
}

/// Convolution and normalization, without an activation.
#[derive(Debug)]
pub struct LinearBlock {
    config: BlockConfig,
}

impl View for LinearBlock {
    type V = BlockConfig;

    closed spec fn view(&self) -> BlockConfig {
        self.config
    }
}

impl LinearBlock {
    #[verifier::type_invariant]
    spec fn wf(&self) -> bool {
        self.config.valid()
    }

    /// Builds the block, or says why its parameters are not those of a
    /// convolution.
    pub fn new(
        in_c: usize,
        out_c: usize,
        kernel: [usize; 2],
        stride: [usize; 2],
        padding: [usize; 2],
        groups: usize,
    ) -> (r: Result<LinearBlock, ConfigError>)
        ensures
            match r {
                Ok(block) => block@ == BlockConfig::of(in_c, out_c, kernel, stride, padding, groups)
                    && block@.valid(),
                Err(e) => BlockConfig::of(
                    in_c,
                    out_c,
                    kernel,
                    stride,
                    padding,
                    groups,
                ).config_error() == Some(e),
            },
    {
        let config = BlockConfig {
            in_channels: in_c,
            out_channels: out_c,
            kernel: Dims2::from_array(kernel),
            stride: Dims2::from_array(stride),
            padding: Dims2::from_array(padding),
            groups,
        };
        match config.validate() {
            Ok(_) => Ok(LinearBlock { config }),
            Err(e) => Err(e),
        }
    }

    /// Builds the block from parameters already known to be valid.
    pub(crate) fn with_config(config: BlockConfig) -> (block: LinearBlock)
        requires
            config.valid(),
        ensures
            block@ == config,
    {
        LinearBlock { config }
    }

    /// The parameters the block was built from.
    pub fn config(&self) -> (c: BlockConfig)
        ensures
            c == self@,
            c.valid(),
    {
        proof {
            use_type_invariant(self);
        }
        self.config
    }

    /// The shape of the block's result for a tensor of shape `input`.
    pub fn forward(&self, input: Shape4) -> (r: Result<Shape4, ShapeError>)
        ensures
            self@.valid(),
            r == self@.output_shape(input),
            r matches Ok(out) ==> {
                &&& out.batch == input.batch
                &&& out.channels == self@.out_channels
                &&& out.height == (input.height + 2 * self@.padding.h - self@.kernel.h)
                    / (self@.stride.h as int) + 1
                &&& out.width == (input.width + 2 * self@.padding.w - self@.kernel.w)
                    / (self@.stride.w as int) + 1
            },
    {
        proof {
            use_type_invariant(self);
        }
        self.config.apply(input)
    }
}

impl Clone for LinearBlock {
    fn clone(&self) -> (block: LinearBlock)
        ensures
            block@ == self@,
    {
        proof {
            use_type_invariant(self);
        }
        LinearBlock { config: self.config }
    }
}

} // verus!
