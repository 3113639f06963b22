//! The two kinds of failure: a block that cannot be built, and a tensor that
//! does not fit a block.

use vstd::prelude::*;
use crate::shape::{Dims2, Shape4};

verus! {

/// Why a block or a network cannot be built.
#[derive(Clone, Copy, Debug, PartialEq, Eq, Structural)]
pub enum ConfigError {
    /// The head variant is neither `"GNAP"` nor `"GDC"`.
    UnknownHead,
    /// The nominal input height or width is not the one the network is
    /// laid out for; `found` is the side that differs, the height if both
    /// do.
    InputSize { expected: usize, found: usize },
    /// The group count is zero or does not divide both channel counts.
    ChannelsNotDivisible { in_channels: usize, out_channels: usize, groups: usize },
    /// A kernel without height or without width.
    ZeroKernel,
    /// A stride of zero.
    ZeroStride,
    /// A residual unit whose input and output channel counts differ.
    ResidualChannels { in_channels: usize, out_channels: usize },
    /// A residual unit whose stride is not one.
    ResidualStride { stride: Dims2 },
}

/// Why a tensor of some shape does not go through a block.
#[derive(Clone, Copy, Debug, PartialEq, Eq, Structural)]
pub enum ShapeError {
    /// The tensor's channel count is not the block's input channel count.
    ChannelMismatch { expected: usize, found: usize },
    /// The padded input is smaller than the kernel along some axis.
    KernelExceedsInput,
    /// The two operands of a residual addition differ in shape.
    ResidualMismatch { input: Shape4, output: Shape4 },
    /// A matrix does not have the width a linear layer expects.
    FeatureMismatch { expected: usize, found: usize },
    /// A dimension of the result does not fit in `usize`.
    Overflow,
}

} // verus!
