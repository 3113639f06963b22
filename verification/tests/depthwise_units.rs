use mobilefacenet::depthwise::{DepthWise, DepthWiseConfig, Residual};
use mobilefacenet::error::{ConfigError, ShapeError};
use mobilefacenet::shape::{Dims2, Shape4};

#[test]
fn depthwise_unit_with_stride_two_halves_the_axes() {
    let unit = DepthWise::new(3, 3, false, [3, 3], [2, 2], [0, 0], 1).unwrap();
    let out = unit.forward(Shape4::new(2, 3, 112, 112)).unwrap();
    assert_eq!(out.dims(), [2, 3, 55, 55]);
}

#[test]
fn depthwise_unit_changes_the_channel_count() {
    let unit = DepthWise::new(64, 128, false, [3, 3], [2, 2], [1, 1], 256).unwrap();
    assert_eq!(unit.forward(Shape4::new(2, 64, 28, 28)), Ok(Shape4::new(2, 128, 14, 14)));
    assert_eq!(unit.forward(Shape4::new(2, 64, 27, 27)), Ok(Shape4::new(2, 128, 14, 14)));
}

#[test]
fn depthwise_unit_is_made_of_three_blocks() {
    let unit = DepthWise::new(64, 128, false, [3, 5], [2, 1], [1, 0], 256).unwrap();
    let expand = unit.conv().config();
    assert_eq!((expand.in_channels, expand.out_channels, expand.groups), (64, 256, 1));
    assert_eq!((expand.kernel, expand.stride, expand.padding), (
        Dims2 { h: 1, w: 1 },
        Dims2 { h: 1, w: 1 },
        Dims2 { h: 0, w: 0 },
    ));
    let depthwise = unit.conv_dw().config();
    assert_eq!((depthwise.in_channels, depthwise.out_channels, depthwise.groups), (256, 256, 256));
    assert_eq!((depthwise.kernel, depthwise.stride, depthwise.padding), (
        Dims2 { h: 3, w: 5 },
        Dims2 { h: 2, w: 1 },
        Dims2 { h: 1, w: 0 },
    ));
    let project = unit.project().config();
    assert_eq!((project.in_channels, project.out_channels, project.groups), (256, 128, 1));
    assert_eq!((project.kernel, project.stride, project.padding), (
        Dims2 { h: 1, w: 1 },
        Dims2 { h: 1, w: 1 },
        Dims2 { h: 0, w: 0 },
    ));
    assert!(!unit.residual());
    assert_eq!(
        unit.config(),
        DepthWiseConfig {
            in_channels: 64,
            out_channels: 128,
            residual: false,
            kernel: Dims2 { h: 3, w: 5 },
            stride: Dims2 { h: 2, w: 1 },
            padding: Dims2 { h: 1, w: 0 },
            groups: 256,
        }
    );
}

#[test]
fn residual_unit_with_mismatched_channels_is_not_built() {
    assert_eq!(
        DepthWise::new(64, 128, true, [3, 3], [1, 1], [1, 1], 128).unwrap_err(),
        ConfigError::ResidualChannels { in_channels: 64, out_channels: 128 }
    );
}

#[test]
fn residual_unit_with_stride_two_is_not_built() {
    assert_eq!(
        DepthWise::new(64, 64, true, [3, 3], [2, 2], [1, 1], 128).unwrap_err(),
        ConfigError::ResidualStride { stride: Dims2 { h: 2, w: 2 } }
    );
    assert_eq!(
        DepthWise::new(64, 64, true, [3, 3], [1, 2], [1, 1], 128).unwrap_err(),
        ConfigError::ResidualStride { stride: Dims2 { h: 1, w: 2 } }
    );
}

#[test]
fn residual_channels_are_reported_before_residual_stride() {
    assert_eq!(
        DepthWise::new(64, 32, true, [3, 3], [2, 2], [1, 1], 128).unwrap_err(),
        ConfigError::ResidualChannels { in_channels: 64, out_channels: 32 }
    );
}

#[test]
fn depthwise_unit_without_expansion_is_not_built() {
    assert_eq!(
        DepthWise::new(64, 64, false, [3, 3], [1, 1], [1, 1], 0).unwrap_err(),
        ConfigError::ChannelsNotDivisible { in_channels: 0, out_channels: 0, groups: 0 }
    );
    assert_eq!(
        DepthWise::new(64, 32, true, [3, 3], [0, 1], [1, 1], 0).unwrap_err(),
        ConfigError::ChannelsNotDivisible { in_channels: 0, out_channels: 0, groups: 0 }
    );
}

#[test]
fn depthwise_unit_with_zero_kernel_is_not_built() {
    assert_eq!(
        DepthWise::new(64, 64, false, [0, 3], [1, 1], [1, 1], 8).unwrap_err(),
        ConfigError::ZeroKernel
    );
    assert_eq!(
        DepthWise::new(64, 32, true, [3, 0], [2, 2], [1, 1], 8).unwrap_err(),
        ConfigError::ZeroKernel
    );
    assert_eq!(
        Residual::new(64, 2, 8, [0, 0], [1, 1], [1, 1]).unwrap_err(),
        ConfigError::ZeroKernel
    );
}

#[test]
fn depthwise_unit_with_zero_stride_is_not_built() {
    assert_eq!(
        DepthWise::new(64, 64, false, [3, 3], [0, 1], [1, 1], 8).unwrap_err(),
        ConfigError::ZeroStride
    );
    assert_eq!(
        DepthWise::new(64, 32, true, [3, 3], [1, 0], [1, 1], 8).unwrap_err(),
        ConfigError::ZeroStride
    );
}

#[test]
fn residual_unit_keeps_the_shape() {
    let unit = DepthWise::new(64, 64, true, [3, 3], [1, 1], [1, 1], 128).unwrap();
    assert!(unit.residual());
    let input = Shape4::new(2, 64, 28, 28);
    assert_eq!(unit.forward(input), Ok(input));
    let wide = DepthWise::new(8, 8, true, [5, 5], [1, 1], [2, 2], 16).unwrap();
    let input = Shape4::new(1, 8, 9, 13);
    assert_eq!(wide.forward(input), Ok(input));
}

#[test]
fn residual_addition_of_different_shapes_fails() {
    // Without padding the branch loses a border, so the sum is undefined.
    let unit = DepthWise::new(3, 3, true, [3, 3], [1, 1], [0, 0], 3).unwrap();
    assert_eq!(
        unit.forward(Shape4::new(2, 3, 112, 112)),
        Err(ShapeError::ResidualMismatch {
            input: Shape4::new(2, 3, 112, 112),
            output: Shape4::new(2, 3, 110, 110),
        })
    );
    // Not even a branch of one pixel is stretched over the input.
    assert_eq!(
        unit.forward(Shape4::new(2, 3, 3, 3)),
        Err(ShapeError::ResidualMismatch {
            input: Shape4::new(2, 3, 3, 3),
            output: Shape4::new(2, 3, 1, 1),
        })
    );
}

#[test]
fn depthwise_unit_rejects_what_its_blocks_reject() {
    let unit = DepthWise::new(3, 3, false, [3, 3], [2, 2], [0, 0], 1).unwrap();
    assert_eq!(
        unit.forward(Shape4::new(2, 4, 112, 112)),
        Err(ShapeError::ChannelMismatch { expected: 3, found: 4 })
    );
    assert_eq!(unit.forward(Shape4::new(2, 3, 2, 112)), Err(ShapeError::KernelExceedsInput));
    assert_eq!(unit.forward(Shape4::new(2, 3, 0, 0)), Err(ShapeError::KernelExceedsInput));
    let padded = DepthWise::new(1, 1, false, [1, 1], [1, 1], [0, usize::MAX], 1).unwrap();
    assert_eq!(padded.forward(Shape4::new(1, 1, 1, 1)), Err(ShapeError::Overflow));
}

#[test]
fn residual_stack_keeps_the_shape() {
    let stack = Residual::new(3, 3, 3, [3, 3], [1, 1], [1, 1]).unwrap();
    let out = stack.forward(Shape4::new(2, 3, 112, 112)).unwrap();
    assert_eq!(out.dims(), [2, 3, 112, 112]);
}

#[test]
fn residual_stack_keeps_the_shape_for_every_depth() {
    for depth in 0..=8usize {
        let stack = Residual::new(64, depth, 128, [3, 3], [1, 1], [1, 1]).unwrap();
        assert_eq!(stack.len(), depth);
        assert_eq!(stack.units().len(), depth);
        for side in 1..=9usize {
            let input = Shape4::new(2, 64, side, 2 * side);
            assert_eq!(stack.forward(input), Ok(input));
        }
    }
}

#[test]
fn residual_stack_holds_identical_residual_units() {
    let stack = Residual::new(128, 6, 256, [3, 3], [1, 1], [1, 1]).unwrap();
    let expected = DepthWiseConfig {
        in_channels: 128,
        out_channels: 128,
        residual: true,
        kernel: Dims2 { h: 3, w: 3 },
        stride: Dims2 { h: 1, w: 1 },
        padding: Dims2 { h: 1, w: 1 },
        groups: 256,
    };
    assert_eq!(stack.units().len(), 6);
    for unit in stack.units().iter() {
        assert_eq!(unit.config(), expected);
    }
}

#[test]
fn residual_stack_with_stride_two_is_not_built() {
    assert_eq!(
        Residual::new(64, 4, 128, [3, 3], [2, 2], [1, 1]).unwrap_err(),
        ConfigError::ResidualStride { stride: Dims2 { h: 2, w: 2 } }
    );
    assert_eq!(
        Residual::new(64, 1, 0, [3, 3], [1, 1], [1, 1]).unwrap_err(),
        ConfigError::ChannelsNotDivisible { in_channels: 0, out_channels: 0, groups: 0 }
    );
    assert_eq!(
        Residual::new(64, 2, 8, [3, 3], [0, 0], [1, 1]).unwrap_err(),
        ConfigError::ZeroStride
    );
}

#[test]
fn empty_residual_stack_is_the_identity() {
    // No unit is built, so no parameter is objected to.
    let stack = Residual::new(64, 0, 128, [3, 3], [2, 2], [1, 1]).unwrap();
    assert_eq!(stack.len(), 0);
    let input = Shape4::new(2, 17, 5, 0);
    assert_eq!(stack.forward(input), Ok(input));
}

#[test]
fn residual_stack_rejects_what_its_first_unit_rejects() {
    let stack = Residual::new(64, 4, 128, [3, 3], [1, 1], [1, 1]).unwrap();
    assert_eq!(
        stack.forward(Shape4::new(2, 32, 28, 28)),
        Err(ShapeError::ChannelMismatch { expected: 64, found: 32 })
    );
    assert_eq!(stack.forward(Shape4::new(2, 64, 0, 28)), Err(ShapeError::KernelExceedsInput));
    let shrinking = Residual::new(64, 4, 128, [3, 3], [1, 1], [0, 0]).unwrap();
    assert_eq!(
        shrinking.forward(Shape4::new(2, 64, 28, 28)),
        Err(ShapeError::ResidualMismatch {
            input: Shape4::new(2, 64, 28, 28),
            output: Shape4::new(2, 64, 26, 26),
        })
    );
}

#[test]
fn copies_behave_as_their_source() {
    let unit = DepthWise::new(64, 128, false, [3, 3], [2, 2], [1, 1], 256).unwrap();
    assert_eq!(unit.clone().config(), unit.config());
    let stack = Residual::new(64, 3, 128, [3, 3], [1, 1], [1, 1]).unwrap();
    let copy = stack.clone();
    assert_eq!(copy.len(), 3);
    let input = Shape4::new(2, 64, 5, 5);
    assert_eq!(copy.forward(input), stack.forward(input));
    for (a, b) in copy.units().iter().zip(stack.units().iter()) {
        assert_eq!(a.config(), b.config());
    }
}
