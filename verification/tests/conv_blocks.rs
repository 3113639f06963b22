use mobilefacenet::conv::{BlockConfig, ConvBlock, LinearBlock};
use mobilefacenet::error::{ConfigError, ShapeError};
use mobilefacenet::shape::{Dims2, Shape4};

/// The formula of the convolution, written out independently.
fn expected_axis(size: usize, kernel: usize, stride: usize, padding: usize) -> Option<usize> {
    let padded = size as u128 + 2 * padding as u128;
    if padded < kernel as u128 {
        return None;
    }
    let out = (padded - kernel as u128) / stride as u128 + 1;
    usize::try_from(out).ok()
}

#[test]
fn conv_block_drops_a_border_with_3x3_kernel_and_no_padding() {
    let conv = ConvBlock::new(3, 36, [3, 3], [1, 1], [0, 0], 1).unwrap();
    let out = conv.forward(Shape4::new(2, 3, 112, 112)).unwrap();
    assert_eq!(out.dims(), [2, 36, 110, 110]);
}

#[test]
fn linear_block_drops_a_border_with_3x3_kernel_and_no_padding() {
    let linear = LinearBlock::new(3, 36, [3, 3], [1, 1], [0, 0], 1).unwrap();
    let out = linear.forward(Shape4::new(2, 3, 112, 112)).unwrap();
    assert_eq!(out.dims(), [2, 36, 110, 110]);
}

#[test]
fn conv_block_follows_formula_over_a_sweep() {
    for kernel in 1..=5usize {
        for stride in 1..=4usize {
            for padding in 0..=2usize {
                let conv =
                    ConvBlock::new(3, 8, [kernel, kernel], [stride, stride], [padding, padding], 1)
                        .unwrap();
                for size in 0..=40usize {
                    let got = conv.forward(Shape4::new(1, 3, size, size + 3));
                    let h = expected_axis(size, kernel, stride, padding);
                    let w = expected_axis(size + 3, kernel, stride, padding);
                    match (h, w) {
                        (Some(h), Some(w)) => assert_eq!(got, Ok(Shape4::new(1, 8, h, w))),
                        _ => assert_eq!(got, Err(ShapeError::KernelExceedsInput)),
                    }
                }
            }
        }
    }
}

#[test]
fn linear_block_follows_formula_over_a_sweep() {
    for kernel in 1..=4usize {
        for stride in 1..=3usize {
            for padding in 0..=1usize {
                let block =
                    LinearBlock::new(4, 6, [kernel, kernel], [stride, stride], [padding, padding], 2)
                        .unwrap();
                for size in 0..=30usize {
                    let got = block.forward(Shape4::new(5, 4, size + 1, size));
                    let h = expected_axis(size + 1, kernel, stride, padding);
                    let w = expected_axis(size, kernel, stride, padding);
                    match (h, w) {
                        (Some(h), Some(w)) => assert_eq!(got, Ok(Shape4::new(5, 6, h, w))),
                        _ => assert_eq!(got, Err(ShapeError::KernelExceedsInput)),
                    }
                }
            }
        }
    }
}

#[test]
fn axes_are_computed_independently() {
    let conv = ConvBlock::new(1, 1, [3, 5], [2, 3], [1, 0], 1).unwrap();
    // height: (10 + 2 - 3) / 2 + 1 = 5, width: (20 - 5) / 3 + 1 = 6
    assert_eq!(conv.forward(Shape4::new(1, 1, 10, 20)), Ok(Shape4::new(1, 1, 5, 6)));
}

#[test]
fn kernel_equal_to_input_leaves_one_position() {
    let conv = ConvBlock::new(512, 512, [7, 7], [1, 1], [0, 0], 512).unwrap();
    assert_eq!(conv.forward(Shape4::new(4, 512, 7, 7)), Ok(Shape4::new(4, 512, 1, 1)));
    let strided = ConvBlock::new(2, 2, [7, 7], [3, 3], [0, 0], 1).unwrap();
    assert_eq!(strided.forward(Shape4::new(4, 2, 7, 7)), Ok(Shape4::new(4, 2, 1, 1)));
}

#[test]
fn stride_with_remainder_rounds_down() {
    let conv = ConvBlock::new(1, 1, [3, 3], [2, 2], [0, 0], 1).unwrap();
    // (8 - 3) / 2 + 1 = 3, with a remainder of 1
    assert_eq!(conv.forward(Shape4::new(1, 1, 8, 8)), Ok(Shape4::new(1, 1, 3, 3)));
    // (7 - 3) / 2 + 1 = 3, exactly
    assert_eq!(conv.forward(Shape4::new(1, 1, 7, 7)), Ok(Shape4::new(1, 1, 3, 3)));
    let wide = ConvBlock::new(1, 1, [3, 3], [5, 5], [1, 1], 1).unwrap();
    // (112 + 2 - 3) / 5 + 1 = 23
    assert_eq!(wide.forward(Shape4::new(1, 1, 112, 112)), Ok(Shape4::new(1, 1, 23, 23)));
}

#[test]
fn batch_of_zero_samples_passes() {
    let conv = ConvBlock::new(3, 4, [3, 3], [1, 1], [1, 1], 1).unwrap();
    assert_eq!(conv.forward(Shape4::new(0, 3, 5, 5)), Ok(Shape4::new(0, 4, 5, 5)));
}

#[test]
fn groups_must_divide_both_channel_counts() {
    assert_eq!(
        ConvBlock::new(6, 4, [3, 3], [1, 1], [0, 0], 3).unwrap_err(),
        ConfigError::ChannelsNotDivisible { in_channels: 6, out_channels: 4, groups: 3 }
    );
    assert_eq!(
        ConvBlock::new(4, 6, [3, 3], [1, 1], [0, 0], 3).unwrap_err(),
        ConfigError::ChannelsNotDivisible { in_channels: 4, out_channels: 6, groups: 3 }
    );
    assert_eq!(
        LinearBlock::new(5, 5, [1, 1], [1, 1], [0, 0], 2).unwrap_err(),
        ConfigError::ChannelsNotDivisible { in_channels: 5, out_channels: 5, groups: 2 }
    );
    assert!(ConvBlock::new(6, 9, [3, 3], [1, 1], [0, 0], 3).is_ok());
    assert!(LinearBlock::new(64, 64, [3, 3], [1, 1], [1, 1], 64).is_ok());
}

#[test]
fn zero_groups_are_rejected() {
    assert_eq!(
        ConvBlock::new(6, 4, [3, 3], [1, 1], [0, 0], 0).unwrap_err(),
        ConfigError::ChannelsNotDivisible { in_channels: 6, out_channels: 4, groups: 0 }
    );
    assert_eq!(
        LinearBlock::new(0, 0, [3, 3], [1, 1], [0, 0], 0).unwrap_err(),
        ConfigError::ChannelsNotDivisible { in_channels: 0, out_channels: 0, groups: 0 }
    );
}

#[test]
fn zero_stride_is_rejected() {
    assert_eq!(
        ConvBlock::new(3, 3, [3, 3], [0, 1], [0, 0], 1).unwrap_err(),
        ConfigError::ZeroStride
    );
    assert_eq!(
        LinearBlock::new(3, 3, [3, 3], [1, 0], [0, 0], 1).unwrap_err(),
        ConfigError::ZeroStride
    );
}

#[test]
fn zero_kernel_is_rejected() {
    assert_eq!(
        ConvBlock::new(3, 3, [0, 3], [1, 1], [0, 0], 1).unwrap_err(),
        ConfigError::ZeroKernel
    );
    assert_eq!(
        ConvBlock::new(3, 3, [3, 0], [1, 1], [1, 1], 3).unwrap_err(),
        ConfigError::ZeroKernel
    );
    assert_eq!(
        LinearBlock::new(3, 3, [0, 0], [1, 1], [0, 0], 1).unwrap_err(),
        ConfigError::ZeroKernel
    );
    assert!(ConvBlock::new(3, 3, [1, 1], [1, 1], [0, 0], 1).is_ok());
}

#[test]
fn zero_kernel_is_reported_after_channels_and_before_stride() {
    assert_eq!(
        ConvBlock::new(3, 3, [0, 0], [0, 0], [0, 0], 2).unwrap_err(),
        ConfigError::ChannelsNotDivisible { in_channels: 3, out_channels: 3, groups: 2 }
    );
    assert_eq!(
        ConvBlock::new(3, 3, [0, 0], [0, 0], [0, 0], 3).unwrap_err(),
        ConfigError::ZeroKernel
    );
    assert_eq!(
        ConvBlock::new(3, 3, [1, 1], [0, 0], [0, 0], 3).unwrap_err(),
        ConfigError::ZeroStride
    );
}

#[test]
fn result_is_never_longer_than_the_padded_input() {
    for kernel in 1..=4usize {
        for stride in 1..=3usize {
            for padding in 0..=2usize {
                let conv =
                    ConvBlock::new(1, 1, [kernel, kernel], [stride, stride], [padding, padding], 1)
                        .unwrap();
                for size in 0..=12usize {
                    if let Ok(out) = conv.forward(Shape4::new(1, 1, size, size)) {
                        assert!(1 <= out.height && out.height <= size + 2 * padding);
                        assert!(1 <= out.width && out.width <= size + 2 * padding);
                    }
                }
            }
        }
    }
}

#[test]
fn indivisible_channels_are_reported_before_zero_stride() {
    assert_eq!(
        ConvBlock::new(3, 3, [3, 3], [0, 0], [0, 0], 2).unwrap_err(),
        ConfigError::ChannelsNotDivisible { in_channels: 3, out_channels: 3, groups: 2 }
    );
}

#[test]
fn validate_agrees_with_the_constructors() {
    let good = BlockConfig {
        in_channels: 8,
        out_channels: 4,
        kernel: Dims2 { h: 3, w: 3 },
        stride: Dims2 { h: 2, w: 1 },
        padding: Dims2 { h: 0, w: 1 },
        groups: 4,
    };
    assert_eq!(good.validate(), Ok(()));
    let conv = ConvBlock::new(8, 4, [3, 3], [2, 1], [0, 1], 4).unwrap();
    assert_eq!(conv.config(), good);
    let bad = BlockConfig { groups: 3, ..good };
    assert_eq!(
        bad.validate(),
        Err(ConfigError::ChannelsNotDivisible { in_channels: 8, out_channels: 4, groups: 3 })
    );
    let still = BlockConfig { stride: Dims2 { h: 0, w: 1 }, ..good };
    assert_eq!(still.validate(), Err(ConfigError::ZeroStride));
    let flat = BlockConfig { kernel: Dims2 { h: 3, w: 0 }, ..good };
    assert_eq!(flat.validate(), Err(ConfigError::ZeroKernel));
}

#[test]
fn wrong_channel_count_is_rejected_by_a_block() {
    let conv = ConvBlock::new(3, 36, [3, 3], [1, 1], [0, 0], 1).unwrap();
    assert_eq!(
        conv.forward(Shape4::new(2, 4, 112, 112)),
        Err(ShapeError::ChannelMismatch { expected: 3, found: 4 })
    );
    let linear = LinearBlock::new(3, 36, [3, 3], [1, 1], [0, 0], 1).unwrap();
    assert_eq!(
        linear.forward(Shape4::new(2, 1, 112, 112)),
        Err(ShapeError::ChannelMismatch { expected: 3, found: 1 })
    );
}

#[test]
fn channel_mismatch_is_reported_before_a_small_input() {
    let conv = ConvBlock::new(3, 36, [3, 3], [1, 1], [0, 0], 1).unwrap();
    assert_eq!(
        conv.forward(Shape4::new(2, 4, 1, 1)),
        Err(ShapeError::ChannelMismatch { expected: 3, found: 4 })
    );
}

#[test]
fn input_smaller_than_kernel_is_rejected() {
    let conv = ConvBlock::new(3, 36, [3, 3], [1, 1], [0, 0], 1).unwrap();
    assert_eq!(conv.forward(Shape4::new(2, 3, 2, 112)), Err(ShapeError::KernelExceedsInput));
    assert_eq!(conv.forward(Shape4::new(2, 3, 112, 2)), Err(ShapeError::KernelExceedsInput));
    assert_eq!(conv.forward(Shape4::new(2, 3, 3, 3)), Ok(Shape4::new(2, 36, 1, 1)));
    let padded = ConvBlock::new(3, 36, [3, 3], [1, 1], [1, 1], 1).unwrap();
    assert_eq!(padded.forward(Shape4::new(2, 3, 1, 1)), Ok(Shape4::new(2, 36, 1, 1)));
    assert_eq!(padded.forward(Shape4::new(2, 3, 0, 1)), Err(ShapeError::KernelExceedsInput));
}

#[test]
fn result_that_does_not_fit_is_an_overflow() {
    let conv = ConvBlock::new(1, 1, [1, 1], [1, 1], [usize::MAX, 0], 1).unwrap();
    assert_eq!(conv.forward(Shape4::new(1, 1, 1, 1)), Err(ShapeError::Overflow));
    let wide = LinearBlock::new(1, 1, [1, 1], [1, 1], [0, 1], 1).unwrap();
    assert_eq!(wide.forward(Shape4::new(1, 1, 1, usize::MAX)), Err(ShapeError::Overflow));
    // With a stride of two, the same padding fits.
    let strided = ConvBlock::new(1, 1, [1, 1], [4, 4], [usize::MAX, 0], 1).unwrap();
    let out = strided.forward(Shape4::new(1, 1, 1, 1)).unwrap();
    assert_eq!(out.height, usize::MAX / 2 + 1);
    assert_eq!(out.width, 1);
}

#[test]
fn small_input_is_reported_before_an_overflow() {
    let conv = ConvBlock::new(1, 1, [3, 1], [1, 1], [0, usize::MAX], 1).unwrap();
    assert_eq!(conv.forward(Shape4::new(1, 1, 2, 1)), Err(ShapeError::KernelExceedsInput));
}

#[test]
fn dims_and_shapes_convert_both_ways() {
    assert_eq!(Shape4::from_dims([2, 3, 112, 112]), Shape4::new(2, 3, 112, 112));
    assert_eq!(Shape4::new(2, 3, 5, 7).dims(), [2, 3, 5, 7]);
    assert_eq!(Dims2::from_array([3, 4]), Dims2 { h: 3, w: 4 });
    assert_eq!(Dims2 { h: 3, w: 4 }.to_array(), [3, 4]);
}
