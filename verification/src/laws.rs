//! What holds of the blocks and of the network for every input.

use vstd::prelude::*;
use vstd::arithmetic::div_mod::lemma_div_basics;
use vstd::arithmetic::div_mod::lemma_div_is_ordered_by_denominator;
use vstd::arithmetic::div_mod::lemma_fundamental_div_mod;
use vstd::arithmetic::div_mod::lemma_div_of0;
use vstd::arithmetic::div_mod::lemma_div_pos_is_pos;
use vstd::arithmetic::div_mod::lemma_mod_self_0;
use crate::conv::{conv_axis, conv_out_dim, BlockConfig};
use crate::depthwise::{is_residual_stack, repeated, stack_output, DepthWiseConfig};
use crate::error::ShapeError;
use crate::head::{gdc_embedding, HeadVariant, FEATURE_CHANNELS, FEATURE_SIDE};
use crate::network::{
    face_network, feature_map, feature_side, head_variant, network_output, through_block,
    through_stack, through_unit, unit_3x3, NetworkModel, INPUT_CHANNELS, INPUT_SIDE,
};
use crate::params::{network_params, stack_params};
use crate::shape::{Dims2, Shape2, Shape4};

verus! {

/// A convolution accepts an axis exactly when the padded axis is at least as
/// long as the kernel and the result fits. The result is then the value of
/// the formula, at least 1 and at most the length of the padded axis.
pub proof fn conv_axis_formula(size: usize, kernel: usize, stride: usize, padding: usize)
    requires
        stride > 0,
    ensures
        conv_axis(size, kernel, stride, padding) is Ok <==> size + 2 * padding >= kernel
            && (size + 2 * padding - kernel) / (stride as int) + 1 <= usize::MAX,
        conv_axis(size, kernel, stride, padding) matches Ok(out) ==> {
            &&& out == (size + 2 * padding - kernel) / (stride as int) + 1
            &&& 1 <= out <= size + 2 * padding - kernel + 1
        },
{
    if size + 2 * padding >= kernel {
        let span = size + 2 * padding - kernel;
        lemma_div_pos_is_pos(span, stride as int);
        lemma_div_is_ordered_by_denominator(span, 1, stride as int);
    }
}

/// The shape behind a convolution block follows the formula on both spatial
/// axes, keeps the batch size and has the block's output channel count. No
/// axis of the result is empty, and none is longer than the padded axis it
/// comes from. The block accepts exactly the tensors that have its input
/// channel count, are not smaller than its kernel once padded, and whose
/// result fits.
pub proof fn block_output_formula(block: BlockConfig, input: Shape4)
    requires
        block.valid(),
    ensures
        block.output_shape(input) is Ok <==> {
            &&& input.channels == block.in_channels
            &&& input.height + 2 * block.padding.h >= block.kernel.h
            &&& input.width + 2 * block.padding.w >= block.kernel.w
            &&& conv_out_dim(
                input.height as int,
                block.kernel.h as int,
                block.stride.h as int,
                block.padding.h as int,
            ) <= usize::MAX
            &&& conv_out_dim(
                input.width as int,
                block.kernel.w as int,
                block.stride.w as int,
                block.padding.w as int,
            ) <= usize::MAX
        },
        block.output_shape(input) matches Ok(out) ==> {
            &&& out.batch == input.batch
            &&& out.channels == block.out_channels
            &&& out.height == (input.height + 2 * block.padding.h - block.kernel.h) / (
            block.stride.h as int) + 1
            &&& out.width == (input.width + 2 * block.padding.w - block.kernel.w) / (
            block.stride.w as int) + 1
            &&& 1 <= out.height <= input.height + 2 * block.padding.h
            &&& 1 <= out.width <= input.width + 2 * block.padding.w
        },
{
    conv_axis_formula(input.height, block.kernel.h, block.stride.h, block.padding.h);
    conv_axis_formula(input.width, block.kernel.w, block.stride.w, block.padding.w);
}

/// A kernel as large as the padded input leaves one position, whatever the
/// stride.
pub proof fn block_output_kernel_covers_input(block: BlockConfig, input: Shape4)
    requires
        block.valid(),
        input.channels == block.in_channels,
        input.height + 2 * block.padding.h == block.kernel.h,
        input.width + 2 * block.padding.w == block.kernel.w,
    ensures
        block.output_shape(input) == Ok::<Shape4, ShapeError>(
            Shape4 { batch: input.batch, channels: block.out_channels, height: 1, width: 1 },
        ),
{
    lemma_div_of0(block.stride.h as int);
    lemma_div_of0(block.stride.w as int);
}

/// No residual unit can be built with channel counts that differ or with a
/// stride other than one; and whatever a residual unit accepts, it returns
/// with the shape it came in.
pub proof fn residual_unit_keeps_shape(unit: DepthWiseConfig, input: Shape4)
    requires
        unit.residual,
    ensures
        unit.in_channels != unit.out_channels ==> !unit.valid(),
        unit.stride != Dims2::of(1, 1) ==> !unit.valid(),
        unit.output_shape(input) matches Ok(out) ==> out == input,
{
}

/// A kernel of one pixel with a stride of one keeps an axis.
proof fn pointwise_axis(size: int)
    requires
        size >= 1,
    ensures
        conv_out_dim(size, 1, 1, 0) == size,
{
}

/// A kernel of three pixels with a padding and a stride of one keeps an
/// axis.
proof fn kept_axis(size: int)
    requires
        size >= 1,
    ensures
        conv_out_dim(size, 3, 1, 1) == size,
{
}

/// A kernel of three pixels with a padding of one and a stride of two
/// halves an axis, rounding up.
proof fn halved_axis(size: int)
    requires
        size >= 1,
    ensures
        conv_out_dim(size, 3, 2, 1) == (size + 1) / 2,
{
}

/// The shape behind a depthwise-separable unit, said at once: the unit asks
/// for its input channel count and for a tensor that is not empty, the
/// depthwise convolution decides the spatial axes, and the result has the
/// unit's output channel count.
pub proof fn depthwise_output_formula(unit: DepthWiseConfig, input: Shape4)
    requires
        unit.valid(),
    ensures
        unit.output_shape(input) == if input.channels != unit.in_channels {
            Err::<Shape4, ShapeError>(
                ShapeError::ChannelMismatch { expected: unit.in_channels, found: input.channels },
            )
        } else if input.height == 0 || input.width == 0 {
            Err(ShapeError::KernelExceedsInput)
        } else {
            match unit.depthwise().output_shape(
                Shape4 {
                    batch: input.batch,
                    channels: unit.groups,
                    height: input.height,
                    width: input.width,
                },
            ) {
                Err(e) => Err(e),
                Ok(filtered) => {
                    let out = Shape4 {
                        batch: input.batch,
                        channels: unit.out_channels,
                        height: filtered.height,
                        width: filtered.width,
                    };
                    if unit.residual && out != input {
                        Err(ShapeError::ResidualMismatch { input, output: out })
                    } else {
                        Ok(out)
                    }
                },
            }
        },
{
    let expanded = Shape4 {
        batch: input.batch,
        channels: unit.groups,
        height: input.height,
        width: input.width,
    };
    if input.channels == unit.in_channels && input.height != 0 && input.width != 0 {
        pointwise_axis(input.height as int);
        pointwise_axis(input.width as int);
        assert(unit.expand().output_shape(input) == Ok::<Shape4, ShapeError>(expanded));
        block_output_formula(unit.depthwise(), expanded);
        match unit.depthwise().output_shape(expanded) {
            Err(e) => {},
            Ok(filtered) => {
                pointwise_axis(filtered.height as int);
                pointwise_axis(filtered.width as int);
                assert(unit.project().output_shape(filtered) == Ok::<Shape4, ShapeError>(
                    Shape4 {
                        batch: input.batch,
                        channels: unit.out_channels,
                        height: filtered.height,
                        width: filtered.width,
                    },
                ));
            },
        }
    }
}

/// A stack whose every unit returns `input` unchanged returns `input`
/// unchanged.
pub proof fn stack_of_fixed_units(units: Seq<DepthWiseConfig>, input: Shape4)
    requires
        forall|i: int|
            0 <= i < units.len() ==> (#[trigger] units[i]).output_shape(input) == Ok::<
                Shape4,
                ShapeError,
            >(input),
    ensures
        stack_output(units, input) == Ok::<Shape4, ShapeError>(input),
    decreases units.len(),
{
    if units.len() > 0 {
        assert(units[0].output_shape(input) == Ok::<Shape4, ShapeError>(input));
        assert forall|i: int| 0 <= i < units.skip(1).len() implies (#[trigger] units.skip(
            1,
        )[i]).output_shape(input) == Ok::<Shape4, ShapeError>(input) by {
            assert(units.skip(1)[i] == units[i + 1]);
        }
        stack_of_fixed_units(units.skip(1), input);
    }
}

/// Whatever a stack of residual units accepts, it returns with the shape it
/// came in: channels and spatial axes are kept, for any number of units.
pub proof fn residual_stack_keeps_shape(units: Seq<DepthWiseConfig>, input: Shape4)
    requires
        forall|i: int| 0 <= i < units.len() ==> (#[trigger] units[i]).residual,
    ensures
        stack_output(units, input) matches Ok(out) ==> out == input,
    decreases units.len(),
{
    if units.len() > 0 {
        assert(units[0].residual);
        assert forall|i: int| 0 <= i < units.skip(1).len() implies (#[trigger] units.skip(
            1,
        )[i]).residual by {
            assert(units.skip(1)[i] == units[i + 1]);
        }
        match units[0].output_shape(input) {
            Err(e) => {},
            Ok(next) => {
                residual_stack_keeps_shape(units.skip(1), next);
            },
        }
    }
}

/// A residual stack with at least one unit accepts what its first unit
/// accepts, and fails as its first unit fails; an empty stack accepts
/// everything.
pub proof fn residual_stack_output_formula(units: Seq<DepthWiseConfig>, input: Shape4)
    requires
        is_residual_stack(units),
    ensures
        stack_output(units, input) == if units.len() == 0 {
            Ok::<Shape4, ShapeError>(input)
        } else {
            units[0].output_shape(input)
        },
{
    if units.len() > 0 {
        assert(units[0].residual);
        match units[0].output_shape(input) {
            Err(e) => {},
            Ok(next) => {
                assert(next == input);
                assert forall|i: int| 0 <= i < units.skip(1).len() implies (#[trigger] units.skip(
                    1,
                )[i]).output_shape(input) == Ok::<Shape4, ShapeError>(input) by {
                    assert(units.skip(1)[i] == units[i + 1]);
                    assert(units[i + 1] == units[0]);
                }
                stack_of_fixed_units(units.skip(1), input);
            },
        }
    }
}

/// A unit of the network with stride one returns a tensor with its own
/// channel count, and at least one pixel, unchanged.
proof fn unit_with_stride_one(channels: usize, groups: usize, input: Shape4)
    requires
        groups > 0,
    ensures
        unit_3x3(channels, channels, true, 1, groups).valid(),
        unit_3x3(channels, channels, true, 1, groups).output_shape(input) == if input.channels
            != channels {
            Err::<Shape4, ShapeError>(
                ShapeError::ChannelMismatch { expected: channels, found: input.channels },
            )
        } else if input.height == 0 || input.width == 0 {
            Err(ShapeError::KernelExceedsInput)
        } else {
            Ok(input)
        },
{
    lemma_mod_self_0(groups as int);
    depthwise_output_formula(unit_3x3(channels, channels, true, 1, groups), input);
    if input.height >= 1 && input.width >= 1 {
        kept_axis(input.height as int);
        kept_axis(input.width as int);
    }
}

/// A unit of the network with stride two halves both spatial axes,
/// rounding up.
proof fn unit_with_stride_two(in_channels: usize, out_channels: usize, groups: usize, input: Shape4)
    requires
        groups > 0,
    ensures
        unit_3x3(in_channels, out_channels, false, 2, groups).valid(),
        unit_3x3(in_channels, out_channels, false, 2, groups).output_shape(input)
            == if input.channels != in_channels {
            Err::<Shape4, ShapeError>(
                ShapeError::ChannelMismatch { expected: in_channels, found: input.channels },
            )
        } else if input.height == 0 || input.width == 0 {
            Err(ShapeError::KernelExceedsInput)
        } else {
            Ok(
                Shape4 {
                    batch: input.batch,
                    channels: out_channels,
                    height: ((input.height + 1) / 2) as usize,
                    width: ((input.width + 1) / 2) as usize,
                },
            )
        },
{
    lemma_mod_self_0(groups as int);
    depthwise_output_formula(unit_3x3(in_channels, out_channels, false, 2, groups), input);
    if input.height >= 1 && input.width >= 1 {
        halved_axis(input.height as int);
        halved_axis(input.width as int);
    }
}

/// A residual stack of the network returns a tensor with its own channel
/// count, and at least one pixel, unchanged.
proof fn stack_with_stride_one(channels: usize, groups: usize, depth: nat, input: Shape4)
    requires
        groups > 0,
        input.channels == channels,
        input.height > 0,
        input.width > 0,
    ensures
        stack_output(repeated(unit_3x3(channels, channels, true, 1, groups), depth), input) == Ok::<
            Shape4,
            ShapeError,
        >(input),
{
    unit_with_stride_one(channels, groups, input);
    stack_of_fixed_units(repeated(unit_3x3(channels, channels, true, 1, groups), depth), input);
}

/// Halving four times, rounding up each time, is dividing by sixteen,
/// rounding up.
proof fn halved_four_times(n: int)
    requires
        n >= 0,
    ensures
        ((((n + 1) / 2 + 1) / 2 + 1) / 2 + 1) / 2 == feature_side(n),
{
}

/// Half of `n`, rounded up.
spec fn half(n: usize) -> usize {
    ((n + 1) / 2) as usize
}

/// The two blocks at the front of the network halve the spatial axes of a
/// three-channel image and bring it to 64 channels.
proof fn stem_formula(head: HeadVariant, input: Shape4)
    ensures
        through_block(face_network(head).conv1.output_shape(input), face_network(head).conv2_dw)
            == if input.channels != INPUT_CHANNELS {
            Err::<Shape4, ShapeError>(
                ShapeError::ChannelMismatch { expected: INPUT_CHANNELS, found: input.channels },
            )
        } else if input.height == 0 || input.width == 0 {
            Err(ShapeError::KernelExceedsInput)
        } else {
            Ok(
                Shape4 {
                    batch: input.batch,
                    channels: 64,
                    height: half(input.height),
                    width: half(input.width),
                },
            )
        },
{
    let net = face_network(head);
    if input.channels == INPUT_CHANNELS && input.height != 0 && input.width != 0 {
        let s1 = Shape4 {
            batch: input.batch,
            channels: 64,
            height: half(input.height),
            width: half(input.width),
        };
        assert(net.conv1.output_shape(input) == Ok::<Shape4, ShapeError>(s1));
        assert(net.conv2_dw.output_shape(s1) == Ok::<Shape4, ShapeError>(s1));
    }
}

/// A downsampling unit and the residual stack behind it halve the spatial
/// axes of a tensor that is not empty, and bring it to the unit's output
/// channel count.
proof fn stage_formula(
    in_channels: usize,
    out_channels: usize,
    groups: usize,
    stack_groups: usize,
    depth: nat,
    input: Shape4,
)
    requires
        groups > 0,
        stack_groups > 0,
        input.channels == in_channels,
        input.height > 0,
        input.width > 0,
    ensures
        through_stack(
            through_unit(
                Ok::<Shape4, ShapeError>(input),
                unit_3x3(in_channels, out_channels, false, 2, groups),
            ),
            repeated(unit_3x3(out_channels, out_channels, true, 1, stack_groups), depth),
        ) == Ok::<Shape4, ShapeError>(
            Shape4 {
                batch: input.batch,
                channels: out_channels,
                height: half(input.height),
                width: half(input.width),
            },
        ),
{
    unit_with_stride_two(in_channels, out_channels, groups, input);
    stack_with_stride_one(
        out_channels,
        stack_groups,
        depth,
        Shape4 {
            batch: input.batch,
            channels: out_channels,
            height: half(input.height),
            width: half(input.width),
        },
    );
}

/// The feature map of the network, said at once. The network asks for
/// three-channel images with at least one pixel. Its feature map has 512
/// channels, and each spatial axis is a sixteenth of the image's, rounded
/// up: four stages halve the axes, and every other stage keeps them.
pub proof fn network_features_formula(head: HeadVariant, input: Shape4)
    ensures
        face_network(head).features(input) == feature_map(input),
{
    reveal(NetworkModel::features);
    let net = face_network(head);
    stem_formula(head, input);
    if input.channels == INPUT_CHANNELS && input.height != 0 && input.width != 0 {
        let n = input.batch;
        let s1 = Shape4 {
            batch: n,
            channels: 64,
            height: half(input.height),
            width: half(input.width),
        };
        let s2 = Shape4 { batch: n, channels: 64, height: half(s1.height), width: half(s1.width) };
        let s3 = Shape4 { batch: n, channels: 128, height: half(s2.height), width: half(s2.width) };
        let s4 = Shape4 { batch: n, channels: 128, height: half(s3.height), width: half(s3.width) };
        let s5 = Shape4 {
            batch: n,
            channels: FEATURE_CHANNELS,
            height: s4.height,
            width: s4.width,
        };
        stage_formula(64, 64, 128, 128, 4, s1);
        stage_formula(64, 128, 256, 256, 6, s2);
        stage_formula(128, 128, 512, 256, 2, s3);
        assert(net.conv_6_sep.output_shape(s4) == Ok::<Shape4, ShapeError>(s5));
        halved_four_times(input.height as int);
        halved_four_times(input.width as int);
    }
}

/// The second head accepts exactly the feature maps it was laid out for,
/// 512 channels of 7 by 7, and returns one embedding of the configured size
/// per sample. A smaller map is smaller than the kernel; a larger one
/// leaves more than the projection takes.
pub proof fn gdc_output_formula(embedding_size: usize, input: Shape4)
    ensures
        (HeadVariant::Gdc { embedding_size }).output(input) == gdc_embedding(embedding_size, input),
{
    if input.channels == FEATURE_CHANNELS && input.height >= FEATURE_SIDE && input.width
        >= FEATURE_SIDE {
        let h = (input.height - FEATURE_SIDE + 1) as usize;
        let w = (input.width - FEATURE_SIDE + 1) as usize;
        let pooled = Shape4 { batch: input.batch, channels: FEATURE_CHANNELS, height: h, width: w };
        assert(HeadVariant::gdc_conv().output_shape(input) == Ok::<Shape4, ShapeError>(pooled));
        assert(512 * h * w == 512 <==> h == 1 && w == 1) by (nonlinear_arith)
            requires
                h >= 1,
                w >= 1,
        ;
    }
}

/// Both heads return what [`HeadVariant::embedding`] says.
pub proof fn head_output_formula(head: HeadVariant, input: Shape4)
    ensures
        head.output(input) == head.embedding(input),
{
    if let HeadVariant::Gdc { embedding_size } = head {
        gdc_output_formula(embedding_size, input);
    }
}

/// The result of the network, said at once: the feature map of
/// [`network_features_formula`], and the embedding that the head makes of
/// it. The first head returns 512 features per sample whatever embedding
/// size was asked for; the second returns the configured size, and only for
/// a feature map of 7 by 7.
pub proof fn network_output_formula(head: HeadVariant, input: Shape4)
    ensures
        face_network(head).output(input) == network_output(head, input),
{
    network_features_formula(head, input);
    if let Ok(features) = feature_map(input) {
        head_output_formula(head, features);
    }
}

/// For a batch of `batch` images of three channels and 112 by 112 pixels,
/// the network returns a feature map of 512 channels of 7 by 7, and one
/// embedding per image: of 512 features with the first head, of the
/// configured size with the second.
pub proof fn network_output_for_nominal_input(head: HeadVariant, batch: usize)
    requires
        head matches HeadVariant::Gnap { num_features } ==> num_features == FEATURE_CHANNELS,
    ensures
        face_network(head).output(
            Shape4 {
                batch,
                channels: INPUT_CHANNELS,
                height: INPUT_SIDE,
                width: INPUT_SIDE,
            },
        ) == Ok::<(Shape2, Shape4), ShapeError>(
            (
                Shape2 {
                    batch,
                    features: match head {
                        HeadVariant::Gnap { num_features } => FEATURE_CHANNELS,
                        HeadVariant::Gdc { embedding_size } => embedding_size,
                    },
                },
                Shape4 {
                    batch,
                    channels: FEATURE_CHANNELS,
                    height: FEATURE_SIDE,
                    width: FEATURE_SIDE,
                },
            ),
        ),
{
    network_output_formula(
        head,
        Shape4 { batch, channels: INPUT_CHANNELS, height: INPUT_SIDE, width: INPUT_SIDE },
    );
}

/// A name selects a head exactly when it is one of the two variant names,
/// and the two names select different heads.
pub proof fn only_two_names_select_a_head(name: Seq<char>, embedding_size: usize)
    ensures
        head_variant(name, embedding_size) is Some <==> name == "GNAP"@ || name == "GDC"@,
        head_variant("GNAP"@, embedding_size) == Some(
            HeadVariant::Gnap { num_features: FEATURE_CHANNELS },
        ),
        head_variant("GDC"@, embedding_size) == Some(HeadVariant::Gdc { embedding_size }),
{
    reveal_strlit("GNAP");
    reveal_strlit("GDC");
    assert("GNAP"@.len() != "GDC"@.len());
}

/// The groups of a valid block share its input channels evenly: a block of
/// one group has all of them in that group, and a block with one group per
/// channel has one in each.
pub proof fn channels_per_group(config: BlockConfig)
    requires
        config.valid(),
    ensures
        (config.in_channels / config.groups) * config.groups == config.in_channels,
        config.groups == 1 ==> config.in_channels / config.groups == config.in_channels,
        config.groups == config.in_channels ==> config.in_channels / config.groups == 1,
{
    let channels = config.in_channels as int;
    let groups = config.groups as int;
    lemma_fundamental_div_mod(channels, groups);
    lemma_div_basics(channels);
    assert(groups * (channels / groups) == (channels / groups) * groups) by (nonlinear_arith);
}

/// A stack lists eighteen tensors for each of its units: three blocks of
/// six.
pub proof fn stack_params_count(prefix: Seq<char>, units: Seq<DepthWiseConfig>)
    ensures
        stack_params(prefix, units).len() == 18 * units.len(),
    decreases units.len(),
{
    if units.len() > 0 {
        stack_params_count(prefix, units.drop_last());
    }
}

/// The network lists 288 tensors in front of its head, 8 more with the
/// first head and 11 more with the second.
pub proof fn network_params_count(head: HeadVariant)
    ensures
        network_params(face_network(head)).len() == match head {
            HeadVariant::Gnap { num_features } => 296nat,
            HeadVariant::Gdc { embedding_size } => 299nat,
        },
{
    let net = face_network(head);
    stack_params_count("conv_3."@, net.conv_3);
    stack_params_count("conv_4."@, net.conv_4);
    stack_params_count("conv_5."@, net.conv_5);
}

} // verus!
