//! The face-embedding network: a fixed chain of blocks in front of one of
//! the two heads.

use vstd::prelude::*;
use vstd::string::StringExecFns;
use crate::conv::{BlockConfig, ConvBlock};
use crate::depthwise::{repeated, stack_output, DepthWise, DepthWiseConfig, Residual};
use crate::error::{ConfigError, ShapeError};
use crate::head::{HeadVariant, OutputLayer, FEATURE_CHANNELS, FEATURE_SIDE, GDC, GNAP};
use crate::laws::network_output_formula;
use crate::shape::{Dims2, Shape2, Shape4};

verus! {

/// Channel count of the images the network takes.
pub const INPUT_CHANNELS: usize = 3;

/// Height and width of the images the network is laid out for.
pub const INPUT_SIDE: usize = 112;

/// The parameters of every stage of a network, in the order in which a
/// tensor passes through them.
pub struct NetworkModel {
    pub conv1: BlockConfig,
    pub conv2_dw: BlockConfig,
    pub conv_23: DepthWiseConfig,
    pub conv_3: Seq<DepthWiseConfig>,
    pub conv_34: DepthWiseConfig,
    pub conv_4: Seq<DepthWiseConfig>,
    pub conv_45: DepthWiseConfig,
    pub conv_5: Seq<DepthWiseConfig>,
    pub conv_6_sep: BlockConfig,
    pub output_layer: HeadVariant,
}

/// A block applied to what came before, if anything did.
pub open spec fn through_block(before: Result<Shape4, ShapeError>, block: BlockConfig) -> Result<
    Shape4,
    ShapeError,
> {
    match before {
        Err(e) => Err(e),
        Ok(shape) => block.output_shape(shape),
    }
}

/// A depthwise-separable unit applied to what came before, if anything did.
pub open spec fn through_unit(before: Result<Shape4, ShapeError>, unit: DepthWiseConfig) -> Result<
    Shape4,
    ShapeError,
> {
    match before {
        Err(e) => Err(e),
        Ok(shape) => unit.output_shape(shape),
    }
}

/// A stack of units applied to what came before, if anything did.
pub open spec fn through_stack(
    before: Result<Shape4, ShapeError>,
    units: Seq<DepthWiseConfig>,
) -> Result<Shape4, ShapeError> {
    match before {
        Err(e) => Err(e),
        Ok(shape) => stack_output(units, shape),
    }
}

impl NetworkModel {
    /// The shape of the feature map that the stages in front of the head
    /// compute from an image batch of shape `input`.
    #[verifier::opaque]
    pub open spec fn features(self, input: Shape4) -> Result<Shape4, ShapeError> {
        let x = self.conv1.output_shape(input);
        let x = through_block(x, self.conv2_dw);
        let x = through_unit(x, self.conv_23);
        let x = through_stack(x, self.conv_3);
        let x = through_unit(x, self.conv_34);
        let x = through_stack(x, self.conv_4);
        let x = through_unit(x, self.conv_45);
        let x = through_stack(x, self.conv_5);
        through_block(x, self.conv_6_sep)
    }

    /// The shapes of the embedding and of the feature map that the network
    /// computes from an image batch of shape `input`.
    pub open spec fn output(self, input: Shape4) -> Result<(Shape2, Shape4), ShapeError> {
        match self.features(input) {
            Err(e) => Err(e),
            Ok(features) => match self.output_layer.output(features) {
                Err(e) => Err(e),
                Ok(embedding) => Ok((embedding, features)),
            },
        }
    }
}

/// A 3x3 kernel, a stride and a padding of one pixel: the parameters that
/// every depthwise-separable unit of the network shares.
pub open spec fn unit_3x3(
    in_channels: usize,
    out_channels: usize,
    residual: bool,
    stride: usize,
    groups: usize,
) -> DepthWiseConfig {
    DepthWiseConfig {
        in_channels,
        out_channels,
        residual,
        kernel: Dims2::of(3, 3),
        stride: Dims2::of(stride, stride),
        padding: Dims2::of(1, 1),
        groups,
    }
}

/// The network with the given head. Four stages halve the spatial axes: the
/// stem and the three downsampling units. Each downsampling unit is followed
/// by a residual stack, of depth 4, 6 and 2. The channel count goes from 3
/// to 64, to 128 behind the second downsampling unit, and to 512 in the last
/// block.
pub open spec fn face_network(head: HeadVariant) -> NetworkModel {
    NetworkModel {
        conv1: BlockConfig {
            in_channels: INPUT_CHANNELS,
            out_channels: 64,
            kernel: Dims2::of(3, 3),
            stride: Dims2::of(2, 2),
            padding: Dims2::of(1, 1),
            groups: 1,
        },
        conv2_dw: BlockConfig {
            in_channels: 64,
            out_channels: 64,
            kernel: Dims2::of(3, 3),
            stride: Dims2::of(1, 1),
            padding: Dims2::of(1, 1),
            groups: 64,
        },
        conv_23: unit_3x3(64, 64, false, 2, 128),
        conv_3: repeated(unit_3x3(64, 64, true, 1, 128), 4),
        conv_34: unit_3x3(64, 128, false, 2, 256),
        conv_4: repeated(unit_3x3(128, 128, true, 1, 256), 6),
        conv_45: unit_3x3(128, 128, false, 2, 512),
        conv_5: repeated(unit_3x3(128, 128, true, 1, 256), 2),
        conv_6_sep: BlockConfig {
            in_channels: 128,
            out_channels: FEATURE_CHANNELS,
            kernel: Dims2::of(1, 1),
            stride: Dims2::of(1, 1),
            padding: Dims2::of(0, 0),
            groups: 1,
        },
        output_layer: head,
    }
}

/// The head that a variant name selects: `"GNAP"` pools the feature map's
/// own channels, whatever embedding size was asked for, and `"GDC"` projects
/// to the embedding size. No other name selects a head.
pub open spec fn head_variant(name: Seq<char>, embedding_size: usize) -> Option<HeadVariant> {
    if is_name(name, "GNAP"@) {
        Some(HeadVariant::Gnap { num_features: FEATURE_CHANNELS })
    } else if is_name(name, "GDC"@) {
        Some(HeadVariant::Gdc { embedding_size })
    } else {
        None
    }
}

/// `name` is `variant`: as long, and the same characters.
pub open spec fn is_name(name: Seq<char>, variant: Seq<char>) -> bool {
    name.len() == variant.len() && name == variant
}

/// Side of the feature map for an image side of `n` pixels: `n / 16`,
/// rounded up.
pub open spec fn feature_side(n: int) -> int {
    (n + 15) / 16
}

/// What [`NetworkModel::features`] comes to for [`face_network`]: the
/// network asks for three-channel images with at least one pixel, and its
/// feature map has 512 channels and a sixteenth of each spatial axis,
/// rounded up.
pub open spec fn feature_map(input: Shape4) -> Result<Shape4, ShapeError> {
    if input.channels != INPUT_CHANNELS {
        Err(ShapeError::ChannelMismatch { expected: INPUT_CHANNELS, found: input.channels })
    } else if input.height == 0 || input.width == 0 {
        Err(ShapeError::KernelExceedsInput)
    } else {
        Ok(
            Shape4 {
                batch: input.batch,
                channels: FEATURE_CHANNELS,
                height: feature_side(input.height as int) as usize,
                width: feature_side(input.width as int) as usize,
            },
        )
    }
}

/// What [`NetworkModel::output`] comes to for [`face_network`]: the feature
/// map of [`feature_map`], and in front of it the embedding that the head
/// makes of it, see [`HeadVariant::embedding`].
pub open spec fn network_output(head: HeadVariant, input: Shape4) -> Result<
    (Shape2, Shape4),
    ShapeError,
> {
    match feature_map(input) {
        Err(e) => Err(e),
        Ok(features) => match head.embedding(features) {
            Err(e) => Err(e),
            Ok(embedding) => Ok((embedding, features)),
        },
    }
}

/// The face-embedding network.
#[derive(Debug)]
pub struct MobileFaceNet {
    conv1: ConvBlock,
    conv2_dw: ConvBlock,
    conv_23: DepthWise,
    conv_3: Residual,
    conv_34: DepthWise,
    conv_4: Residual,
    conv_45: DepthWise,
    conv_5: Residual,
    conv_6_sep: ConvBlock,
    output_layer: OutputLayer,
}

impl View for MobileFaceNet {
    type V = NetworkModel;

    closed spec fn view(&self) -> NetworkModel {
        NetworkModel {
            conv1: self.conv1@,
            conv2_dw: self.conv2_dw@,
            conv_23: self.conv_23@,
            conv_3: self.conv_3@,
            conv_34: self.conv_34@,
            conv_4: self.conv_4@,
            conv_45: self.conv_45@,
            conv_5: self.conv_5@,
            conv_6_sep: self.conv_6_sep@,
            output_layer: self.output_layer@,
        }
    }
}

impl MobileFaceNet {
    /// The stages are those of [`face_network`], and the first head, if it
    /// is the one chosen, pools the feature map's own channels.
    #[verifier::type_invariant]
    pub open spec fn well_formed(&self) -> bool {
        &&& self@ == face_network(self@.output_layer)
        &&& self@.output_layer matches HeadVariant::Gnap { num_features } ==> num_features
            == FEATURE_CHANNELS
    }

    /// Builds the network with the head that `output_name` selects.
    ///
    /// `input_size` is only checked: its height and its width must be the
    /// side the network is laid out for. That check comes first, the height
    /// before the width; an unknown head name is reported after it.
    /// `embedding_size` is the width of the embedding of the `"GDC"` head;
    /// the `"GNAP"` head ignores it.
    pub fn new(input_size: [usize; 2], embedding_size: usize, output_name: &str) -> (r: Result<
        MobileFaceNet,
        ConfigError,
    >)
        ensures
            match r {
                Ok(net) => {
                    &&& input_size[0] == INPUT_SIDE
                    &&& input_size[1] == INPUT_SIDE
                    &&& head_variant(output_name@, embedding_size) matches Some(head)
                    &&& net@ == face_network(head)
                    &&& net.well_formed()
                },
                Err(e) => if input_size[0] != INPUT_SIDE {
                    e == (ConfigError::InputSize { expected: INPUT_SIDE, found: input_size[0] })
                } else if input_size[1] != INPUT_SIDE {
                    e == (ConfigError::InputSize { expected: INPUT_SIDE, found: input_size[1] })
                } else {
                    e == ConfigError::UnknownHead && head_variant(output_name@, embedding_size)
                        is None
                },
            },
    {
        if input_size[0] != INPUT_SIDE {
            return Err(ConfigError::InputSize { expected: INPUT_SIDE, found: input_size[0] });
        }
        if input_size[1] != INPUT_SIDE {
            return Err(ConfigError::InputSize { expected: INPUT_SIDE, found: input_size[1] });
        }
        let name = String::from_str(output_name);
        let output_layer = if name == String::from_str("GNAP") {
            OutputLayer::GNAP(GNAP::new(FEATURE_CHANNELS))
        } else if name == String::from_str("GDC") {
            OutputLayer::GDC(GDC::new(embedding_size))
        } else {
            return Err(ConfigError::UnknownHead);
        };
        let conv1 = ConvBlock::new(INPUT_CHANNELS, 64, [3, 3], [2, 2], [1, 1], 1)?;
        let conv2_dw = ConvBlock::new(64, 64, [3, 3], [1, 1], [1, 1], 64)?;
        let conv_23 = DepthWise::new(64, 64, false, [3, 3], [2, 2], [1, 1], 128)?;
        let conv_3 = Residual::new(64, 4, 128, [3, 3], [1, 1], [1, 1])?;
        let conv_34 = DepthWise::new(64, 128, false, [3, 3], [2, 2], [1, 1], 256)?;
        let conv_4 = Residual::new(128, 6, 256, [3, 3], [1, 1], [1, 1])?;
        let conv_45 = DepthWise::new(128, 128, false, [3, 3], [2, 2], [1, 1], 512)?;
        let conv_5 = Residual::new(128, 2, 256, [3, 3], [1, 1], [1, 1])?;
        let conv_6_sep = ConvBlock::new(128, FEATURE_CHANNELS, [1, 1], [1, 1], [0, 0], 1)?;
        Ok(
            MobileFaceNet {
                conv1,
                conv2_dw,
                conv_23,
                conv_3,
                conv_34,
                conv_4,
                conv_45,
                conv_5,
                conv_6_sep,
                output_layer,
            },
        )
    }

    /// The stem convolution.
    pub fn conv1(&self) -> (stage: &ConvBlock)
        ensures
            stage@ == self@.conv1,
    {
        &self.conv1
    }

    /// The depthwise convolution of the stem.
    pub fn conv2_dw(&self) -> (stage: &ConvBlock)
        ensures
            stage@ == self@.conv2_dw,
    {
        &self.conv2_dw
    }

    /// The first downsampling unit.
    pub fn conv_23(&self) -> (stage: &DepthWise)
        ensures
            stage@ == self@.conv_23,
    {
        &self.conv_23
    }

    /// The residual stack behind the first downsampling unit.
    pub fn conv_3(&self) -> (stage: &Residual)
        ensures
            stage@ == self@.conv_3,
    {
        &self.conv_3
    }

    /// The second downsampling unit.
    pub fn conv_34(&self) -> (stage: &DepthWise)
        ensures
            stage@ == self@.conv_34,
    {
        &self.conv_34
    }

    /// The residual stack behind the second downsampling unit.
    pub fn conv_4(&self) -> (stage: &Residual)
        ensures
            stage@ == self@.conv_4,
    {
        &self.conv_4
    }

    /// The third downsampling unit.
    pub fn conv_45(&self) -> (stage: &DepthWise)
        ensures
            stage@ == self@.conv_45,
    {
        &self.conv_45
    }

    /// The residual stack behind the third downsampling unit.
    pub fn conv_5(&self) -> (stage: &Residual)
        ensures
            stage@ == self@.conv_5,
    {
        &self.conv_5
    }

    /// The last block, which produces the feature map.
    pub fn conv_6_sep(&self) -> (stage: &ConvBlock)
        ensures
            stage@ == self@.conv_6_sep,
    {
        &self.conv_6_sep
    }

    /// The embedding head.
    pub fn output_layer(&self) -> (head: &OutputLayer)
        ensures
            head@ == self@.output_layer,
    {
        &self.output_layer
    }

    /// The width of the embedding: 512 with the first head, the configured
    /// size with the second.
    pub fn embedding_size(&self) -> (n: usize)
        ensures
            self.well_formed(),
            n == match self@.output_layer {
                HeadVariant::Gnap { num_features } => FEATURE_CHANNELS,
                HeadVariant::Gdc { embedding_size } => embedding_size,
            },
    {
        proof {
            use_type_invariant(self);
        }
        match &self.output_layer {
            OutputLayer::GNAP(layer) => layer.num_features(),
            OutputLayer::GDC(layer) => layer.embedding_size(),
        }
    }

    /// The shapes of the embedding and of the feature map for an image
    /// batch of shape `x`.
    ///
    /// The result is that of passing `x` through the stages in order, each
    /// stage taking what the one before it produced, and the head taking
    /// the feature map. The same result said at once is
    /// [`network_output`]; for three-channel images of 112 by 112 pixels
    /// it is a feature map of 512 channels of 7 by 7 and an embedding of
    /// [`MobileFaceNet::embedding_size`] features per image.
    pub fn forward(&self, x: Shape4) -> (r: Result<(Shape2, Shape4), ShapeError>)
        ensures
            self.well_formed(),
            r == self@.output(x),
            r == network_output(self@.output_layer, x),
            x.channels == INPUT_CHANNELS && x.height == INPUT_SIDE && x.width == INPUT_SIDE ==> r
                == Ok::<(Shape2, Shape4), ShapeError>(
                (
                    Shape2 {
                        batch: x.batch,
                        features: match self@.output_layer {
                            HeadVariant::Gnap { num_features } => FEATURE_CHANNELS,
                            HeadVariant::Gdc { embedding_size } => embedding_size,
                        },
                    },
                    Shape4 {
                        batch: x.batch,
                        channels: FEATURE_CHANNELS,
                        height: FEATURE_SIDE,
                        width: FEATURE_SIDE,
                    },
                ),
            ),
    {
        proof {
            use_type_invariant(self);
            reveal(NetworkModel::features);
            network_output_formula(self@.output_layer, x);
        }
        let out = self.conv1.forward(x)?;
        let out = self.conv2_dw.forward(out)?;
        let out = self.conv_23.forward(out)?;
        let out = self.conv_3.forward(out)?;
        let out = self.conv_34.forward(out)?;
        let out = self.conv_4.forward(out)?;
        let out = self.conv_45.forward(out)?;
        let out = self.conv_5.forward(out)?;
        let conv_features = self.conv_6_sep.forward(out)?;
        let out = self.output_layer.forward(conv_features)?;
        Ok((out, conv_features))
    }
}

impl Clone for MobileFaceNet {
    fn clone(&self) -> (net: MobileFaceNet)
        ensures
            net@ == self@,
    {
        proof {
            use_type_invariant(self);
        }
        MobileFaceNet {
            conv1: self.conv1.clone(),
            conv2_dw: self.conv2_dw.clone(),
            conv_23: self.conv_23.clone(),
            conv_3: self.conv_3.clone(),
            conv_34: self.conv_34.clone(),
            conv_4: self.conv_4.clone(),
            conv_45: self.conv_45.clone(),
            conv_5: self.conv_5.clone(),
            conv_6_sep: self.conv_6_sep.clone(),
            output_layer: self.output_layer.clone(),
        }
    }
}

} // verus!
