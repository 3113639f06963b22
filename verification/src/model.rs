//! The digit classifier: three convolution blocks without padding, and two
//! fully connected layers behind them.

use vstd::prelude::*;
use crate::conv::BlockConfig;
use crate::error::{ConfigError, ShapeError};
use crate::head::{flattened, Flatten};
use crate::linear::Linear;
use crate::shape::{Dims2, Shape2, Shape3, Shape4};

verus! {

/// Number of digits the classifier tells apart.
pub const NUM_CLASSES: usize = 10;

/// Height and width of the images the classifier is laid out for.
pub const IMAGE_SIDE: usize = 28;

/// Width of the first fully connected layer: 24 channels of 22 by 22.
pub const HIDDEN_SIZE: usize = 11616;

/// A convolution block of the classifier: stride one, no padding, one
/// group.
pub open spec fn plain_block(channels: [usize; 2], kernel_size: [usize; 2]) -> BlockConfig {
    BlockConfig {
        in_channels: channels[0],
        out_channels: channels[1],
        kernel: Dims2::of(kernel_size[0], kernel_size[1]),
        stride: Dims2::of(1, 1),
        padding: Dims2::of(0, 0),
        groups: 1,
    }
}

/// A convolution block of the classifier: convolution without padding,
/// normalization, activation.
#[derive(Debug)]
pub struct ConvBlock {
    block: crate::conv::ConvBlock,
}

impl View for ConvBlock {
    type V = BlockConfig;

    closed spec fn view(&self) -> BlockConfig {
        self.block@
    }
}

impl Clone for ConvBlock {
    fn clone(&self) -> (block: ConvBlock)
        ensures
            block@ == self@,
    {
        ConvBlock { block: self.block.clone() }
    }
}

impl ConvBlock {
    /// Builds the block from its input and output channel counts and its
    /// kernel, see [`plain_block`]. Only a kernel without height or without
    /// width is objected to.
    pub fn new(channels: [usize; 2], kernel_size: [usize; 2]) -> (r: Result<ConvBlock, ConfigError>)
        ensures
            r is Err <==> kernel_size[0] == 0 || kernel_size[1] == 0,
            match r {
                Ok(block) => block@ == plain_block(channels, kernel_size) && block@.valid(),
                Err(e) => e == ConfigError::ZeroKernel,
            },
    {
        match crate::conv::ConvBlock::new(
            channels[0],
            channels[1],
            kernel_size,
            [1, 1],
            [0, 0],
            1,
        ) {
            Ok(block) => Ok(ConvBlock { block }),
            Err(e) => Err(e),
        }
    }

    /// Builds a block of the classifier with a kernel of 3 by 3.
    fn with_channels(in_channels: usize, out_channels: usize) -> (block: ConvBlock)
        ensures
            block@ == (BlockConfig {
                in_channels,
                out_channels,
                kernel: Dims2::of(3, 3),
                stride: Dims2::of(1, 1),
                padding: Dims2::of(0, 0),
                groups: 1,
            }),
    {
        let block = crate::conv::ConvBlock::with_config(
            BlockConfig {
                in_channels,
                out_channels,
                kernel: Dims2 { h: 3, w: 3 },
                stride: Dims2 { h: 1, w: 1 },
                padding: Dims2 { h: 0, w: 0 },
                groups: 1,
            },
        );
        ConvBlock { block }
    }

    /// The parameters of the block.
    pub fn config(&self) -> (c: BlockConfig)
        ensures
            c == self@,
            c.valid(),
    {
        self.block.config()
    }

    /// The shape of the block's result for a tensor of shape `input`.
    pub fn forward(&self, input: Shape4) -> (r: Result<Shape4, ShapeError>)
        ensures
            self@.valid(),
            r == self@.output_shape(input),
    {
        self.block.forward(input)
    }
}

/// The parameters of every layer of a classifier, in the order in which a
/// tensor passes through them.
#[derive(Clone, Copy, Debug, PartialEq, Eq, Structural)]
pub struct ClassifierModel {
    pub conv1: BlockConfig,
    pub conv2: BlockConfig,
    pub conv3: BlockConfig,
    pub fc1: Linear,
    pub fc2: Linear,
}

impl ClassifierModel {
    /// The shape of the class scores for an image batch of shape `input`:
    /// the images get a channel axis of one, pass the three blocks, are
    /// flattened and pass the two fully connected layers.
    pub open spec fn output(self, input: Shape3) -> Result<Shape2, ShapeError> {
        let image = Shape4 {
            batch: input.batch,
            channels: 1,
            height: input.height,
            width: input.width,
        };
        match self.conv1.output_shape(image) {
            Err(e) => Err(e),
            Ok(a) => match self.conv2.output_shape(a) {
                Err(e) => Err(e),
                Ok(b) => match self.conv3.output_shape(b) {
                    Err(e) => Err(e),
                    Ok(c) => match flattened(c) {
                        Err(e) => Err(e),
                        Ok(flat) => match self.fc1.output_shape(flat) {
                            Err(e) => Err(e),
                            Ok(hidden) => self.fc2.output_shape(hidden),
                        },
                    },
                },
            },
        }
    }
}

/// The classifier: 1, 8, 16 and 24 channels through 3x3 kernels, then 32
/// hidden features and one score per class.
pub open spec fn digit_classifier() -> ClassifierModel {
    ClassifierModel {
        conv1: BlockConfig {
            in_channels: 1,
            out_channels: 8,
            kernel: Dims2::of(3, 3),
            stride: Dims2::of(1, 1),
            padding: Dims2::of(0, 0),
            groups: 1,
        },
        conv2: BlockConfig {
            in_channels: 8,
            out_channels: 16,
            kernel: Dims2::of(3, 3),
            stride: Dims2::of(1, 1),
            padding: Dims2::of(0, 0),
            groups: 1,
        },
        conv3: BlockConfig {
            in_channels: 16,
            out_channels: 24,
            kernel: Dims2::of(3, 3),
            stride: Dims2::of(1, 1),
            padding: Dims2::of(0, 0),
            groups: 1,
        },
        fc1: Linear { d_input: HIDDEN_SIZE, d_output: 32 },
        fc2: Linear { d_input: 32, d_output: NUM_CLASSES },
    }
}

/// What [`ClassifierModel::output`] comes to for [`digit_classifier`]: each
/// block takes two pixels off each axis, so the images must be at least 7
/// by 7, and what is left of them must fill the first fully connected
/// layer exactly: 22 by 22 pixels, or another rectangle of that area.
pub open spec fn classifier_output(input: Shape3) -> Result<Shape2, ShapeError> {
    if input.height < 7 || input.width < 7 {
        Err(ShapeError::KernelExceedsInput)
    } else if 24 * (input.height - 6) * (input.width - 6) > usize::MAX {
        Err(ShapeError::Overflow)
    } else if 24 * (input.height - 6) * (input.width - 6) != HIDDEN_SIZE {
        Err(
            ShapeError::FeatureMismatch {
                expected: HIDDEN_SIZE,
                found: (24 * (input.height - 6) * (input.width - 6)) as usize,
            },
        )
    } else {
        Ok(Shape2 { batch: input.batch, features: NUM_CLASSES })
    }
}

/// The classifier's result, said at once.
pub proof fn classifier_output_formula(input: Shape3)
    ensures
        digit_classifier().output(input) == classifier_output(input),
{
    let net = digit_classifier();
    let image = Shape4 {
        batch: input.batch,
        channels: 1,
        height: input.height,
        width: input.width,
    };
    if input.height >= 7 && input.width >= 7 {
        let a = Shape4 {
            batch: input.batch,
            channels: 8,
            height: (input.height - 2) as usize,
            width: (input.width - 2) as usize,
        };
        let b = Shape4 {
            batch: input.batch,
            channels: 16,
            height: (input.height - 4) as usize,
            width: (input.width - 4) as usize,
        };
        let c = Shape4 {
            batch: input.batch,
            channels: 24,
            height: (input.height - 6) as usize,
            width: (input.width - 6) as usize,
        };
        assert(net.conv1.output_shape(image) == Ok::<Shape4, ShapeError>(a));
        assert(net.conv2.output_shape(a) == Ok::<Shape4, ShapeError>(b));
        assert(net.conv3.output_shape(b) == Ok::<Shape4, ShapeError>(c));
    } else {
        if input.height >= 3 && input.width >= 3 {
            let a = Shape4 {
                batch: input.batch,
                channels: 8,
                height: (input.height - 2) as usize,
                width: (input.width - 2) as usize,
            };
            assert(net.conv1.output_shape(image) == Ok::<Shape4, ShapeError>(a));
            if input.height >= 5 && input.width >= 5 {
                let b = Shape4 {
                    batch: input.batch,
                    channels: 16,
                    height: (input.height - 4) as usize,
                    width: (input.width - 4) as usize,
                };
                assert(net.conv2.output_shape(a) == Ok::<Shape4, ShapeError>(b));
            }
        }
    }
}

/// The digit classifier.
#[derive(Debug)]
pub struct Model {
    conv1: ConvBlock,
    conv2: ConvBlock,
    conv3: ConvBlock,
    fc1: Linear,
    fc2: Linear,
}

impl View for Model {
    type V = ClassifierModel;

    closed spec fn view(&self) -> ClassifierModel {
        ClassifierModel {
            conv1: self.conv1@,
            conv2: self.conv2@,
            conv3: self.conv3@,
            fc1: self.fc1,
            fc2: self.fc2,
        }
    }
}

impl Model {
    #[verifier::type_invariant]
    spec fn wf(&self) -> bool {
        self@ == digit_classifier()
    }

    /// Builds the classifier.
    pub fn new() -> (model: Model)
        ensures
            model@ == digit_classifier(),
    {
        let conv1 = ConvBlock::with_channels(1, 8);
        let conv2 = ConvBlock::with_channels(8, 16);
        let conv3 = ConvBlock::with_channels(16, 24);
        let hidden_size: usize = 24 * 22 * 22;
        let fc1 = Linear::new(hidden_size, 32);
        let fc2 = Linear::new(32, NUM_CLASSES);
        Model { conv1, conv2, conv3, fc1, fc2 }
    }

    /// The first convolution block.
    pub fn conv1(&self) -> (block: &ConvBlock)
        ensures
            block@ == self@.conv1,
    {
        &self.conv1
    }

    /// The second convolution block.
    pub fn conv2(&self) -> (block: &ConvBlock)
        ensures
            block@ == self@.conv2,
    {
        &self.conv2
    }

    /// The third convolution block.
    pub fn conv3(&self) -> (block: &ConvBlock)
        ensures
            block@ == self@.conv3,
    {
        &self.conv3
    }

    /// The first fully connected layer.
    pub fn fc1(&self) -> (layer: Linear)
        ensures
            layer == self@.fc1,
    {
        self.fc1
    }

    /// The second fully connected layer.
    pub fn fc2(&self) -> (layer: Linear)
        ensures
            layer == self@.fc2,
    {
        self.fc2
    }

    /// The shape of the class scores for an image batch of shape `input`:
    /// one score per class and image, for images that fill the first fully
    /// connected layer.
    pub fn forward(&self, input: Shape3) -> (r: Result<Shape2, ShapeError>)
        ensures
            self@ == digit_classifier(),
            r == self@.output(input),
            r == classifier_output(input),
            input.height == IMAGE_SIDE && input.width == IMAGE_SIDE ==> r == Ok::<
                Shape2,
                ShapeError,
            >(Shape2 { batch: input.batch, features: NUM_CLASSES }),
    {
        proof {
            use_type_invariant(self);
            classifier_output_formula(input);
            if input.height == IMAGE_SIDE && input.width == IMAGE_SIDE {
                assert(24 * (input.height - 6) * (input.width - 6) == HIDDEN_SIZE) by (
                    nonlinear_arith)
                    requires
                        input.height == 28,
                        input.width == 28,
                ;
            }
        }
        let x = Shape4 {
            batch: input.batch,
            channels: 1,
            height: input.height,
            width: input.width,
        };
        let x = self.conv1.forward(x)?;
        let x = self.conv2.forward(x)?;
        let x = self.conv3.forward(x)?;
        let x = Flatten::new().forward(x)?;
        let x = self.fc1.forward(x)?;
        self.fc2.forward(x)
    }
}

impl Clone for Model {
    fn clone(&self) -> (model: Model)
        ensures
            model@ == self@,
    {
        proof {
            use_type_invariant(self);
        }
        Model {
            conv1: self.conv1.clone(),
            conv2: self.conv2.clone(),
            conv3: self.conv3.clone(),
            fc1: self.fc1,
            fc2: self.fc2,
        }
    }
}

} // verus!
