//! The depthwise-separable unit and the residual stack made of such units.

use vstd::prelude::*;
use crate::conv::{BlockConfig, ConvBlock, LinearBlock};
use crate::error::{ConfigError, ShapeError};
use crate::laws::residual_stack_output_formula;
use crate::shape::{Dims2, Shape4};

verus! {

/// The parameters of one depthwise-separable unit.
#[derive(Clone, Copy, Debug, PartialEq, Eq, Structural)]
pub struct DepthWiseConfig {
    pub in_channels: usize,
    pub out_channels: usize,
    /// Whether the unit adds its input to its result.
    pub residual: bool,
    pub kernel: Dims2,
    pub stride: Dims2,
    pub padding: Dims2,
    /// Width of the expansion, which is also the group count of the
    /// depthwise convolution.
    pub groups: usize,
}

impl DepthWiseConfig {
    /// The configuration with the given channel counts, residual flag,
    /// `[h, w]` pairs and expansion width.
    pub open spec fn of(
        in_channels: usize,
        out_channels: usize,
        residual: bool,
        kernel: [usize; 2],
        stride: [usize; 2],
        padding: [usize; 2],
        groups: usize,
    ) -> DepthWiseConfig {
        DepthWiseConfig {
            in_channels,
            out_channels,
            residual,
            kernel: Dims2::of(kernel[0], kernel[1]),
            stride: Dims2::of(stride[0], stride[1]),
            padding: Dims2::of(padding[0], padding[1]),
            groups,
        }
    }

    /// The pointwise expansion: 1x1, stride 1, no padding, one group.
    pub open spec fn expand(self) -> BlockConfig {
        BlockConfig {
            in_channels: self.in_channels,
            out_channels: self.groups,
            kernel: Dims2::of(1, 1),
            stride: Dims2::of(1, 1),
            padding: Dims2::of(0, 0),
            groups: 1,
        }
    }

    /// The depthwise convolution: one group per expanded channel.
    pub open spec fn depthwise(self) -> BlockConfig {
        BlockConfig {
            in_channels: self.groups,
            out_channels: self.groups,
            kernel: self.kernel,
            stride: self.stride,
            padding: self.padding,
            groups: self.groups,
        }
    }

    /// The pointwise projection: 1x1, stride 1, no padding, one group.
    pub open spec fn project(self) -> BlockConfig {
        BlockConfig {
            in_channels: self.groups,
            out_channels: self.out_channels,
            kernel: Dims2::of(1, 1),
            stride: Dims2::of(1, 1),
            padding: Dims2::of(0, 0),
            groups: 1,
        }
    }

    /// The first reason, if any, why no unit can be built from `self`: what
    /// the depthwise convolution objects to, then, for a residual unit,
    /// channel counts that differ, then a stride other than one.
    pub open spec fn config_error(self) -> Option<ConfigError> {
        if self.depthwise().config_error() is Some {
            self.depthwise().config_error()
        } else if self.residual && self.in_channels != self.out_channels {
            Some(
                ConfigError::ResidualChannels {
                    in_channels: self.in_channels,
                    out_channels: self.out_channels,
                },
            )
        } else if self.residual && self.stride != Dims2::of(1, 1) {
            Some(ConfigError::ResidualStride { stride: self.stride })
        } else {
            None
        }
    }

    /// A unit can be built from `self`.
    pub open spec fn valid(self) -> bool {
        self.config_error() is None
    }

    /// The shape that a unit built from `self` produces for `input`:
    /// expansion, depthwise convolution and projection in turn, and for a
    /// residual unit the check that the result has the shape of `input`.
    pub open spec fn output_shape(self, input: Shape4) -> Result<Shape4, ShapeError> {
        match self.expand().output_shape(input) {
            Err(e) => Err(e),
            Ok(expanded) => match self.depthwise().output_shape(expanded) {
                Err(e) => Err(e),
                Ok(filtered) => match self.project().output_shape(filtered) {
                    Err(e) => Err(e),
                    Ok(projected) => if self.residual && projected != input {
                        Err(ShapeError::ResidualMismatch { input, output: projected })
                    } else {
                        Ok(projected)
                    },
                },
            },
        }
    }
}

/// Pointwise expansion, depthwise convolution, pointwise projection, and
/// optionally the addition of the unit's input to the result.
#[derive(Debug)]
pub struct DepthWise {
    conv: ConvBlock,
    conv_dw: ConvBlock,
    project: LinearBlock,
    residual: bool,
}

impl View for DepthWise {
    type V = DepthWiseConfig;

    closed spec fn view(&self) -> DepthWiseConfig {
        DepthWiseConfig {
            in_channels: self.conv@.in_channels,
            out_channels: self.project@.out_channels,
            residual: self.residual,
            kernel: self.conv_dw@.kernel,
            stride: self.conv_dw@.stride,
            padding: self.conv_dw@.padding,
            groups: self.conv_dw@.groups,
        }
    }
}

impl DepthWise {
    #[verifier::type_invariant]
    spec fn wf(&self) -> bool {
        &&& self@.valid()
        &&& self.conv@ == self@.expand()
        &&& self.conv_dw@ == self@.depthwise()
        &&& self.project@ == self@.project()
    }

    /// Builds the unit, or says why its parameters do not describe one.
    pub fn new(
        input_c: usize,
        output_c: usize,
        residual: bool,
        kernel: [usize; 2],
        stride: [usize; 2],
        padding: [usize; 2],
        groups: usize,
    ) -> (r: Result<DepthWise, ConfigError>)
        ensures
            match r {
                Ok(unit) => unit@ == DepthWiseConfig::of(
                    input_c,
                    output_c,
                    residual,
                    kernel,
                    stride,
                    padding,
                    groups,
                ) && unit@.valid(),
                Err(e) => DepthWiseConfig::of(
                    input_c,
                    output_c,
                    residual,
                    kernel,
                    stride,
                    padding,
                    groups,
                ).config_error() == Some(e),
            },
    {
        let conv = match ConvBlock::new(input_c, groups, [1, 1], [1, 1], [0, 0], 1) {
            Ok(block) => block,
            Err(e) => { return Err(e); },
        };
        let conv_dw = match ConvBlock::new(groups, groups, kernel, stride, padding, groups) {
            Ok(block) => block,
            Err(e) => { return Err(e); },
        };
        let project = match LinearBlock::new(groups, output_c, [1, 1], [1, 1], [0, 0], 1) {
            Ok(block) => block,
            Err(e) => { return Err(e); },
        };
        if residual && input_c != output_c {
            return Err(
                ConfigError::ResidualChannels { in_channels: input_c, out_channels: output_c },
            );
        }
        if residual && (stride[0] != 1 || stride[1] != 1) {
            return Err(ConfigError::ResidualStride { stride: Dims2::from_array(stride) });
        }
        Ok(DepthWise { conv, conv_dw, project, residual })
    }

    /// The parameters the unit was built from.
    pub fn config(&self) -> (c: DepthWiseConfig)
        ensures
            c == self@,
            c.valid(),
    {
        proof {
            use_type_invariant(self);
        }
        let outer = self.conv.config();
        let inner = self.conv_dw.config();
        let last = self.project.config();
        DepthWiseConfig {
            in_channels: outer.in_channels,
            out_channels: last.out_channels,
            residual: self.residual,
            kernel: inner.kernel,
            stride: inner.stride,
            padding: inner.padding,
            groups: inner.groups,
        }
    }

    /// The pointwise expansion.
    pub fn conv(&self) -> (block: &ConvBlock)
        ensures
            block@ == self@.expand(),
    {
        proof {
            use_type_invariant(self);
        }
        &self.conv
    }

    /// The depthwise convolution.
    pub fn conv_dw(&self) -> (block: &ConvBlock)
        ensures
            block@ == self@.depthwise(),
    {
        proof {
            use_type_invariant(self);
        }
        &self.conv_dw
    }

    /// The pointwise projection.
    pub fn project(&self) -> (block: &LinearBlock)
        ensures
            block@ == self@.project(),
    {
        proof {
            use_type_invariant(self);
        }
        &self.project
    }

    /// Whether the unit adds its input to its result.
    pub fn residual(&self) -> (flag: bool)
        ensures
            flag == self@.residual,
    {
        self.residual
    }

    /// The shape of the unit's result for a tensor of shape `input`. A
    /// residual unit fails rather than add two tensors of different shapes.
    pub fn forward(&self, input: Shape4) -> (r: Result<Shape4, ShapeError>)
        ensures
            self@.valid(),
            r == self@.output_shape(input),
            self@.residual ==> (r matches Ok(out) ==> out == input),
    {
        proof {
            use_type_invariant(self);
        }
        let expanded = match self.conv.forward(input) {
            Ok(shape) => shape,
            Err(e) => { return Err(e); },
        };
        let filtered = match self.conv_dw.forward(expanded) {
            Ok(shape) => shape,
            Err(e) => { return Err(e); },
        };
        let output = match self.project.forward(filtered) {
            Ok(shape) => shape,
            Err(e) => { return Err(e); },
        };
        if self.residual && output != input {
            Err(ShapeError::ResidualMismatch { input, output })
        } else {
            Ok(output)
        }
    }
}

impl Clone for DepthWise {
    fn clone(&self) -> (unit: DepthWise)
        ensures
            unit@ == self@,
    {
        proof {
            use_type_invariant(self);
        }
        DepthWise {
            conv: self.conv.clone(),
            conv_dw: self.conv_dw.clone(),
            project: self.project.clone(),
            residual: self.residual,
        }
    }
}

/// The result of passing `input` through `units` in order, each unit taking
/// what the one before it produced.
pub open spec fn stack_output(units: Seq<DepthWiseConfig>, input: Shape4) -> Result<
    Shape4,
    ShapeError,
>
    decreases units.len(),
{
    if units.len() == 0 {
        Ok(input)
    } else {
        match units[0].output_shape(input) {
            Err(e) => Err(e),
            Ok(next) => stack_output(units.skip(1), next),
        }
    }
}

/// `depth` units with the same parameters.
pub open spec fn repeated(unit: DepthWiseConfig, depth: nat) -> Seq<DepthWiseConfig> {
    Seq::new(depth, |i: int| unit)
}

/// `units` are the units of one residual stack: all built from the same
/// valid parameters, with the residual addition enabled.
pub open spec fn is_residual_stack(units: Seq<DepthWiseConfig>) -> bool {
    forall|i: int|
        0 <= i < units.len() ==> {
            &&& (#[trigger] units[i]).valid()
            &&& units[i].residual
            &&& units[i] == units[0]
        }
}

/// An ordered sequence of residual depthwise-separable units with the same
/// parameters.
#[derive(Debug)]
pub struct Residual {
    model: Vec<DepthWise>,
}

impl View for Residual {
    type V = Seq<DepthWiseConfig>;

    closed spec fn view(&self) -> Seq<DepthWiseConfig> {
        Seq::new(self.model@.len(), |i: int| self.model@[i]@)
    }
}

impl Residual {
    #[verifier::type_invariant]
    spec fn wf(&self) -> bool {
        is_residual_stack(self@)
    }

    /// Builds a stack of `num_block` residual units with `c` channels in and
    /// out. With at least one unit, the parameters must be those of a
    /// residual unit; the first objection to them is returned otherwise.
    pub fn new(
        c: usize,
        num_block: usize,
        groups: usize,
        kernel: [usize; 2],
        stride: [usize; 2],
        padding: [usize; 2],
    ) -> (r: Result<Residual, ConfigError>)
        ensures
            r is Ok <==> num_block == 0 || DepthWiseConfig::of(
                c,
                c,
                true,
                kernel,
                stride,
                padding,
                groups,
            ).valid(),
            match r {
                Ok(stack) => {
                    &&& stack@ == repeated(
                        DepthWiseConfig::of(c, c, true, kernel, stride, padding, groups),
                        num_block as nat,
                    )
                    &&& is_residual_stack(stack@)
                },
                Err(e) => num_block > 0 && DepthWiseConfig::of(
                    c,
                    c,
                    true,
                    kernel,
                    stride,
                    padding,
                    groups,
                ).config_error() == Some(e),
            },
    {
        let ghost unit = DepthWiseConfig::of(c, c, true, kernel, stride, padding, groups);
        let mut model: Vec<DepthWise> = Vec::new();
        let mut i: usize = 0;
        while i < num_block
            invariant
                i <= num_block,
                model@.len() == i,
                unit == DepthWiseConfig::of(c, c, true, kernel, stride, padding, groups),
                forall|j: int| 0 <= j < i ==> (#[trigger] model@[j])@ == unit,
                i > 0 ==> unit.valid(),
            decreases num_block - i,
        {
            match DepthWise::new(c, c, true, kernel, stride, padding, groups) {
                Ok(block) => { model.push(block); },
                Err(e) => { return Err(e); },
            }
            i = i + 1;
        }
        let stack = Residual { model };
        assert(stack@ =~= repeated(unit, num_block as nat));
        Ok(stack)
    }

    /// The number of units.
    pub fn len(&self) -> (n: usize)
        ensures
            n == self@.len(),
    {
        self.model.len()
    }

    /// The units, in the order in which a tensor passes through them.
    pub fn units(&self) -> (units: &Vec<DepthWise>)
        ensures
            units@.len() == self@.len(),
            forall|i: int| 0 <= i < units@.len() ==> (#[trigger] units@[i])@ == self@[i],
    {
        &self.model
    }

    /// The shape of the stack's result for a tensor of shape `input`: on
    /// success, the shape of `input` itself. The stack accepts what its
    /// first unit accepts, and an empty stack accepts everything.
    pub fn forward(&self, input: Shape4) -> (r: Result<Shape4, ShapeError>)
        ensures
            is_residual_stack(self@),
            r == stack_output(self@, input),
            r == if self@.len() == 0 {
                Ok::<Shape4, ShapeError>(input)
            } else {
                self@[0].output_shape(input)
            },
            r matches Ok(out) ==> out == input,
    {
        proof {
            use_type_invariant(self);
            residual_stack_output_formula(self@, input);
        }
        assert(self@.skip(0) =~= self@);
        let mut i: usize = 0;
        while i < self.model.len()
            invariant
                i <= self.model.len(),
                self@.len() == self.model@.len(),
                is_residual_stack(self@),
                forall|j: int|
                    0 <= j < self.model@.len() ==> self@[j] == (#[trigger] self.model@[j])@,
                stack_output(self@, input) == stack_output(self@.skip(i as int), input),
            decreases self.model.len() - i,
        {
            let ghost rest = self@.skip(i as int);
            assert(rest[0] == self@[i as int]);
            assert(rest.skip(1) =~= self@.skip(i + 1));
            assert(self@[i as int].residual);
            match self.model[i].forward(input) {
                Ok(_) => {},
                Err(e) => { return Err(e); },
            }
            i = i + 1;
        }
        assert(self@.skip(i as int).len() == 0);
        Ok(input)
    }
}

impl Clone for Residual {
    fn clone(&self) -> (stack: Residual)
        ensures
            stack@ == self@,
    {
        proof {
            use_type_invariant(self);
        }
        let mut model: Vec<DepthWise> = Vec::new();
        let mut i: usize = 0;
        while i < self.model.len()
            invariant
                i <= self.model.len(),
                model@.len() == i,
                forall|j: int| 0 <= j < i ==> (#[trigger] model@[j])@ == self.model@[j]@,
            decreases self.model.len() - i,
        {
            model.push(self.model[i].clone());
            i = i + 1;
        }
        let ghost units = Seq::new(model@.len(), |j: int| model@[j]@);
        assert(units =~= self@);
        Residual { model }
    }
}

} // verus!
