//! The tensors that every block holds, each under a stable path.
//!
//! A loader that fills a network from a checkpoint addresses each tensor by
//! its path and can hold the checkpoint's tensor to the shape given here. A
//! path names the fields on the way from the network down to the tensor,
//! joined by dots; the units of a stack are numbered from zero.

use vstd::prelude::*;
use vstd::string::StringExecFns;
use crate::conv::{BlockConfig, ConvBlock, LinearBlock};
use crate::depthwise::{DepthWise, DepthWiseConfig, Residual};
use crate::head::{HeadVariant, OutputLayer};
use crate::linear::Linear;
use crate::model::{ClassifierModel, Model};
use crate::network::{MobileFaceNet, NetworkModel};
use crate::paths::{
    block_paths_distinct, classifier_paths_distinct, head_paths_distinct, network_paths_distinct,
    paths_distinct, stack_paths_distinct, unit_paths_distinct,
};

verus! {

/// One tensor that a block holds: its path and its shape.
#[derive(Debug, PartialEq, Eq)]
pub struct Param {
    pub path: String,
    pub shape: Vec<usize>,
}

/// What a [`Param`] holds: the characters of its path and the axes of its
/// shape.
pub struct ParamModel {
    pub path: Seq<char>,
    pub shape: Seq<usize>,
}

impl View for Param {
    type V = ParamModel;

    open spec fn view(&self) -> ParamModel {
        ParamModel { path: self.path@, shape: self.shape@ }
    }
}

impl Clone for Param {
    fn clone(&self) -> (param: Param)
        ensures
            param@ == self@,
    {
        Param { path: self.path.clone(), shape: self.shape.clone() }
    }
}

/// What a list of parameters holds.
pub open spec fn models(params: Seq<Param>) -> Seq<ParamModel> {
    Seq::new(params.len(), |i: int| params[i]@)
}

/// The decimal digit `d`.
pub open spec fn digit(d: nat) -> Seq<char> {
    if d == 0 {
        "0"@
    } else if d == 1 {
        "1"@
    } else if d == 2 {
        "2"@
    } else if d == 3 {
        "3"@
    } else if d == 4 {
        "4"@
    } else if d == 5 {
        "5"@
    } else if d == 6 {
        "6"@
    } else if d == 7 {
        "7"@
    } else if d == 8 {
        "8"@
    } else {
        "9"@
    }
}

/// The number `n` in decimal digits, without leading zeros.
pub open spec fn decimal(n: nat) -> Seq<char>
    decreases n,
{
    if n < 10 {
        digit(n)
    } else {
        decimal(n / 10) + digit(n % 10)
    }
}

/// The decimal digit `d` as a string.
fn digit_str(d: usize) -> (s: &'static str)
    requires
        d < 10,
    ensures
        s@ == digit(d as nat),
{
    if d == 0 {
        "0"
    } else if d == 1 {
        "1"
    } else if d == 2 {
        "2"
    } else if d == 3 {
        "3"
    } else if d == 4 {
        "4"
    } else if d == 5 {
        "5"
    } else if d == 6 {
        "6"
    } else if d == 7 {
        "7"
    } else if d == 8 {
        "8"
    } else {
        "9"
    }
}

/// The number `n` in decimal digits, as a string.
pub fn decimal_string(n: usize) -> (s: String)
    ensures
        s@ == decimal(n as nat),
    decreases n,
{
    if n < 10 {
        String::from_str(digit_str(n))
    } else {
        decimal_string(n / 10).concat(digit_str(n % 10))
    }
}

/// Appends the parameter with the path `prefix` followed by `name`.
fn push_param(out: &mut Vec<Param>, prefix: &str, name: &str, shape: Vec<usize>)
    ensures
        models(final(out)@) == models(old(out)@).push(
            ParamModel { path: prefix@ + name@, shape: shape@ },
        ),
{
    let path = String::from_str(prefix).concat(name);
    out.push(Param { path, shape });
    assert(models(out@) =~= models(old(out)@).push(
        ParamModel { path: prefix@ + name@, shape: shape@ },
    ));
}

/// The tensors of a normalization over `features` channels: scale, shift
/// and the two running statistics, one value per channel each.
pub open spec fn norm_params(prefix: Seq<char>, features: usize) -> Seq<ParamModel> {
    seq![
        ParamModel { path: prefix + "gamma"@, shape: seq![features] },
        ParamModel { path: prefix + "beta"@, shape: seq![features] },
        ParamModel { path: prefix + "running_mean"@, shape: seq![features] },
        ParamModel { path: prefix + "running_var"@, shape: seq![features] },
    ]
}

/// The tensors of a convolution: a weight of shape (output channels, input
/// channels per group, kernel height, kernel width) and a bias per output
/// channel.
pub open spec fn conv_params(prefix: Seq<char>, config: BlockConfig) -> Seq<ParamModel> {
    seq![
        ParamModel {
            path: prefix + "weight"@,
            shape: seq![
                config.out_channels,
                (config.in_channels / config.groups) as usize,
                config.kernel.h,
                config.kernel.w,
            ],
        },
        ParamModel { path: prefix + "bias"@, shape: seq![config.out_channels] },
    ]
}

/// The tensors of a fully connected layer without bias: a weight of shape
/// (input features, output features).
pub open spec fn linear_params(prefix: Seq<char>, layer: Linear) -> Seq<ParamModel> {
    seq![ParamModel { path: prefix + "weight"@, shape: seq![layer.d_input, layer.d_output] }]
}

/// The tensors of a convolution block: those of its convolution under
/// `conv.`, then those of its normalization under `norm.`.
pub open spec fn block_params(prefix: Seq<char>, config: BlockConfig) -> Seq<ParamModel> {
    conv_params(prefix + "conv."@, config) + norm_params(prefix + "norm."@, config.out_channels)
}

/// The tensors of a depthwise-separable unit: those of its three blocks,
/// under `conv.`, `conv_dw.` and `project.`.
pub open spec fn unit_params(prefix: Seq<char>, unit: DepthWiseConfig) -> Seq<ParamModel> {
    block_params(prefix + "conv."@, unit.expand()) + block_params(
        prefix + "conv_dw."@,
        unit.depthwise(),
    ) + block_params(prefix + "project."@, unit.project())
}

/// The path prefix of unit `i` of a stack.
pub open spec fn unit_prefix(prefix: Seq<char>, i: nat) -> Seq<char> {
    prefix + "model."@ + decimal(i) + "."@
}

/// The tensors of a stack: those of its units in order, unit `i` under
/// `model.i.`.
pub open spec fn stack_params(prefix: Seq<char>, units: Seq<DepthWiseConfig>) -> Seq<ParamModel>
    decreases units.len(),
{
    if units.len() == 0 {
        Seq::empty()
    } else {
        stack_params(prefix, units.drop_last()) + unit_params(
            unit_prefix(prefix, (units.len() - 1) as nat),
            units.last(),
        )
    }
}

/// The tensors of an embedding head. The first head has two
/// normalizations, `bn1.` and `bn2.`; the second has its convolution block
/// under `conv_6_dw.`, its projection under `linear.` and its normalization
/// under `bn.`.
pub open spec fn head_params(prefix: Seq<char>, head: HeadVariant) -> Seq<ParamModel> {
    match head {
        HeadVariant::Gnap { num_features } => norm_params(prefix + "bn1."@, num_features)
            + norm_params(prefix + "bn2."@, num_features),
        HeadVariant::Gdc { embedding_size } => block_params(
            prefix + "conv_6_dw."@,
            HeadVariant::gdc_conv(),
        ) + linear_params(prefix + "linear."@, HeadVariant::gdc_linear(embedding_size))
            + norm_params(prefix + "bn."@, embedding_size),
    }
}

/// The tensors of a network: those of its stages in order, each under the
/// stage's name, and those of the head under `output_layer.`.
pub open spec fn network_params(net: NetworkModel) -> Seq<ParamModel> {
    block_params("conv1."@, net.conv1) + block_params("conv2_dw."@, net.conv2_dw) + unit_params(
        "conv_23."@,
        net.conv_23,
    ) + stack_params("conv_3."@, net.conv_3) + unit_params("conv_34."@, net.conv_34)
        + stack_params("conv_4."@, net.conv_4) + unit_params("conv_45."@, net.conv_45)
        + stack_params("conv_5."@, net.conv_5) + block_params("conv_6_sep."@, net.conv_6_sep)
        + head_params("output_layer."@, net.output_layer)
}

/// The tensors of a classifier: those of its three blocks and of its two
/// fully connected layers.
pub open spec fn classifier_params(net: ClassifierModel) -> Seq<ParamModel> {
    block_params("conv1."@, net.conv1) + block_params("conv2."@, net.conv2) + block_params(
        "conv3."@,
        net.conv3,
    ) + linear_params("fc1."@, net.fc1) + linear_params("fc2."@, net.fc2)
}

/// The shape of a vector of `len` values.
fn shape_of_vector(len: usize) -> (shape: Vec<usize>)
    ensures
        shape@ == seq![len],
{
    let mut shape: Vec<usize> = Vec::new();
    shape.push(len);
    assert(shape@ =~= seq![len]);
    shape
}

/// `prefix` followed by `name`.
fn join(prefix: &str, name: &str) -> (path: String)
    ensures
        path@ == prefix@ + name@,
{
    String::from_str(prefix).concat(name)
}

/// Appends [`norm_params`].
fn push_norm_params(out: &mut Vec<Param>, prefix: &str, features: usize)
    ensures
        models(final(out)@) == models(old(out)@) + norm_params(prefix@, features),
{
    let ghost start = models(out@);
    let ghost added = norm_params(prefix@, features);
    push_param(out, prefix, "gamma", shape_of_vector(features));
    assert(models(out@) =~~= start.push(added[0]));
    push_param(out, prefix, "beta", shape_of_vector(features));
    assert(models(out@) =~~= start.push(added[0]).push(added[1]));
    push_param(out, prefix, "running_mean", shape_of_vector(features));
    assert(models(out@) =~~= start.push(added[0]).push(added[1]).push(added[2]));
    push_param(out, prefix, "running_var", shape_of_vector(features));
    assert(models(out@) =~~= start + added);
}

/// Appends [`conv_params`].
fn push_conv_params(out: &mut Vec<Param>, prefix: &str, config: BlockConfig)
    requires
        config.valid(),
    ensures
        models(final(out)@) == models(old(out)@) + conv_params(prefix@, config),
{
    let ghost start = models(out@);
    let ghost added = conv_params(prefix@, config);
    push_param(
        out,
        prefix,
        "weight",
        vec![
            config.out_channels,
            config.in_channels / config.groups,
            config.kernel.h,
            config.kernel.w,
        ],
    );
    assert(models(out@) =~~= start.push(added[0]));
    push_param(out, prefix, "bias", shape_of_vector(config.out_channels));
    assert(models(out@) =~~= start + added);
}

/// Appends [`linear_params`].
fn push_linear_params(out: &mut Vec<Param>, prefix: &str, layer: Linear)
    ensures
        models(final(out)@) == models(old(out)@) + linear_params(prefix@, layer),
{
    push_param(out, prefix, "weight", vec![layer.d_input, layer.d_output]);
    assert(models(out@) =~~= models(old(out)@) + linear_params(prefix@, layer));
}

/// Appends [`block_params`].
fn push_block_params(out: &mut Vec<Param>, prefix: &str, config: BlockConfig)
    requires
        config.valid(),
    ensures
        models(final(out)@) == models(old(out)@) + block_params(prefix@, config),
{
    let conv = join(prefix, "conv.");
    push_conv_params(out, conv.as_str(), config);
    let norm = join(prefix, "norm.");
    push_norm_params(out, norm.as_str(), config.out_channels);
    assert(models(out@) =~= models(old(out)@) + block_params(prefix@, config));
}

/// Appends [`unit_params`].
fn push_unit_params(out: &mut Vec<Param>, prefix: &str, unit: &DepthWise)
    ensures
        models(final(out)@) == models(old(out)@) + unit_params(prefix@, unit@),
{
    let conv = join(prefix, "conv.");
    push_block_params(out, conv.as_str(), unit.conv().config());
    let conv_dw = join(prefix, "conv_dw.");
    push_block_params(out, conv_dw.as_str(), unit.conv_dw().config());
    let project = join(prefix, "project.");
    push_block_params(out, project.as_str(), unit.project().config());
    assert(models(out@) =~= models(old(out)@) + unit_params(prefix@, unit@));
}

/// Appends [`stack_params`].
fn push_stack_params(out: &mut Vec<Param>, prefix: &str, stack: &Residual)
    ensures
        models(final(out)@) == models(old(out)@) + stack_params(prefix@, stack@),
{
    let units = stack.units();
    let ghost all = stack@;
    let mut i: usize = 0;
    assert(all.take(0) =~= Seq::<DepthWiseConfig>::empty());
    assert(models(out@) =~= models(old(out)@) + stack_params(prefix@, all.take(0)));
    while i < units.len()
        invariant
            i <= units.len(),
            units@.len() == all.len(),
            forall|j: int| 0 <= j < units@.len() ==> (#[trigger] units@[j])@ == all[j],
            models(out@) == models(old(out)@) + stack_params(prefix@, all.take(i as int)),
        decreases units.len() - i,
    {
        let ghost before = out@;
        let path = join(prefix, "model.").concat(decimal_string(i).as_str()).concat(".");
        push_unit_params(out, path.as_str(), &units[i]);
        proof {
            let next = all.take(i + 1);
            assert(next.drop_last() =~= all.take(i as int));
            assert(next.last() == all[i as int]);
            assert(path@ == unit_prefix(prefix@, i as nat));
            assert(models(out@) =~= models(old(out)@) + stack_params(prefix@, next));
        }
        i = i + 1;
    }
    assert(all.take(i as int) =~= all);
}

/// Appends [`head_params`].
fn push_head_params(out: &mut Vec<Param>, prefix: &str, head: &OutputLayer)
    ensures
        models(final(out)@) == models(old(out)@) + head_params(prefix@, head@),
{
    match head {
        OutputLayer::GNAP(layer) => {
            let features = layer.num_features();
            let bn1 = join(prefix, "bn1.");
            push_norm_params(out, bn1.as_str(), features);
            let bn2 = join(prefix, "bn2.");
            push_norm_params(out, bn2.as_str(), features);
            assert(models(out@) =~= models(old(out)@) + head_params(prefix@, head@));
        },
        OutputLayer::GDC(layer) => {
            let conv = join(prefix, "conv_6_dw.");
            push_block_params(out, conv.as_str(), layer.conv_6_dw().config());
            let linear = join(prefix, "linear.");
            push_linear_params(out, linear.as_str(), layer.linear());
            let bn = join(prefix, "bn.");
            push_norm_params(out, bn.as_str(), layer.embedding_size());
            assert(models(out@) =~= models(old(out)@) + head_params(prefix@, head@));
        },
    }
}

impl ConvBlock {
    /// The block's tensors, each path starting with `prefix`.
    pub fn parameters(&self, prefix: &str) -> (params: Vec<Param>)
        ensures
            models(params@) == block_params(prefix@, self@),
            paths_distinct(models(params@)),
    {
        let mut out: Vec<Param> = Vec::new();
        push_block_params(&mut out, prefix, self.config());
        assert(models(out@) =~= block_params(prefix@, self@));
        proof {
            block_paths_distinct(prefix@, self@);
        }
        out
    }
}

impl crate::model::ConvBlock {
    /// The block's tensors, each path starting with `prefix`.
    pub fn parameters(&self, prefix: &str) -> (params: Vec<Param>)
        ensures
            models(params@) == block_params(prefix@, self@),
            paths_distinct(models(params@)),
    {
        let mut out: Vec<Param> = Vec::new();
        push_block_params(&mut out, prefix, self.config());
        assert(models(out@) =~= block_params(prefix@, self@));
        proof {
            block_paths_distinct(prefix@, self@);
        }
        out
    }
}

impl LinearBlock {
    /// The block's tensors, each path starting with `prefix`.
    pub fn parameters(&self, prefix: &str) -> (params: Vec<Param>)
        ensures
            models(params@) == block_params(prefix@, self@),
            paths_distinct(models(params@)),
    {
        let mut out: Vec<Param> = Vec::new();
        push_block_params(&mut out, prefix, self.config());
        assert(models(out@) =~= block_params(prefix@, self@));
        proof {
            block_paths_distinct(prefix@, self@);
        }
        out
    }
}

impl DepthWise {
    /// The unit's tensors, each path starting with `prefix`.
    pub fn parameters(&self, prefix: &str) -> (params: Vec<Param>)
        ensures
            models(params@) == unit_params(prefix@, self@),
            paths_distinct(models(params@)),
    {
        let mut out: Vec<Param> = Vec::new();
        push_unit_params(&mut out, prefix, self);
        assert(models(out@) =~= unit_params(prefix@, self@));
        proof {
            unit_paths_distinct(prefix@, self@);
        }
        out
    }
}

impl Residual {
    /// The stack's tensors, each path starting with `prefix`.
    pub fn parameters(&self, prefix: &str) -> (params: Vec<Param>)
        ensures
            models(params@) == stack_params(prefix@, self@),
            paths_distinct(models(params@)),
    {
        let mut out: Vec<Param> = Vec::new();
        push_stack_params(&mut out, prefix, self);
        assert(models(out@) =~= stack_params(prefix@, self@));
        proof {
            stack_paths_distinct(prefix@, self@);
        }
        out
    }
}

impl OutputLayer {
    /// The head's tensors, each path starting with `prefix`.
    pub fn parameters(&self, prefix: &str) -> (params: Vec<Param>)
        ensures
            models(params@) == head_params(prefix@, self@),
            paths_distinct(models(params@)),
    {
        let mut out: Vec<Param> = Vec::new();
        push_head_params(&mut out, prefix, self);
        assert(models(out@) =~= head_params(prefix@, self@));
        proof {
            head_paths_distinct(prefix@, self@);
        }
        out
    }
}

impl MobileFaceNet {
    /// The network's tensors in the order of its stages.
    pub fn parameters(&self) -> (params: Vec<Param>)
        ensures
            models(params@) == network_params(self@),
            paths_distinct(models(params@)),
    {
        let mut out: Vec<Param> = Vec::new();
        push_block_params(&mut out, "conv1.", self.conv1().config());
        push_block_params(&mut out, "conv2_dw.", self.conv2_dw().config());
        push_unit_params(&mut out, "conv_23.", self.conv_23());
        push_stack_params(&mut out, "conv_3.", self.conv_3());
        push_unit_params(&mut out, "conv_34.", self.conv_34());
        push_stack_params(&mut out, "conv_4.", self.conv_4());
        push_unit_params(&mut out, "conv_45.", self.conv_45());
        push_stack_params(&mut out, "conv_5.", self.conv_5());
        push_block_params(&mut out, "conv_6_sep.", self.conv_6_sep().config());
        push_head_params(&mut out, "output_layer.", self.output_layer());
        assert(models(out@) =~= network_params(self@));
        proof {
            network_paths_distinct(self@);
        }
        out
    }
}

impl Model {
    /// The classifier's tensors in the order of its layers.
    pub fn parameters(&self) -> (params: Vec<Param>)
        ensures
            models(params@) == classifier_params(self@),
            paths_distinct(models(params@)),
    {
        let mut out: Vec<Param> = Vec::new();
        push_block_params(&mut out, "conv1.", self.conv1().config());
        push_block_params(&mut out, "conv2.", self.conv2().config());
        push_block_params(&mut out, "conv3.", self.conv3().config());
        push_linear_params(&mut out, "fc1.", self.fc1());
        push_linear_params(&mut out, "fc2.", self.fc2());
        assert(models(out@) =~= classifier_params(self@));
        proof {
            classifier_paths_distinct(self@);
        }
        out
    }
}

} // verus!
