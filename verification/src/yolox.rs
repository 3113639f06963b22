//! The object detector: how it is configured and assembled from a backbone
//! and a head.
//!
//! The detector scales its depth and its width by factors below and above
//! one. A factor is held here in thousandths, so that 0.375 is 375.

use vstd::prelude::*;

verus! {

/// Depth factor of the smallest detector, in thousandths.
pub const TINY_DEPTH: u32 = 330;

/// Width factor of the smallest detector, in thousandths.
pub const TINY_WIDTH: u32 = 375;

/// Number of classes the pretrained detectors tell apart.
pub const NUM_CLASSES: usize = 80;

/// The parameters of the backbone.
#[derive(Clone, Copy, Debug, PartialEq, Eq, Structural)]
pub struct PafpnConfig {
    /// Depth factor, in thousandths.
    pub depth: u32,
    /// Width factor, in thousandths.
    pub width: u32,
    /// Whether the convolutions are depthwise-separable.
    pub depthwise: bool,
}

/// The parameters of the detection head.
#[derive(Clone, Copy, Debug, PartialEq, Eq, Structural)]
pub struct HeadConfig {
    pub num_classes: usize,
    /// Width factor, in thousandths.
    pub width: u32,
    /// Whether the convolutions are depthwise-separable.
    pub depthwise: bool,
}

/// The backbone of an assembled detector.
#[derive(Clone, Copy, Debug)]
pub struct Pafpn {
    config: PafpnConfig,
}

/// The head of an assembled detector.
#[derive(Clone, Copy, Debug)]
pub struct Head {
    config: HeadConfig,
}

impl PafpnConfig {
    /// The parameters of a backbone with the given depth and width
    /// factors, in thousandths.
    pub fn new(depth: u32, width: u32, depthwise: bool) -> (config: PafpnConfig)
        ensures
            config == (PafpnConfig { depth, width, depthwise }),
    {
        PafpnConfig { depth, width, depthwise }
    }

    /// The backbone with these parameters.
    pub fn init(&self) -> (backbone: Pafpn)
        ensures
            backbone@ == *self,
    {
        Pafpn { config: *self }
    }
}

impl HeadConfig {
    /// The parameters of a head for `num_classes` classes with the given
    /// width factor, in thousandths.
    pub fn new(num_classes: usize, width: u32, depthwise: bool) -> (config: HeadConfig)
        ensures
            config == (HeadConfig { num_classes, width, depthwise }),
    {
        HeadConfig { num_classes, width, depthwise }
    }

    /// The head with these parameters.
    pub fn init(&self) -> (head: Head)
        ensures
            head@ == *self,
    {
        Head { config: *self }
    }
}

impl View for Pafpn {
    type V = PafpnConfig;

    closed spec fn view(&self) -> PafpnConfig {
        self.config
    }
}

impl Pafpn {
    /// The parameters the backbone was built from.
    pub fn config(&self) -> (c: PafpnConfig)
        ensures
            c == self@,
    {
        self.config
    }
}

impl View for Head {
    type V = HeadConfig;

    closed spec fn view(&self) -> HeadConfig {
        self.config
    }
}

impl Head {
    /// The parameters the head was built from.
    pub fn config(&self) -> (c: HeadConfig)
        ensures
            c == self@,
    {
        self.config
    }
}

/// The parameters of a detector: those of its backbone and of its head.
#[derive(Clone, Copy, Debug, PartialEq, Eq, Structural)]
pub struct DetectorModel {
    pub backbone: PafpnConfig,
    pub head: HeadConfig,
}

impl DetectorModel {
    /// Backbone and head are scaled alike: they have the same width factor
    /// and the same kind of convolution.
    pub open spec fn consistent(self) -> bool {
        self.backbone.width == self.head.width && self.backbone.depthwise == self.head.depthwise
    }

    /// The detector with the given factors, in thousandths, class count and
    /// kind of convolution: backbone and head share the width factor and
    /// the kind of convolution.
    pub open spec fn of(
        depth: u32,
        width: u32,
        num_classes: usize,
        depthwise: bool,
    ) -> DetectorModel {
        DetectorModel {
            backbone: PafpnConfig { depth, width, depthwise },
            head: HeadConfig { num_classes, width, depthwise },
        }
    }
}

/// Detector configuration.
#[derive(Clone, Copy, Debug)]
pub struct YoloxConfig {
    backbone: PafpnConfig,
    head: HeadConfig,
}

impl View for YoloxConfig {
    type V = DetectorModel;

    closed spec fn view(&self) -> DetectorModel {
        DetectorModel { backbone: self.backbone, head: self.head }
    }
}

impl YoloxConfig {
    #[verifier::type_invariant]
    spec fn wf(&self) -> bool {
        self@.consistent()
    }

    /// The configuration of a detector with the given depth and width
    /// factors, in thousandths.
    pub fn new(depth: u32, width: u32, num_classes: usize, depthwise: bool) -> (config: YoloxConfig)
        ensures
            config@ == DetectorModel::of(depth, width, num_classes, depthwise),
            config@.consistent(),
    {
        let backbone = PafpnConfig::new(depth, width, depthwise);
        let head = HeadConfig::new(num_classes, width, depthwise);
        YoloxConfig { backbone, head }
    }

    /// Assembles the detector: the backbone from the backbone's parameters,
    /// the head from the head's.
    pub fn init(&self) -> (detector: Yolox)
        ensures
            detector@ == self@,
            detector@.consistent(),
    {
        proof {
            use_type_invariant(self);
        }
        Yolox { backbone: self.backbone.init(), head: self.head.init() }
    }
}

/// The object detector: a backbone and a head.
#[derive(Clone, Copy, Debug)]
pub struct Yolox {
    backbone: Pafpn,
    head: Head,
}

impl View for Yolox {
    type V = DetectorModel;

    closed spec fn view(&self) -> DetectorModel {
        DetectorModel { backbone: self.backbone@, head: self.head@ }
    }
}

impl Yolox {
    #[verifier::type_invariant]
    spec fn wf(&self) -> bool {
        self@.consistent()
    }

    /// The smallest detector: depth factor 0.33, width factor 0.375, 80
    /// classes, ordinary convolutions.
    pub fn yolox_tiny() -> (detector: Yolox)
        ensures
            detector@ == DetectorModel::of(TINY_DEPTH, TINY_WIDTH, NUM_CLASSES, false),
    {
        YoloxConfig::new(TINY_DEPTH, TINY_WIDTH, NUM_CLASSES, false).init()
    }

    /// The backbone.
    pub fn backbone(&self) -> (b: &Pafpn)
        ensures
            b@ == self@.backbone,
            self@.consistent(),
    {
        proof {
            use_type_invariant(self);
        }
        &self.backbone
    }

    /// The head.
    pub fn head(&self) -> (h: &Head)
        ensures
            h@ == self@.head,
            self@.consistent(),
    {
        proof {
            use_type_invariant(self);
        }
        &self.head
    }
}

} // verus!
