//! Shape and configuration bookkeeping for a compact face-embedding network.
//!
//! Every block of the network is described by the parameters it is built
//! from. Building a block validates those parameters, and `forward` maps the
//! shape of an activation tensor to the shape the block produces for it, or
//! to the reason why the tensor does not fit. The numeric kernels themselves
//! are not part of this crate: a caller that runs them asks this crate first
//! which layers to create, under which paths their tensors go, and whether a
//! tensor will pass.
//!
//! - [`conv`]: the convolution blocks, with and without activation.
//! - [`depthwise`]: the depthwise-separable unit and the residual stack.
//! - [`head`]: the two embedding heads.
//! - [`network`]: the face-embedding network.
//! - [`params`] and [`paths`]: the tensors of each block, under distinct
//!   paths.
//! - [`laws`]: what holds of the blocks and of the network for every input.
//! - [`model`]: a small digit classifier made of the same blocks.
//! - [`yolox`]: how an object detector is configured and assembled.

pub mod error;
pub mod shape;
pub mod conv;
pub mod depthwise;
pub mod linear;
pub mod head;
pub mod network;
pub mod laws;
pub mod params;
pub mod paths;
pub mod model;
pub mod yolox;

pub use crate::conv::{BlockConfig, ConvBlock, LinearBlock};
pub use crate::depthwise::{DepthWise, DepthWiseConfig, Residual};
pub use crate::error::{ConfigError, ShapeError};
pub use crate::head::{Flatten, HeadVariant, OutputLayer, GDC, GNAP};
pub use crate::linear::Linear;
pub use crate::model::Model;
pub use crate::network::MobileFaceNet;
pub use crate::params::Param;
pub use crate::shape::{Dims2, Shape2, Shape3, Shape4};
pub use crate::yolox::{Yolox, YoloxConfig};
