//! Tensor shapes.

use vstd::prelude::*;

verus! {

/// A height and a width: a kernel, a stride or a padding.
#[derive(Clone, Copy, Debug, PartialEq, Eq, Structural)]
pub struct Dims2 {
    pub h: usize,
    pub w: usize,
}

impl Dims2 {
    /// The pair `[h, w]` as a `Dims2`.
    pub fn from_array(a: [usize; 2]) -> (d: Dims2)
        ensures
            d == Dims2::of(a[0], a[1]),
    {
        Dims2 { h: a[0], w: a[1] }
    }

    /// The pair as `[h, w]`.
    pub fn to_array(&self) -> (a: [usize; 2])
        ensures
            a[0] == self.h,
            a[1] == self.w,
    {
        [self.h, self.w]
    }

    /// The pair with height `h` and width `w`.
    pub open spec fn of(h: usize, w: usize) -> Dims2 {
        Dims2 { h, w }
    }
}

/// Shape of an activation tensor with axes (batch, channel, height, width).
#[derive(Clone, Copy, Debug, PartialEq, Eq, Structural)]
pub struct Shape4 {
    pub batch: usize,
    pub channels: usize,
    pub height: usize,
    pub width: usize,
}

impl Shape4 {
    /// The shape `[batch, channels, height, width]`.
    pub fn new(batch: usize, channels: usize, height: usize, width: usize) -> (s: Shape4)
        ensures
            s == (Shape4 { batch, channels, height, width }),
    {
        Shape4 { batch, channels, height, width }
    }

    /// The shape whose axes are the entries of `dims`, in order.
    pub fn from_dims(dims: [usize; 4]) -> (s: Shape4)
        ensures
            s == (Shape4 { batch: dims[0], channels: dims[1], height: dims[2], width: dims[3] }),
    {
        Shape4 { batch: dims[0], channels: dims[1], height: dims[2], width: dims[3] }
    }

    /// The four axes in order.
    pub fn dims(&self) -> (d: [usize; 4])
        ensures
            d[0] == self.batch,
            d[1] == self.channels,
            d[2] == self.height,
            d[3] == self.width,
    {
        [self.batch, self.channels, self.height, self.width]
    }
}

/// Shape of a batch of single-channel images with axes (batch, height,
/// width).
#[derive(Clone, Copy, Debug, PartialEq, Eq, Structural)]
pub struct Shape3 {
    pub batch: usize,
    pub height: usize,
    pub width: usize,
}

impl Shape3 {
    /// The shape `[batch, height, width]`.
    pub fn new(batch: usize, height: usize, width: usize) -> (s: Shape3)
        ensures
            s == (Shape3 { batch, height, width }),
    {
        Shape3 { batch, height, width }
    }

    /// The shape whose axes are the entries of `dims`, in order.
    pub fn from_dims(dims: [usize; 3]) -> (s: Shape3)
        ensures
            s == (Shape3 { batch: dims[0], height: dims[1], width: dims[2] }),
    {
        Shape3 { batch: dims[0], height: dims[1], width: dims[2] }
    }

    /// The three axes in order.
    pub fn dims(&self) -> (d: [usize; 3])
        ensures
            d[0] == self.batch,
            d[1] == self.height,
            d[2] == self.width,
    {
        [self.batch, self.height, self.width]
    }
}

/// Shape of a matrix with axes (batch, feature).
#[derive(Clone, Copy, Debug, PartialEq, Eq, Structural)]
pub struct Shape2 {
    pub batch: usize,
    pub features: usize,
}

impl Shape2 {
    /// The shape `[batch, features]`.
    pub fn new(batch: usize, features: usize) -> (s: Shape2)
        ensures
            s == (Shape2 { batch, features }),
    {
        Shape2 { batch, features }
    }

    /// The shape whose axes are the entries of `dims`, in order.
    pub fn from_dims(dims: [usize; 2]) -> (s: Shape2)
        ensures
            s == (Shape2 { batch: dims[0], features: dims[1] }),
    {
        Shape2 { batch: dims[0], features: dims[1] }
    }

    /// The two axes in order.
    pub fn dims(&self) -> (d: [usize; 2])
        ensures
            d[0] == self.batch,
            d[1] == self.features,
    {
        [self.batch, self.features]
    }
}

} // verus!
