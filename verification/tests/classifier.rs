use mobilefacenet::error::{ConfigError, ShapeError};
use mobilefacenet::linear::Linear;
use mobilefacenet::model::{ConvBlock, Model, NUM_CLASSES};
use mobilefacenet::shape::{Dims2, Shape2, Shape3, Shape4};

#[test]
fn classifier_maps_digit_images_to_class_scores() {
    let model = Model::new();
    assert_eq!(model.forward(Shape3::new(1, 28, 28)), Ok(Shape2::new(1, 10)));
    assert_eq!(model.forward(Shape3::new(64, 28, 28)), Ok(Shape2::new(64, NUM_CLASSES)));
}

#[test]
fn classifier_layers_shrink_the_image_by_two_pixels_each() {
    let model = Model::new();
    let x = Shape4::new(1, 1, 28, 28);
    let x = model.conv1().forward(x).unwrap();
    assert_eq!(x.dims(), [1, 8, 26, 26]);
    let x = model.conv2().forward(x).unwrap();
    assert_eq!(x.dims(), [1, 16, 24, 24]);
    let x = model.conv3().forward(x).unwrap();
    assert_eq!(x.dims(), [1, 24, 22, 22]);
    assert_eq!(model.fc1(), Linear { d_input: 24 * 22 * 22, d_output: 32 });
    assert_eq!(model.fc2(), Linear { d_input: 32, d_output: 10 });
}

#[test]
fn classifier_takes_what_fills_its_hidden_layer() {
    let model = Model::new();
    // 11 by 44 pixels are left of such an image: as many as 22 by 22.
    assert_eq!(model.forward(Shape3::new(1, 17, 50)), Ok(Shape2::new(1, 10)));
    assert_eq!(
        model.forward(Shape3::new(1, 27, 28)),
        Err(ShapeError::FeatureMismatch { expected: 11616, found: 24 * 21 * 22 })
    );
    assert_eq!(
        model.forward(Shape3::new(1, 29, 29)),
        Err(ShapeError::FeatureMismatch { expected: 11616, found: 24 * 23 * 23 })
    );
    assert_eq!(
        model.forward(Shape3::new(1, 7, 7)),
        Err(ShapeError::FeatureMismatch { expected: 11616, found: 24 })
    );
}

#[test]
fn classifier_rejects_images_smaller_than_its_kernels() {
    let model = Model::new();
    assert_eq!(model.forward(Shape3::new(1, 6, 28)), Err(ShapeError::KernelExceedsInput));
    assert_eq!(model.forward(Shape3::new(1, 28, 2)), Err(ShapeError::KernelExceedsInput));
    assert_eq!(model.forward(Shape3::new(1, 0, 0)), Err(ShapeError::KernelExceedsInput));
}

#[test]
fn classifier_reports_images_too_large_to_flatten() {
    let model = Model::new();
    assert_eq!(
        model.forward(Shape3::new(1, usize::MAX, usize::MAX)),
        Err(ShapeError::Overflow)
    );
}

#[test]
fn plain_block_has_unit_stride_and_no_padding() {
    assert_eq!(ConvBlock::new([8, 16], [0, 5]).unwrap_err(), ConfigError::ZeroKernel);
    assert_eq!(ConvBlock::new([8, 16], [3, 0]).unwrap_err(), ConfigError::ZeroKernel);
    let block = ConvBlock::new([8, 16], [3, 5]).unwrap();
    assert_eq!(
        block.forward(Shape4::new(2, 8, 28, 28)),
        Ok(Shape4::new(2, 16, 26, 24))
    );
    assert_eq!(
        block.forward(Shape4::new(2, 8, 28, 4)),
        Err(ShapeError::KernelExceedsInput)
    );
    assert_eq!(block.clone().parameters("c.")[0].shape, vec![16, 8, 3, 5]);
    let block = block.config();
    assert_eq!((block.in_channels, block.out_channels, block.groups), (8, 16, 1));
    assert_eq!(block.kernel, Dims2 { h: 3, w: 5 });
    assert_eq!(block.stride, Dims2 { h: 1, w: 1 });
    assert_eq!(block.padding, Dims2 { h: 0, w: 0 });
    assert_eq!(Shape3::from_dims([1, 28, 28]).dims(), [1, 28, 28]);
}
