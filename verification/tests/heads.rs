use mobilefacenet::error::ShapeError;
use mobilefacenet::head::{Flatten, HeadVariant, OutputLayer, GDC, GNAP};
use mobilefacenet::linear::Linear;
use mobilefacenet::shape::{Dims2, Shape2, Shape4};

#[test]
fn gdc_head_maps_feature_map_to_embedding() {
    let gdc = GDC::new(512);
    let out = gdc.forward(Shape4::new(2, 512, 7, 7)).unwrap();
    assert_eq!(out.dims(), [2, 512]);
}

#[test]
fn gdc_head_projects_to_the_configured_size() {
    for size in [0usize, 1, 128, 512, 1000] {
        let gdc = GDC::new(size);
        assert_eq!(gdc.embedding_size(), size);
        assert_eq!(gdc.forward(Shape4::new(3, 512, 7, 7)), Ok(Shape2::new(3, size)));
    }
}

#[test]
fn gdc_head_takes_only_the_feature_map_it_is_laid_out_for() {
    let gdc = GDC::new(128);
    assert_eq!(
        gdc.forward(Shape4::new(2, 256, 7, 7)),
        Err(ShapeError::ChannelMismatch { expected: 512, found: 256 })
    );
    assert_eq!(gdc.forward(Shape4::new(2, 512, 6, 7)), Err(ShapeError::KernelExceedsInput));
    assert_eq!(gdc.forward(Shape4::new(2, 512, 7, 4)), Err(ShapeError::KernelExceedsInput));
    assert_eq!(
        gdc.forward(Shape4::new(2, 512, 8, 7)),
        Err(ShapeError::FeatureMismatch { expected: 512, found: 1024 })
    );
    assert_eq!(
        gdc.forward(Shape4::new(2, 512, 14, 14)),
        Err(ShapeError::FeatureMismatch { expected: 512, found: 512 * 8 * 8 })
    );
    assert_eq!(
        gdc.forward(Shape4::new(2, 512, usize::MAX, usize::MAX)),
        Err(ShapeError::Overflow)
    );
}

#[test]
fn gdc_head_is_a_depthwise_convolution_and_a_projection() {
    let gdc = GDC::new(128);
    let conv = gdc.conv_6_dw().config();
    assert_eq!((conv.in_channels, conv.out_channels, conv.groups), (512, 512, 512));
    assert_eq!((conv.kernel, conv.stride, conv.padding), (
        Dims2 { h: 7, w: 7 },
        Dims2 { h: 1, w: 1 },
        Dims2 { h: 0, w: 0 },
    ));
    assert_eq!(gdc.linear(), Linear { d_input: 512, d_output: 128 });
}

#[test]
fn gnap_head_returns_one_feature_per_channel() {
    let gnap = GNAP::new(512);
    assert_eq!(gnap.num_features(), 512);
    assert_eq!(gnap.forward(Shape4::new(2, 512, 7, 7)), Ok(Shape2::new(2, 512)));
    assert_eq!(gnap.forward(Shape4::new(5, 512, 14, 3)), Ok(Shape2::new(5, 512)));
    let narrow = GNAP::new(16);
    assert_eq!(narrow.forward(Shape4::new(1, 16, 2, 2)), Ok(Shape2::new(1, 16)));
}

#[test]
fn gnap_head_asks_for_its_channel_count() {
    let gnap = GNAP::new(512);
    assert_eq!(
        gnap.forward(Shape4::new(2, 128, 7, 7)),
        Err(ShapeError::ChannelMismatch { expected: 512, found: 128 })
    );
}

#[test]
fn output_layer_dispatches_to_its_variant() {
    let gnap = OutputLayer::GNAP(GNAP::new(512));
    let gdc = OutputLayer::GDC(GDC::new(64));
    let features = Shape4::new(2, 512, 7, 7);
    assert_eq!(gnap.forward(features), Ok(Shape2::new(2, 512)));
    assert_eq!(gdc.forward(features), Ok(Shape2::new(2, 64)));
    let large = Shape4::new(2, 512, 14, 14);
    assert_eq!(gnap.forward(large), Ok(Shape2::new(2, 512)));
    assert_eq!(
        gdc.forward(large),
        Err(ShapeError::FeatureMismatch { expected: 512, found: 512 * 8 * 8 })
    );
}

#[test]
fn head_variants_compare_by_their_parameters() {
    assert_eq!(HeadVariant::Gdc { embedding_size: 4 }, HeadVariant::Gdc { embedding_size: 4 });
    assert_ne!(HeadVariant::Gdc { embedding_size: 4 }, HeadVariant::Gnap { num_features: 4 });
}

#[test]
fn flatten_merges_channel_and_spatial_axes() {
    let flatten = Flatten::new();
    assert_eq!(flatten.forward(Shape4::new(2, 512, 1, 1)), Ok(Shape2::new(2, 512)));
    assert_eq!(flatten.forward(Shape4::new(2, 24, 22, 22)), Ok(Shape2::new(2, 11616)));
    assert_eq!(flatten.forward(Shape4::new(7, 3, 0, 5)), Ok(Shape2::new(7, 0)));
}

#[test]
fn flatten_reports_a_product_that_does_not_fit() {
    let flatten = Flatten::new();
    assert_eq!(flatten.forward(Shape4::new(1, usize::MAX, 2, 1)), Err(ShapeError::Overflow));
    assert_eq!(flatten.forward(Shape4::new(1, 2, 1, usize::MAX)), Err(ShapeError::Overflow));
    assert_eq!(
        flatten.forward(Shape4::new(1, usize::MAX, usize::MAX, usize::MAX)),
        Err(ShapeError::Overflow)
    );
    assert_eq!(
        flatten.forward(Shape4::new(1, usize::MAX, 1, 1)),
        Ok(Shape2::new(1, usize::MAX))
    );
    // An empty axis makes the product zero, however large the others are.
    assert_eq!(
        flatten.forward(Shape4::new(1, usize::MAX, usize::MAX, 0)),
        Ok(Shape2::new(1, 0))
    );
}

#[test]
fn linear_layer_asks_for_its_input_width() {
    let layer = Linear::new(512, 128);
    assert_eq!(layer.forward(Shape2::new(4, 512)), Ok(Shape2::new(4, 128)));
    assert_eq!(
        layer.forward(Shape2::new(4, 511)),
        Err(ShapeError::FeatureMismatch { expected: 512, found: 511 })
    );
    assert_eq!(Shape2::from_dims([4, 512]).dims(), [4, 512]);
}
