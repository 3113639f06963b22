use mobilefacenet::yolox::{HeadConfig, PafpnConfig, Yolox, YoloxConfig};

#[test]
fn tiny_detector_has_the_published_factors() {
    let detector = Yolox::yolox_tiny();
    assert_eq!(
        detector.backbone().config(),
        PafpnConfig { depth: 330, width: 375, depthwise: false }
    );
    assert_eq!(
        detector.head().config(),
        HeadConfig { num_classes: 80, width: 375, depthwise: false }
    );
}

#[test]
fn detector_is_assembled_from_its_configuration() {
    let config = YoloxConfig::new(1000, 1250, 3, true);
    let detector = config.init();
    assert_eq!(
        detector.backbone().config(),
        PafpnConfig { depth: 1000, width: 1250, depthwise: true }
    );
    assert_eq!(
        detector.head().config(),
        HeadConfig { num_classes: 3, width: 1250, depthwise: true }
    );
}

#[test]
fn backbone_and_head_keep_their_parameters() {
    let backbone = PafpnConfig::new(670, 750, false);
    assert_eq!(backbone.init().config(), backbone);
    let head = HeadConfig::new(20, 750, false);
    assert_eq!(head.init().config(), head);
}
