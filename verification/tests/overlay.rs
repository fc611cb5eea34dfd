use niri_zones::draw::premul;

#[test]
fn premultiplied_argb_has_expected_alpha() {
    let bytes = premul(128, 255, 0, 0);
    let packed = u32::from_ne_bytes(bytes);
    assert_eq!(packed >> 24, 128);
    assert_eq!((packed >> 16) & 0xff, 128);
}
