use s21_hijack::edid::parse_edid;

fn sample_edid() -> Vec<u8> {
    let mut e = vec![0u8; 128];
    e[0..8].copy_from_slice(&[0x00, 0xFF, 0xFF, 0xFF, 0xFF, 0xFF, 0xFF, 0x00]);
    e[21] = 53;
    e[22] = 30;
    let d = 54;
    e[d] = 0x01;
    e[d + 1] = 0x00;
    e[d + 2] = 0x80;
    e[d + 4] = 0x70;
    e[d + 5] = 0x38;
    e[d + 7] = 0x40;
    e[d + 12] = 0x13;
    e[d + 13] = 0x2B;
    e[d + 14] = 0x21;
    e
}

#[test]
fn parses_size_and_resolution() {
    let (mm_w, mm_h, px_w, px_h) = parse_edid(&sample_edid()).expect("valid EDID");
    assert_eq!((px_w, px_h), (1920, 1080));
    assert_eq!(mm_w as f32, 531.0);
    assert_eq!(mm_h as f32, 299.0);
}

#[test]
fn falls_back_to_cm_when_dtd_mm_absent() {
    let mut e = sample_edid();
    e[54 + 12] = 0;
    e[54 + 13] = 0;
    e[54 + 14] = 0;
    let (mm_w, mm_h, _, _) = parse_edid(&e).expect("valid EDID");
    assert_eq!(mm_w as f32, 530.0);
    assert_eq!(mm_h as f32, 300.0);
}

#[test]
fn rejects_bad_header_and_short_input() {
    assert!(parse_edid(&[0u8; 128]).is_none());
    assert!(parse_edid(&[0u8; 10]).is_none());
}

#[test]
fn rejects_missing_physical_size() {
    let mut e = sample_edid();
    e[54 + 12] = 0;
    e[54 + 13] = 0;
    e[54 + 14] = 0;
    e[21] = 0;
    e[22] = 0;
    assert!(parse_edid(&e).is_none());
}
