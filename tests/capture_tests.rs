use clarity::capture::{
    analyze_capture, capture_file_name, date_dir_name, encode_capture, jpeg_data_url,
    rgba_to_rgb, CaptureClock, CaptureError,
};

fn clock() -> CaptureClock {
    CaptureClock { year: 2024, month: 3, day: 7, hour: 9, minute: 5, second: 2 }
}

#[test]
fn capture_names_are_date_partitioned() {
    assert_eq!(date_dir_name(&clock()), "2024-03-07");
    assert_eq!(capture_file_name(&clock(), 42), "2024-03-07_09-05-02_000042.jpg");
    assert_eq!(capture_file_name(&clock(), 1234567), "2024-03-07_09-05-02_1234567.jpg");
}

#[test]
fn alpha_is_dropped() {
    assert_eq!(rgba_to_rgb(&vec![1, 2, 3, 255, 4, 5, 6, 0]), vec![1, 2, 3, 4, 5, 6]);
    assert_eq!(rgba_to_rgb(&vec![]), Vec::<u8>::new());
}

#[test]
fn capture_encodes_to_jpeg() {
    let rgba: Vec<u8> = (0..(8 * 8)).flat_map(|i| [i as u8, 255 - i as u8, 7, 255]).collect();
    let jpg = encode_capture(&rgba, 8, 8).unwrap();
    assert!(jpg.len() > 4);
    assert_eq!(&jpg[..2], &[0xFF, 0xD8]);
    assert_eq!(&jpg[jpg.len() - 2..], &[0xFF, 0xD9]);
}

#[test]
fn zero_sized_capture_fails_to_encode() {
    match encode_capture(&vec![], 0, 0) {
        Err(CaptureError::EncodeFailure { .. }) => {}
        other => panic!("unexpected {:?}", other),
    }
    assert!(encode_capture(&vec![0u8; 65536 * 4], 65536, 1).is_err());
    assert!(encode_capture(&vec![0u8; 65535 * 4], 65535, 1).is_ok());
}

#[test]
fn blank_capture_is_flagged() {
    let black = vec![0u8; 10 * 10 * 4];
    let a = analyze_capture(&black, 10, 10);
    assert_eq!(a.pixel_count, 100);
    assert_eq!(a.non_black_pixels, 0);
    assert_eq!(a.sampled_colors, 1);
    assert!(a.mostly_blank);
}

#[test]
fn colourful_capture_is_not_flagged() {
    let raw: Vec<u8> = (0..200u32).flat_map(|i| [i as u8, 1, 2, 255]).collect();
    let a = analyze_capture(&raw, 20, 10);
    assert_eq!(a.non_black_pixels, 200);
    assert_eq!(a.sampled_colors, 100);
    assert!(!a.mostly_blank);
}

#[test]
fn data_url_holds_base64() {
    assert_eq!(jpeg_data_url(&vec![1, 2, 3]), "data:image/jpeg;base64,AQID");
    assert_eq!(jpeg_data_url(&vec![0xFF]), "data:image/jpeg;base64,/w==");
}
