use esp32s3_cam_qr::frame::{
    copy_frame, rgb565_to_luma, FrameCounter, DETECT_INTERVAL_FRAMES, FRAME_HEIGHT, FRAME_WIDTH,
    LUMA_LEN, RGB_LEN,
};

#[test]
fn frame_sizes() {
    assert_eq!(LUMA_LEN, (FRAME_WIDTH * FRAME_HEIGHT) as usize);
    assert_eq!(RGB_LEN, (FRAME_WIDTH * FRAME_HEIGHT * 2) as usize);
    assert_eq!(DETECT_INTERVAL_FRAMES, 20);
}

#[test]
fn detection_runs_every_twenty_frames() {
    let mut c = FrameCounter::new();
    let mut detected = Vec::new();
    for frame in 0..65u32 {
        if c.should_detect() {
            detected.push(frame);
        }
        c.advance();
        assert!(c.count() >= 1 && c.count() <= 20);
    }
    assert_eq!(detected, vec![0, 20, 40, 60]);
}

#[test]
fn counter_wraps_to_one() {
    let mut c = FrameCounter::new();
    assert_eq!(c.count(), 0);
    for _ in 0..20 {
        c.advance();
    }
    assert_eq!(c.count(), 20);
    c.advance();
    assert_eq!(c.count(), 1);
}

#[test]
fn copy_keeps_the_tail() {
    let mut dst = vec![9u8; 6];
    copy_frame(&mut dst, &[1, 2, 3]);
    assert_eq!(dst, vec![1, 2, 3, 9, 9, 9]);
    copy_frame(&mut dst, &[]);
    assert_eq!(dst, vec![1, 2, 3, 9, 9, 9]);
}

#[test]
fn luma_takes_first_byte_of_each_pixel() {
    let rgb = [10u8, 11, 20, 21, 30];
    let mut gray = vec![0u8; 4];
    rgb565_to_luma(&rgb, &mut gray);
    assert_eq!(gray, vec![10, 20, 30, 0]);
}
