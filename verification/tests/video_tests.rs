use options_menu::video::{
    filter_video_modes, offered_positions, offers_video_mode, push_decimal, video_mode_label, video_mode_labels,
    VideoMode,
};

fn mode(width: u32, height: u32, bit_depth: u16, refresh_rate: u16) -> VideoMode {
    VideoMode { width, height, bit_depth, refresh_rate }
}

#[test]
fn offered_modes_are_large_and_32_bit() {
    assert!(offers_video_mode(&mode(1024, 768, 32, 60)));
    assert!(!offers_video_mode(&mode(800, 768, 32, 60)));
    assert!(!offers_video_mode(&mode(1024, 600, 32, 60)));
    assert!(!offers_video_mode(&mode(1024, 768, 16, 60)));
    assert!(offers_video_mode(&mode(801, 601, 32, 0)));
}

#[test]
fn filter_keeps_offered_modes_in_order() {
    let available = vec![
        mode(800, 600, 32, 60),
        mode(1920, 1080, 32, 144),
        mode(1024, 768, 16, 60),
        mode(1280, 720, 32, 60),
        mode(1920, 1080, 32, 60),
    ];
    let offered = filter_video_modes(&available);
    assert_eq!(offered, vec![mode(1920, 1080, 32, 144), mode(1280, 720, 32, 60), mode(1920, 1080, 32, 60)]);
}

#[test]
fn filter_of_nothing_offered_is_empty() {
    let available = vec![mode(640, 480, 32, 60), mode(800, 600, 24, 60)];
    assert!(filter_video_modes(&available).is_empty());
    assert!(filter_video_modes(&Vec::new()).is_empty());
}

#[test]
fn label_shows_size_and_rate() {
    assert_eq!(video_mode_label(&mode(1920, 1080, 32, 60)), "1920x1080@60Hz");
    assert_eq!(video_mode_label(&mode(0, 0, 32, 0)), "0x0@0Hz");
    assert_eq!(video_mode_label(&mode(4294967295, 10, 32, 65535)), "4294967295x10@65535Hz");
}

#[test]
fn labels_follow_the_modes() {
    let modes = vec![mode(1280, 720, 32, 75), mode(2560, 1440, 32, 120)];
    assert_eq!(video_mode_labels(&modes), vec!["1280x720@75Hz".to_string(), "2560x1440@120Hz".to_string()]);
}

#[test]
fn decimal_appends_digits() {
    let mut text = String::from("n=");
    push_decimal(&mut text, 9);
    assert_eq!(text, "n=9");
    push_decimal(&mut text, 100);
    assert_eq!(text, "n=9100");
}

#[test]
fn positions_of_offered_modes() {
    let available = vec![
        mode(800, 600, 32, 60),
        mode(1920, 1080, 32, 144),
        mode(1024, 768, 16, 60),
        mode(1280, 720, 32, 60),
        mode(1920, 1080, 32, 144),
    ];
    assert_eq!(offered_positions(&available), vec![1, 3, 4]);
    assert!(offered_positions(&vec![mode(640, 480, 32, 60)]).is_empty());
}
