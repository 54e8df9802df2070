use pngtooba::image_asset::{
    frame_delay_ms, image_kind, total_plays, ImageAsset, ImageKind, Repeat,
};

#[test]
fn delay_without_denominator_is_100ms() {
    assert_eq!(frame_delay_ms(7, 0), 100);
    assert_eq!(frame_delay_ms(0, 0), 100);
}

#[test]
fn delay_is_at_least_20ms() {
    assert_eq!(frame_delay_ms(0, 1), 20);
    assert_eq!(frame_delay_ms(19, 1), 20);
    assert_eq!(frame_delay_ms(20, 1), 20);
    assert_eq!(frame_delay_ms(21, 1), 21);
}

#[test]
fn delay_rounds_down() {
    assert_eq!(frame_delay_ms(1000, 10), 100);
    assert_eq!(frame_delay_ms(1005, 10), 100);
    assert_eq!(frame_delay_ms(u32::MAX, 1), u32::MAX as u64);
}

#[test]
fn plays_counts_the_first_play() {
    assert_eq!(total_plays(Repeat::Infinite), None);
    assert_eq!(total_plays(Repeat::Finite(0)), Some(1));
    assert_eq!(total_plays(Repeat::Finite(1)), Some(2));
    assert_eq!(total_plays(Repeat::Finite(u16::MAX)), Some(65536));
}

#[test]
fn kinds_of_paths() {
    assert_eq!(image_kind(""), None);
    assert_eq!(image_kind("a.gif"), Some(ImageKind::Gif));
    assert_eq!(image_kind("C:/X/Y.GIF"), Some(ImageKind::Gif));
    assert_eq!(image_kind("anim.GiF"), Some(ImageKind::Gif));
    assert_eq!(image_kind(".gif"), Some(ImageKind::Gif));
    assert_eq!(image_kind("face.png"), Some(ImageKind::Still));
    assert_eq!(image_kind("face.webp"), Some(ImageKind::Still));
    assert_eq!(image_kind("gif"), Some(ImageKind::Still));
    assert_eq!(image_kind("a.gifx"), Some(ImageKind::Still));
    assert_eq!(image_kind("ü.gif"), Some(ImageKind::Gif));
}

#[test]
fn still_needs_pixels() {
    assert!(ImageAsset::still("f", 0, 10).is_none());
    assert!(ImageAsset::still("f", 10, 0).is_none());
    let a = ImageAsset::still("f", 1, 1).unwrap();
    assert_eq!(*a.current_texture(0), "f");
    assert_eq!(*a.current_texture(123_456), "f");
}

#[test]
fn animation_needs_frames() {
    let a: Option<ImageAsset<u8>> = ImageAsset::animated(vec![], vec![], None);
    assert!(a.is_none());
}

fn three_frames(plays: Option<u32>) -> ImageAsset<&'static str> {
    // Frames shown for 100 ms, 50 ms and 100 ms.
    ImageAsset::animated(vec!["a", "b", "c"], vec![(100, 1), (50, 1), (100, 1)], plays).unwrap()
}

#[test]
fn frames_follow_their_delays() {
    let a = three_frames(None);
    assert_eq!(*a.current_texture(0), "a");
    assert_eq!(*a.current_texture(99), "a");
    assert_eq!(*a.current_texture(100), "b");
    assert_eq!(*a.current_texture(149), "b");
    assert_eq!(*a.current_texture(150), "c");
    assert_eq!(*a.current_texture(249), "c");
}

#[test]
fn looping_animation_starts_over() {
    let a = three_frames(None);
    assert_eq!(*a.current_texture(250), "a");
    assert_eq!(*a.current_texture(360), "b");
    for t in 0..250u128 {
        assert_eq!(a.current_texture(t), a.current_texture(t + 250));
    }
}

#[test]
fn finished_animation_holds_last_frame() {
    let a = three_frames(Some(2));
    assert_eq!(*a.current_texture(260), "a");
    assert_eq!(*a.current_texture(499), "c");
    assert_eq!(*a.current_texture(500), "c");
    assert_eq!(*a.current_texture(10_000), "c");
}

#[test]
fn short_delays_are_stretched() {
    // A delay of 5 ms is shown for 20 ms, one without denominator for 100 ms.
    let a = ImageAsset::animated(vec![1u8, 2, 3], vec![(5, 1), (3, 0), (40, 2)], None).unwrap();
    assert_eq!(*a.current_texture(19), 1);
    assert_eq!(*a.current_texture(20), 2);
    assert_eq!(*a.current_texture(119), 2);
    assert_eq!(*a.current_texture(120), 3);
    assert_eq!(*a.current_texture(140), 1);
}

#[test]
fn single_frame_animation_shows_it() {
    let a = ImageAsset::animated(vec![7u8], vec![(30, 1)], Some(1)).unwrap();
    assert_eq!(*a.current_texture(0), 7);
    assert_eq!(*a.current_texture(1_000_000), 7);
}

#[test]
fn elapsed_time_is_cut_to_64_bits() {
    let a = three_frames(None);
    let beyond = (1u128 << 64) + 120;
    assert_eq!(*a.current_texture(beyond), "b");
}
