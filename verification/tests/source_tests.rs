use pngtooba::source::{
    clear_button_name, dimension_setting, AvatarImages, Layer, SpeakingEffect,
};
use pngtooba::vowel::Vowel;

fn all_layers() -> Vec<Layer> {
    let mut layers = vec![Layer::Idle, Layer::Speaking];
    layers.extend(Vowel::ALL.iter().map(|v| Layer::Vowel(*v)));
    layers.push(Layer::Overlay);
    layers
}

#[test]
fn layer_slots_are_distinct() {
    let slots: Vec<usize> = all_layers().iter().map(|l| l.slot()).collect();
    assert_eq!(slots, vec![0, 1, 2, 3, 4, 5, 6, 7]);
}

#[test]
fn layer_keys() {
    let keys: Vec<&str> = all_layers().iter().map(|l| l.settings_key()).collect();
    assert_eq!(
        keys,
        vec![
            "idle_image",
            "speaking_image",
            "vowel_a_image",
            "vowel_e_image",
            "vowel_i_image",
            "vowel_o_image",
            "vowel_u_image",
            "overlay_image"
        ]
    );
}

#[test]
fn clear_button_names() {
    assert_eq!(clear_button_name("idle_image"), "idle_image_clear_btn");
    assert_eq!(clear_button_name(""), "_clear_btn");
}

#[test]
fn new_images_are_empty() {
    let images: AvatarImages<u8> = AvatarImages::new();
    for l in all_layers() {
        assert_eq!(images.path(l), "");
        assert!(images.asset(l).is_none());
    }
}

#[test]
fn replace_touches_one_layer() {
    let mut images: AvatarImages<u8> = AvatarImages::new();
    images.replace(Layer::Vowel(Vowel::O), "o.png".to_string(), Some(5));
    assert_eq!(images.path(Layer::Vowel(Vowel::O)), "o.png");
    assert_eq!(images.asset(Layer::Vowel(Vowel::O)), Some(&5));
    for l in all_layers() {
        if l != Layer::Vowel(Vowel::O) {
            assert_eq!(images.path(l), "");
            assert!(images.asset(l).is_none());
        }
    }
}

#[test]
fn reload_only_when_path_changes() {
    let mut images: AvatarImages<u8> = AvatarImages::new();
    assert!(!images.needs_reload(Layer::Idle, &String::new()));
    assert!(images.needs_reload(Layer::Idle, &"idle.png".to_string()));
    images.replace(Layer::Idle, "idle.png".to_string(), None);
    assert!(!images.needs_reload(Layer::Idle, &"idle.png".to_string()));
    assert!(images.needs_reload(Layer::Idle, &"idle2.png".to_string()));
}

fn full_images() -> AvatarImages<&'static str> {
    let mut images = AvatarImages::new();
    images.replace(Layer::Idle, "i".to_string(), Some("idle"));
    images.replace(Layer::Speaking, "s".to_string(), Some("speaking"));
    images.replace(Layer::Vowel(Vowel::A), "a".to_string(), Some("a"));
    images.replace(Layer::Overlay, "o".to_string(), Some("overlay"));
    images
}

#[test]
fn talking_layer_prefers_heard_vowel() {
    let images = full_images();
    assert_eq!(images.talking_layer(Some(Vowel::A), true), Some(Layer::Vowel(Vowel::A)));
    assert_eq!(images.talking_layer(Some(Vowel::E), true), Some(Layer::Speaking));
    assert_eq!(images.talking_layer(None, true), Some(Layer::Speaking));
    assert_eq!(images.talking_layer(Some(Vowel::A), false), Some(Layer::Speaking));
    let empty: AvatarImages<u8> = AvatarImages::new();
    assert_eq!(empty.talking_layer(Some(Vowel::A), true), None);
}

#[test]
fn draw_order_silent() {
    let images = full_images();
    assert_eq!(images.draw_order(false, false, Some(Vowel::A), true), vec![Layer::Idle, Layer::Overlay]);
    assert_eq!(images.draw_order(false, true, Some(Vowel::A), true), vec![Layer::Idle, Layer::Overlay]);
}

#[test]
fn draw_order_talking() {
    let images = full_images();
    assert_eq!(
        images.draw_order(true, false, Some(Vowel::A), true),
        vec![Layer::Vowel(Vowel::A), Layer::Overlay]
    );
    assert_eq!(
        images.draw_order(true, true, Some(Vowel::A), true),
        vec![Layer::Idle, Layer::Vowel(Vowel::A), Layer::Overlay]
    );
    assert_eq!(images.draw_order(true, false, None, true), vec![Layer::Speaking, Layer::Overlay]);
}

#[test]
fn draw_order_skips_missing_images() {
    let empty: AvatarImages<u8> = AvatarImages::new();
    assert!(empty.draw_order(true, true, Some(Vowel::A), true).is_empty());
    let mut images: AvatarImages<u8> = AvatarImages::new();
    images.replace(Layer::Speaking, "s".to_string(), Some(1));
    assert!(images.draw_order(false, false, None, false).is_empty());
    assert_eq!(images.draw_order(true, false, None, false), vec![Layer::Speaking]);
}

#[test]
fn effects_from_settings() {
    assert_eq!(SpeakingEffect::from_setting("shake"), SpeakingEffect::Shake);
    assert_eq!(SpeakingEffect::from_setting("bounce"), SpeakingEffect::Bounce);
    assert_eq!(SpeakingEffect::from_setting("none"), SpeakingEffect::Off);
    assert_eq!(SpeakingEffect::from_setting(""), SpeakingEffect::Off);
    assert_eq!(SpeakingEffect::from_setting("Shake"), SpeakingEffect::Off);
    assert_eq!(SpeakingEffect::from_setting("shaker"), SpeakingEffect::Off);
}

#[test]
fn effect_values_round_trip() {
    for e in [SpeakingEffect::Off, SpeakingEffect::Shake, SpeakingEffect::Bounce] {
        assert_eq!(SpeakingEffect::from_setting(e.setting_value()), e);
    }
    assert_eq!(SpeakingEffect::Off.setting_value(), "none");
}

#[test]
fn effect_controls_visibility() {
    assert!(SpeakingEffect::Shake.shows_shake_controls());
    assert!(!SpeakingEffect::Shake.shows_bounce_controls());
    assert!(SpeakingEffect::Bounce.shows_bounce_controls());
    assert!(!SpeakingEffect::Bounce.shows_shake_controls());
    assert!(!SpeakingEffect::Off.shows_shake_controls());
    assert!(!SpeakingEffect::Off.shows_bounce_controls());
}

#[test]
fn dimensions_are_clamped() {
    assert_eq!(dimension_setting(None), 512);
    assert_eq!(dimension_setting(Some(640)), 640);
    assert_eq!(dimension_setting(Some(0)), 1);
    assert_eq!(dimension_setting(Some(-5)), 1);
    assert_eq!(dimension_setting(Some(1)), 1);
    assert_eq!(dimension_setting(Some(8192)), 8192);
    assert_eq!(dimension_setting(Some(9000)), 8192);
    assert_eq!(dimension_setting(Some(i64::MAX)), 8192);
}
