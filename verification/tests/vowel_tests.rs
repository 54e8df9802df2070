use pngtooba::float_bits::{gt, total_key};
use pngtooba::vowel::{nearest_vowel_by_distance, peak_bin, Vowel};

fn bits(values: [f32; 5]) -> [u32; 5] {
    values.map(f32::to_bits)
}

#[test]
fn vowel_indices_follow_all() {
    for (i, v) in Vowel::ALL.iter().enumerate() {
        assert_eq!(v.index(), i);
    }
    assert_eq!(Vowel::ALL, [Vowel::A, Vowel::E, Vowel::I, Vowel::O, Vowel::U]);
}

#[test]
fn vowel_settings_keys() {
    assert_eq!(Vowel::A.settings_key(), "vowel_a_image");
    assert_eq!(Vowel::E.settings_key(), "vowel_e_image");
    assert_eq!(Vowel::I.settings_key(), "vowel_i_image");
    assert_eq!(Vowel::O.settings_key(), "vowel_o_image");
    assert_eq!(Vowel::U.settings_key(), "vowel_u_image");
}

#[test]
fn vowel_settings_keys_are_distinct() {
    for a in Vowel::ALL {
        for b in Vowel::ALL {
            if a != b {
                assert_ne!(a.settings_key(), b.settings_key());
            }
        }
    }
}

#[test]
fn vowel_labels() {
    let labels: Vec<&str> = Vowel::ALL.iter().map(|v| v.label()).collect();
    assert_eq!(labels, vec!["A", "E", "I", "O", "U"]);
}

#[test]
fn nearest_takes_smallest_distance() {
    assert_eq!(nearest_vowel_by_distance(bits([9.0, 8.0, 1.5, 4.0, 7.0])), Vowel::I);
    assert_eq!(nearest_vowel_by_distance(bits([0.5, 8.0, 1.5, 4.0, 7.0])), Vowel::A);
    assert_eq!(nearest_vowel_by_distance(bits([9.0, 8.0, 1.5, 4.0, 0.25])), Vowel::U);
}

#[test]
fn nearest_takes_first_of_equal_distances() {
    assert_eq!(nearest_vowel_by_distance(bits([5.0, 3.0, 3.0, 9.0, 3.0])), Vowel::E);
}

#[test]
fn nearest_orders_negative_zero_first() {
    assert_eq!(nearest_vowel_by_distance(bits([0.0, -0.0, 1.0, 2.0, 3.0])), Vowel::E);
}

#[test]
fn nearest_places_nan_beyond_infinity() {
    let d = [f32::NAN, f32::INFINITY, f32::NAN, f32::NAN, f32::NAN];
    assert_eq!(nearest_vowel_by_distance(bits(d)), Vowel::E);
}

#[test]
fn nearest_matches_total_cmp() {
    let d = [3.5f32, -1.0, 2.0, -7.5, 0.0];
    let expected = d
        .iter()
        .enumerate()
        .min_by(|a, b| a.1.total_cmp(b.1))
        .map(|(i, _)| Vowel::ALL[i])
        .unwrap();
    assert_eq!(nearest_vowel_by_distance(bits(d)), expected);
    assert_eq!(expected, Vowel::O);
}

#[test]
fn total_key_follows_total_order() {
    let values = [
        -f32::NAN,
        f32::NEG_INFINITY,
        -2.0,
        -1.0,
        -0.0,
        0.0,
        1.0,
        2.0,
        f32::INFINITY,
        f32::NAN,
    ];
    for a in values {
        for b in values {
            let by_key = total_key(a.to_bits()).cmp(&total_key(b.to_bits()));
            assert_eq!(by_key, a.total_cmp(&b), "{a} vs {b}");
        }
    }
}

#[test]
fn gt_follows_float_comparison() {
    let values = [f32::NEG_INFINITY, -2.0, -0.0, 0.0, 0.5, 2.0, f32::INFINITY, f32::NAN];
    for a in values {
        for b in values {
            assert_eq!(gt(a.to_bits(), b.to_bits()), a > b, "{a} > {b}");
        }
    }
}

#[test]
fn peak_bin_finds_strongest() {
    let mags: Vec<u32> = [0.0f32, 1.0, 5.0, 2.0, 9.0, 3.0].iter().map(|m| m.to_bits()).collect();
    assert_eq!(peak_bin(&mags, 1, 5), Some(4));
    assert_eq!(peak_bin(&mags, 1, 3), Some(2));
}

#[test]
fn peak_bin_keeps_first_of_equal() {
    let mags: Vec<u32> = [0.0f32, 4.0, 1.0, 4.0, 2.0].iter().map(|m| m.to_bits()).collect();
    assert_eq!(peak_bin(&mags, 1, 4), Some(1));
}

#[test]
fn peak_bin_clips_to_magnitudes() {
    let mags: Vec<u32> = [0.0f32, 1.0, 2.0, 7.0].iter().map(|m| m.to_bits()).collect();
    assert_eq!(peak_bin(&mags, 1, 100), Some(3));
}

#[test]
fn peak_bin_needs_two_bins() {
    let mags: Vec<u32> = [0.0f32, 1.0, 2.0, 7.0].iter().map(|m| m.to_bits()).collect();
    assert_eq!(peak_bin(&mags, 2, 2), None);
    assert_eq!(peak_bin(&mags, 3, 100), None);
    assert_eq!(peak_bin(&[], 1, 10), None);
}

#[test]
fn peak_bin_nan_never_wins() {
    let mags: Vec<u32> = [0.0f32, 1.0, f32::NAN, 3.0].iter().map(|m| m.to_bits()).collect();
    assert_eq!(peak_bin(&mags, 1, 3), Some(3));
    let mags: Vec<u32> = [0.0f32, f32::NAN, 5.0, 3.0].iter().map(|m| m.to_bits()).collect();
    assert_eq!(peak_bin(&mags, 1, 3), Some(1));
}
