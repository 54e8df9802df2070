use image::codecs::gif::{GifEncoder, Repeat as GifRepeat};
use image::{Delay, Frame, ImageFormat, Rgba, RgbaImage};
use pngtooba::image_asset::{load_gif_bytes, load_still_bytes};
use std::io::Cursor;

fn solid(w: u32, h: u32, c: [u8; 4]) -> RgbaImage {
    RgbaImage::from_pixel(w, h, Rgba(c))
}

fn gif_bytes(repeat: GifRepeat, delays_ms: &[u32]) -> Vec<u8> {
    let colours = [[255, 0, 0, 255], [0, 0, 255, 255], [0, 255, 0, 255]];
    let mut out = Vec::new();
    {
        let mut encoder = GifEncoder::new(&mut out);
        encoder.set_repeat(repeat).unwrap();
        let frames = delays_ms.iter().enumerate().map(|(i, ms)| {
            Frame::from_parts(solid(2, 2, colours[i % 3]), 0, 0, Delay::from_numer_denom_ms(*ms, 1))
        });
        encoder.encode_frames(frames).unwrap();
    }
    out
}

fn png_bytes(img: &RgbaImage) -> Vec<u8> {
    let mut out = Vec::new();
    img.write_to(&mut Cursor::new(&mut out), ImageFormat::Png).unwrap();
    out
}

#[test]
fn gif_frames_follow_their_delays() {
    let bytes = gif_bytes(GifRepeat::Infinite, &[100, 50]);
    let asset = load_gif_bytes(&bytes).unwrap().map_frames(|c| c.into_raw());
    let first = asset.current_texture(0).clone();
    let second = asset.current_texture(100).clone();
    assert_eq!(first.len(), 2 * 2 * 4);
    assert_ne!(first, second);
    assert_eq!(*asset.current_texture(99), first);
    assert_eq!(*asset.current_texture(149), second);
    assert_eq!(*asset.current_texture(150), first);
}

#[test]
fn gif_frame_pixels_are_decoded() {
    let bytes = gif_bytes(GifRepeat::Infinite, &[100]);
    let asset = load_gif_bytes(&bytes).unwrap().map_frames(|c| (c.width(), c.height(), c.into_raw()));
    let (w, h, raw) = asset.current_texture(0).clone();
    assert_eq!((w, h), (2, 2));
    assert_eq!(&raw[0..4], &[255, 0, 0, 255]);
}

#[test]
fn gif_repeat_count_limits_plays() {
    // Repeated once: played twice, then the last frame stays.
    let bytes = gif_bytes(GifRepeat::Finite(1), &[100, 50]);
    let asset = load_gif_bytes(&bytes).unwrap().map_frames(|c| c.into_raw());
    let first = asset.current_texture(0).clone();
    let last = asset.current_texture(120).clone();
    assert_eq!(*asset.current_texture(160), first);
    assert_eq!(*asset.current_texture(300), last);
    assert_eq!(*asset.current_texture(10_000), last);
}

#[test]
fn gif_looping_forever_keeps_playing() {
    let bytes = gif_bytes(GifRepeat::Infinite, &[100, 50]);
    let asset = load_gif_bytes(&bytes).unwrap().map_frames(|c| c.into_raw());
    assert_eq!(asset.current_texture(10_000), asset.current_texture(10_000 % 150));
}

#[test]
fn gif_short_delay_is_stretched() {
    // A delay of 0 ms is shown for 20 ms.
    let bytes = gif_bytes(GifRepeat::Infinite, &[0, 100]);
    let asset = load_gif_bytes(&bytes).unwrap().map_frames(|c| c.into_raw());
    let first = asset.current_texture(0).clone();
    assert_eq!(*asset.current_texture(19), first);
    assert_ne!(*asset.current_texture(20), first);
    assert_eq!(*asset.current_texture(120), first);
}

#[test]
fn gif_garbage_is_refused() {
    assert!(load_gif_bytes(b"not a gif").is_none());
    assert!(load_gif_bytes(&[]).is_none());
}

#[test]
fn still_png_is_decoded() {
    let mut img = solid(3, 2, [10, 20, 30, 255]);
    img.put_pixel(2, 1, Rgba([1, 2, 3, 4]));
    let bytes = png_bytes(&img);
    let asset = load_still_bytes(&bytes, "face.PNG").unwrap().map_frames(|c| c.into_raw());
    assert_eq!(*asset.current_texture(0), img.as_raw().clone());
    assert_eq!(*asset.current_texture(5_000), img.as_raw().clone());
}

#[test]
fn still_needs_known_extension() {
    let bytes = png_bytes(&solid(1, 1, [0, 0, 0, 255]));
    assert!(load_still_bytes(&bytes, "face.txt").is_none());
    assert!(load_still_bytes(&bytes, "face").is_none());
    assert!(load_still_bytes(&bytes, "face.png").is_some());
}

#[test]
fn still_garbage_is_refused() {
    assert!(load_still_bytes(b"garbage", "face.png").is_none());
}

#[test]
fn still_gif_decodes_first_frame() {
    let bytes = gif_bytes(GifRepeat::Infinite, &[100, 50]);
    let asset = load_still_bytes(&bytes, "anim.gif").unwrap().map_frames(|c| c.into_raw());
    assert_eq!(asset.current_texture(0).len(), 16);
}
