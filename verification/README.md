# pngtooba

A PNG-tuber video source for OBS: it shows an idle image while silent, a
speaking image (or one per heard vowel) while talking, and an optional
overlay, with shake and bounce effects.

- `src/` is the verified library (Verus):
  - `vowel` – vowels, their settings keys and labels, the nearest vowel by
    formant distance, and the peak bin of a magnitude spectrum;
  - `float_bits` – the IEEE 754 total order and `>` on single-precision
    bit patterns;
  - `image_asset` – frame delays, GIF play counts, path kinds, decoding a
    GIF or still image from a file's bytes, and the timeline that picks the
    frame shown at a given time;
  - `source` – layers, their settings keys, the loaded images and the
    order in which layers are drawn, speaking effects, dimensions;
  - `audio` – analysis windows of samples, the capture callback's
    attachment, microphone names;
  - `profiling`, `canvas` – the pixel font and the timing overlay drawn
    with the `image` crate;
  - `chars` – ASCII case of characters, string equality.
- `app/` is the OBS plugin around it: FFI, floating-point audio analysis,
  reading image files and rendering.
- `tests/` runs the library on concrete values.
