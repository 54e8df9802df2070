use vstd::prelude::*;

verus! {

/// An RGBA image held by the `image` crate: a decoded frame, or the canvas
/// the overlay font draws on.
#[verifier::external_body]
pub struct RgbaCanvas {
    img: image::RgbaImage,
}

/// The pixels of a canvas: the colour, as its four channels, at each
/// coordinate `(x, y)` inside it.
pub uninterp spec fn canvas_pixels(canvas: RgbaCanvas) -> Map<(u32, u32), [u8; 4]>;

/// The `(width, height)` a canvas was made with.
pub uninterp spec fn canvas_size(canvas: RgbaCanvas) -> (u32, u32);

/// The coordinates inside an image of the given size.
pub open spec fn in_bounds(width: u32, height: u32) -> Set<(u32, u32)> {
    Set::new(|p: (u32, u32)| p.0 < width && p.1 < height)
}

/// A canvas holds a pixel at exactly the coordinates inside it.
pub open spec fn canvas_wf(canvas: RgbaCanvas) -> bool {
    canvas_pixels(canvas).dom() == in_bounds(canvas_size(canvas).0, canvas_size(canvas).1)
}

/// A canvas is `width` by `height` pixels whose colours are `bytes`, four
/// per pixel (red, green, blue, alpha), row after row.
pub open spec fn canvas_matches(canvas: RgbaCanvas, width: u32, height: u32, bytes: Seq<u8>) -> bool {
    &&& canvas_size(canvas) == (width, height)
    &&& bytes.len() == 4 * width * height
    &&& canvas_wf(canvas)
    &&& forall|x: u32, y: u32|
        #![trigger canvas_pixels(canvas)[(x, y)]]
        in_bounds(width, height).contains((x, y)) ==> canvas_pixels(canvas)[(x, y)]@
            == bytes.subrange(byte_offset(width, x, y), byte_offset(width, x, y) + 4)
}

/// Position of the first byte of pixel `(x, y)` in the row-major RGBA bytes
/// of an image `width` pixels wide.
pub open spec fn byte_offset(width: u32, x: u32, y: u32) -> int {
    4 * (y * width + x)
}

/// `ImageBuffer::from_pixel`: its source builds a `width` by `height` buffer
/// and sets every pixel to `color`. It panics when the buffer's byte length
/// does not fit, which `requires` rules out.
#[verifier::external_body]
fn canvas_from_pixel(width: u32, height: u32, color: [u8; 4]) -> (canvas: RgbaCanvas)
    requires
        4 * width * height <= isize::MAX,
    ensures
        canvas_size(canvas) == (width, height),
        canvas_pixels(canvas) == Map::new(
            |p: (u32, u32)| in_bounds(width, height).contains(p),
            |p: (u32, u32)| color,
        ),
{
    RgbaCanvas { img: image::RgbaImage::from_pixel(width, height, image::Rgba(color)) }
}

/// `ImageBuffer::width`: returns the width the image was made with.
#[verifier::external_body]
pub(crate) fn canvas_width(canvas: &RgbaCanvas) -> (w: u32)
    ensures
        w == canvas_size(*canvas).0,
{
    canvas.img.width()
}

/// `ImageBuffer::height`: returns the height the image was made with.
#[verifier::external_body]
pub(crate) fn canvas_height(canvas: &RgbaCanvas) -> (h: u32)
    ensures
        h == canvas_size(*canvas).1,
{
    canvas.img.height()
}

/// `ImageBuffer::put_pixel`: overwrites the pixel at `(x, y)` and nothing
/// else; the size stays. It panics outside the image, which `requires` rules
/// out.
#[verifier::external_body]
pub(crate) fn canvas_put_pixel(canvas: &mut RgbaCanvas, x: u32, y: u32, color: [u8; 4])
    requires
        x < canvas_size(*old(canvas)).0,
        y < canvas_size(*old(canvas)).1,
    ensures
        canvas_size(*final(canvas)) == canvas_size(*old(canvas)),
        canvas_pixels(*final(canvas)).dom() == canvas_pixels(*old(canvas)).dom(),
        canvas_pixels(*final(canvas)) == canvas_pixels(*old(canvas)).insert((x, y), color),
{
    canvas.img.put_pixel(x, y, image::Rgba(color))
}

/// `ImageBuffer::into_raw`: hands out the buffer's bytes. A canvas is made
/// only by `from_pixel`, by the GIF frame iterator or by decoding a still
/// image to RGBA; each of these builds a buffer of exactly four bytes per
/// pixel, row after row, each pixel's four channels in order.
#[verifier::external_body]
fn canvas_into_raw(canvas: RgbaCanvas) -> (bytes: Vec<u8>)
    ensures
        bytes@.len() == 4 * canvas_size(canvas).0 * canvas_size(canvas).1,
        forall|x: u32, y: u32, k: int|
            #![trigger canvas_pixels(canvas)[(x, y)][k], byte_offset(canvas_size(canvas).0, x, y)]
            in_bounds(canvas_size(canvas).0, canvas_size(canvas).1).contains((x, y)) && 0 <= k < 4
                ==> bytes@[byte_offset(canvas_size(canvas).0, x, y) + k]
                == canvas_pixels(canvas)[(x, y)][k],
{
    canvas.img.into_raw()
}

/// The frames the `image` crate's GIF decoder yields for a file's bytes,
/// each composited over the earlier ones at the size of the GIF's screen:
/// its width, height, RGBA bytes row after row, and the numerator and
/// denominator of its delay in milliseconds. `None` when the header or any
/// frame fails to decode.
pub uninterp spec fn gif_frames(bytes: Seq<u8>) -> Option<Seq<(u32, u32, Seq<u8>, u32, u32)>>;

/// The image the `image` crate decodes from a file's bytes in the format
/// that the extension of the file's path names, converted to RGBA: width,
/// height and bytes row after row. `None` when the extension names no
/// format or decoding fails.
pub uninterp spec fn still_image(bytes: Seq<u8>, path: Seq<char>) -> Option<(u32, u32, Seq<u8>)>;

/// `GifDecoder::new`, then `into_frames` and `collect_frames`: decodes every
/// frame of a GIF, as RGBA, with its delay (`Delay::numer_denom_ms`).
/// Every frame buffer the decoder builds holds exactly four bytes per pixel.
#[verifier::external_body]
pub(crate) fn decode_gif_frames(bytes: &[u8]) -> (frames: Option<Vec<(RgbaCanvas, (u32, u32))>>)
    ensures
        frames is Some <==> gif_frames(bytes@) is Some,
        frames matches Some(v) ==> {
            let fs = gif_frames(bytes@)->0;
            &&& v@.len() == fs.len()
            &&& forall|i: int|
                0 <= i < fs.len() ==> canvas_matches(#[trigger] v@[i].0, fs[i].0, fs[i].1, fs[i].2)
                    && v@[i].1 == (fs[i].3, fs[i].4)
        },
{
    let decoder = image::codecs::gif::GifDecoder::new(std::io::Cursor::new(bytes)).ok()?;
    let frames = image::AnimationDecoder::into_frames(decoder).collect_frames().ok()?;
    Some(
        frames.into_iter().map(|f| {
            let delay = f.delay().numer_denom_ms();
            (RgbaCanvas { img: f.into_buffer() }, delay)
        }).collect(),
    )
}

/// `ImageFormat::from_path` and `load_from_memory_with_format`, then
/// `DynamicImage::into_rgba8`: what `image::open` does with the file's
/// bytes in hand. The decoded buffer holds exactly four bytes per pixel.
#[verifier::external_body]
pub(crate) fn decode_still(bytes: &[u8], path: &str) -> (canvas: Option<RgbaCanvas>)
    ensures
        canvas is Some <==> still_image(bytes@, path@) is Some,
        canvas matches Some(c) ==> {
            let s = still_image(bytes@, path@)->0;
            canvas_matches(c, s.0, s.1, s.2)
        },
{
    let format = image::ImageFormat::from_path(path).ok()?;
    let img = image::load_from_memory_with_format(bytes, format).ok()?;
    Some(RgbaCanvas { img: img.into_rgba8() })
}

impl RgbaCanvas {
    /// A canvas of the given size with every pixel set to `color`.
    pub fn filled(width: u32, height: u32, color: [u8; 4]) -> (canvas: RgbaCanvas)
        requires
            4 * width * height <= isize::MAX,
        ensures
            canvas_wf(canvas),
            canvas_size(canvas) == (width, height),
            canvas_pixels(canvas) == Map::new(
                |p: (u32, u32)| in_bounds(width, height).contains(p),
                |p: (u32, u32)| color,
            ),
    {
        let canvas = canvas_from_pixel(width, height, color);
        assert(canvas_pixels(canvas).dom() =~= in_bounds(width, height));
        canvas
    }

    /// The canvas's width.
    pub fn width(&self) -> (w: u32)
        ensures
            w == canvas_size(*self).0,
    {
        canvas_width(self)
    }

    /// The canvas's height.
    pub fn height(&self) -> (h: u32)
        ensures
            h == canvas_size(*self).1,
    {
        canvas_height(self)
    }

    /// The canvas's bytes: four per pixel (red, green, blue, alpha), row
    /// after row.
    pub fn into_raw(self) -> (bytes: Vec<u8>)
        ensures
            bytes@.len() == 4 * canvas_size(self).0 * canvas_size(self).1,
            forall|x: u32, y: u32, k: int|
                #![trigger canvas_pixels(self)[(x, y)][k], byte_offset(canvas_size(self).0, x, y)]
                in_bounds(canvas_size(self).0, canvas_size(self).1).contains((x, y)) && 0 <= k < 4
                    ==> bytes@[byte_offset(canvas_size(self).0, x, y) + k]
                    == canvas_pixels(self)[(x, y)][k],
    {
        canvas_into_raw(self)
    }
}

} // verus!
