use vstd::prelude::*;
use crate::config::InternalConfig;
use crate::error::HomieError;
use image::AnimationDecoder;
use vstd::arithmetic::div_mod::{lemma_fundamental_div_mod, lemma_fundamental_div_mod_converse};

verus! {

/// One frame of a GIF animation: an RGBA image of `width` × `height` pixels,
/// four bytes a pixel, row by row; its offset in the animation; and how long
/// it shows, `delay_numer_ms / delay_denom_ms` milliseconds.
pub struct GifFrame {
    pub width: u32,
    pub height: u32,
    pub left: u32,
    pub top: u32,
    pub delay_numer_ms: u32,
    pub delay_denom_ms: u32,
    pub pixels: Vec<u8>,
}

/// What a [`GifFrame`] holds.
pub struct FrameView {
    pub width: u32,
    pub height: u32,
    pub left: u32,
    pub top: u32,
    pub delay_numer_ms: u32,
    pub delay_denom_ms: u32,
    pub pixels: Seq<u8>,
}

impl View for GifFrame {
    type V = FrameView;

    open spec fn view(&self) -> FrameView {
        FrameView {
            width: self.width,
            height: self.height,
            left: self.left,
            top: self.top,
            delay_numer_ms: self.delay_numer_ms,
            delay_denom_ms: self.delay_denom_ms,
            pixels: self.pixels@,
        }
    }
}

/// The frames that `image` decodes from the GIF file `bytes`; `None` where
/// it reports an error.
pub uninterp spec fn decoded_gif(bytes: Seq<u8>) -> Option<Seq<FrameView>>;

/// The pixels of a `w` × `h` RGBA image upside down: row `y` of the result
/// is row `h - 1 - y` of `p`.
pub open spec fn flip_rows(w: int, h: int, p: Seq<u8>) -> Seq<u8> {
    Seq::new(
        (4 * w * h) as nat,
        |i: int| p[4 * ((h - 1 - (i / 4) / w) * w + (i / 4) % w) + i % 4],
    )
}

/// The pixels of a `w` × `h` RGBA image mirrored: column `x` of the result
/// is column `w - 1 - x` of `p`.
pub open spec fn flip_columns(w: int, h: int, p: Seq<u8>) -> Seq<u8> {
    Seq::new(
        (4 * w * h) as nat,
        |i: int| p[4 * (((i / 4) / w) * w + (w - 1 - (i / 4) % w)) + i % 4],
    )
}

/// `frame` as it is shown with the given flips: unchanged when neither is
/// asked for, else turned upside down first if asked, then mirrored if asked.
pub open spec fn transformed(f: FrameView, flip_vertical: bool, flip_horizontal: bool) -> FrameView {
    if !flip_vertical && !flip_horizontal {
        f
    } else {
        let upside = if flip_vertical {
            flip_rows(f.width as int, f.height as int, f.pixels)
        } else {
            f.pixels
        };
        FrameView {
            pixels: if flip_horizontal {
                flip_columns(f.width as int, f.height as int, upside)
            } else {
                upside
            },
            ..f
        }
    }
}

/// `f` prepared for display: flipped as configured, and, where a frame rate
/// is configured, shown for `1000 / fps` milliseconds.
pub open spec fn prepared(f: FrameView, config: InternalConfig) -> FrameView {
    let t = transformed(f, config.flip_vertical, config.flip_horizontal);
    match config.fps {
        Some(fps) => FrameView {
            delay_numer_ms: (1000int / (fps as int)) as u32,
            delay_denom_ms: 1,
            ..t
        },
        None => t,
    }
}

/// Decodes a GIF file with `image` (`GifDecoder::new` on the bytes, then
/// `into_frames` and `collect_frames`), taking each frame's image buffer,
/// offset and delay. The frames are those named by [`decoded_gif`]; each
/// image buffer holds at least its four bytes a pixel, as `image`'s buffers
/// always do. Which error comes back on failure is not stated.
#[verifier::external_body]
fn decode_gif(bytes: &[u8]) -> (r: Result<Vec<GifFrame>, image::ImageError>)
    ensures
        match decoded_gif(bytes@) {
            Some(frames) => r matches Ok(v) && v@.map_values(|f: GifFrame| f@) == frames,
            None => r is Err,
        },
        r matches Ok(v) ==> forall|i: int|
            0 <= i < v.len() ==> #[trigger] v[i].pixels.len() >= 4 * v[i].width * v[i].height,
{
    let decoder = image::codecs::gif::GifDecoder::new(std::io::Cursor::new(bytes))?;
    let frames = decoder.into_frames().collect_frames()?;
    Ok(frames.into_iter().map(|f| {
        let (delay_numer_ms, delay_denom_ms) = f.delay().numer_denom_ms();
        let (left, top) = (f.left(), f.top());
        let buffer = f.into_buffer();
        let (width, height) = buffer.dimensions();
        GifFrame { width, height, left, top, delay_numer_ms, delay_denom_ms, pixels: buffer.into_raw() }
    }).collect())
}

/// `image::imageops::flip_vertical` on the `width` × `height` RGBA image
/// held in `pixels`: the image upside down, as a new buffer of exactly
/// four bytes a pixel.
#[verifier::external_body]
fn flip_vertical(width: u32, height: u32, pixels: Vec<u8>) -> (r: Vec<u8>)
    requires
        pixels.len() >= 4 * width * height,
    ensures
        r@ == flip_rows(width as int, height as int, pixels@),
{
    let image = image::RgbaImage::from_raw(width, height, pixels).unwrap();
    image::imageops::flip_vertical(&image).into_raw()
}

/// `image::imageops::flip_horizontal` on the `width` × `height` RGBA image
/// held in `pixels`: the image mirrored left to right, as a new buffer of
/// exactly four bytes a pixel.
#[verifier::external_body]
fn flip_horizontal(width: u32, height: u32, pixels: Vec<u8>) -> (r: Vec<u8>)
    requires
        pixels.len() >= 4 * width * height,
    ensures
        r@ == flip_columns(width as int, height as int, pixels@),
{
    let image = image::RgbaImage::from_raw(width, height, pixels).unwrap();
    image::imageops::flip_horizontal(&image).into_raw()
}

/// Flips a frame as the configuration asks (see [`transformed`]).
pub fn transform(f: GifFrame, config: &InternalConfig) -> (r: GifFrame)
    requires
        f.pixels.len() >= 4 * f.width * f.height,
    ensures
        r@ == transformed(f@, config.flip_vertical, config.flip_horizontal),
{
    if !config.flip_vertical && !config.flip_horizontal {
        f
    } else {
        let GifFrame { width, height, left, top, delay_numer_ms, delay_denom_ms, pixels } = f;
        let mut pixels = pixels;
        if config.flip_vertical {
            pixels = flip_vertical(width, height, pixels);
            assert(pixels.len() == 4 * width * height);
        }
        if config.flip_horizontal {
            pixels = flip_horizontal(width, height, pixels);
        }
        GifFrame { width, height, left, top, delay_numer_ms, delay_denom_ms, pixels }
    }
}

/// Decodes a GIF file into its frames, in order, each with an image buffer
/// of at least four bytes a pixel. Fails with
/// [`HomieError::GifDecodingFailed`] exactly when `image` cannot decode the
/// file.
pub fn decode_frames(bytes: &[u8]) -> (r: Result<Vec<GifFrame>, HomieError>)
    ensures
        match decoded_gif(bytes@) {
            Some(frames) => r matches Ok(v) && v@.map_values(|f: GifFrame| f@) == frames,
            None => r matches Err(HomieError::GifDecodingFailed(_)),
        },
        r matches Ok(v) ==> forall|i: int|
            0 <= i < v.len() ==> #[trigger] v[i].pixels.len() >= 4 * v[i].width * v[i].height,
{
    match decode_gif(bytes) {
        Ok(frames) => Ok(frames),
        Err(e) => Err(HomieError::GifDecodingFailed(e)),
    }
}

/// Prepares decoded frames for display, each as [`prepared`] says. A frame
/// rate of 0 cannot be applied to any frame.
pub fn prepare_frames(frames: Vec<GifFrame>, config: &InternalConfig) -> (r: Vec<GifFrame>)
    requires
        config.fps != Some(0u32) || frames.len() == 0,
        forall|i: int|
            0 <= i < frames.len() ==> #[trigger] frames[i].pixels.len() >= 4 * frames[i].width
                * frames[i].height,
    ensures
        r@.map_values(|f: GifFrame| f@) == frames@.map_values(
            |f: GifFrame| prepared(f@, *config),
        ),
{
    let ghost input = frames@;
    let mut out: Vec<GifFrame> = Vec::new();
    for f in it: frames.into_iter()
        invariant
            it.seq() == input,
            config.fps != Some(0u32) || input.len() == 0,
            forall|i: int|
                0 <= i < input.len() ==> #[trigger] input[i].pixels.len() >= 4 * input[i].width
                    * input[i].height,
            out.len() == it.index(),
            forall|i: int|
                0 <= i < it.index() ==> #[trigger] out@[i]@ == prepared(input[i]@, *config),
    {
        assert(f == input[it.index() as int]);
        let mut g = transform(f, config);
        if let Some(fps) = config.fps {
            g.delay_numer_ms = (1000 / (fps as u64)) as u32;
            g.delay_denom_ms = 1;
        }
        out.push(g);
    }
    assert(out@.map_values(|f: GifFrame| f@) == input.map_values(
        |f: GifFrame| prepared(f@, *config),
    ));
    out
}

/// Whether a frame rate of 0 would have to be applied to the frames of `bytes`.
pub open spec fn zero_rate_with_frames(bytes: Seq<u8>, config: InternalConfig) -> bool {
    &&& config.fps == Some(0u32)
    &&& decoded_gif(bytes) matches Some(f)
    &&& f.len() > 0
}

/// Decodes a GIF file and prepares its frames for display (see [`prepared`]).
/// Fails with [`HomieError::GifDecodingFailed`] exactly when `image` cannot
/// decode the file. A frame rate of 0 can only be given for a file that does
/// not decode or has no frames.
pub fn load_gif(bytes: &[u8], config: &InternalConfig) -> (r: Result<Vec<GifFrame>, HomieError>)
    requires
        !zero_rate_with_frames(bytes@, *config),
    ensures
        match decoded_gif(bytes@) {
            Some(frames) => r matches Ok(v) && v@.map_values(|f: GifFrame| f@) == frames.map_values(
                |f: FrameView| prepared(f, *config),
            ),
            None => r matches Err(HomieError::GifDecodingFailed(_)),
        },
{
    let frames = decode_frames(bytes)?;
    let ghost input = frames@;
    let out = prepare_frames(frames, config);
    assert(input.map_values(|f: GifFrame| prepared(f@, *config)) == decoded_gif(
        bytes@,
    )->0.map_values(|f: FrameView| prepared(f, *config)));
    Ok(out)
}

/// [`load_gif`] where it can be done: `None` when a frame rate of 0 would
/// have to be applied to frames of the file, else what [`load_gif`] gives.
/// The file is decoded once to count its frames and once more to load it.
pub fn load_gif_checked(bytes: &[u8], config: &InternalConfig) -> (r: Option<
    Result<Vec<GifFrame>, HomieError>,
>)
    ensures
        zero_rate_with_frames(bytes@, *config) ==> r is None,
        !zero_rate_with_frames(bytes@, *config) ==> (r matches Some(res) && match decoded_gif(
            bytes@,
        ) {
            Some(frames) => res matches Ok(v) && v@.map_values(|f: GifFrame| f@)
                == frames.map_values(|f: FrameView| prepared(f, *config)),
            None => res matches Err(HomieError::GifDecodingFailed(_)),
        }),
{
    if config.fps == Some(0u32) {
        match decode_frames(bytes) {
            Ok(frames) => {
                if frames.len() > 0 {
                    return None;
                }
            },
            Err(_) => {},
        }
    }
    Some(load_gif(bytes, config))
}

/// Byte `i` of a `w` × `h` RGBA image is channel `i % 4` of the pixel in
/// column `(i / 4) % w` and row `(i / 4) / w`.
proof fn lemma_index_parts(i: int, w: int, h: int)
    requires
        w > 0,
        h > 0,
        0 <= i < 4 * w * h,
    ensures
        0 <= (i / 4) / w < h,
        0 <= (i / 4) % w < w,
        0 <= i % 4 < 4,
        i == 4 * (((i / 4) / w) * w + (i / 4) % w) + i % 4,
{
    let k = i / 4;
    lemma_fundamental_div_mod(i, 4);
    lemma_fundamental_div_mod(k, w);
    let y = k / w;
    let x = k % w;
    assert(0 <= k < w * h) by (nonlinear_arith)
        requires
            i == 4 * k + i % 4,
            0 <= i % 4 < 4,
            0 <= i < 4 * w * h,
    ;
    assert(0 <= y < h) by (nonlinear_arith)
        requires
            k == w * y + x,
            0 <= x < w,
            0 <= k < w * h,
            w > 0,
    ;
    assert(w * y == y * w) by (nonlinear_arith);
}

/// The byte for channel `c` of the pixel in column `x` and row `y`.
proof fn lemma_index_of(y: int, x: int, c: int, w: int, h: int)
    requires
        0 <= y < h,
        0 <= x < w,
        0 <= c < 4,
    ensures
        0 <= 4 * (y * w + x) + c < 4 * w * h,
        (4 * (y * w + x) + c) / 4 == y * w + x,
        (4 * (y * w + x) + c) % 4 == c,
        (y * w + x) / w == y,
        (y * w + x) % w == x,
{
    lemma_fundamental_div_mod_converse(4 * (y * w + x) + c, 4, y * w + x, c);
    lemma_fundamental_div_mod_converse(y * w + x, w, y, x);
    assert(0 <= 4 * (y * w + x) + c < 4 * w * h) by (nonlinear_arith)
        requires
            0 <= y < h,
            0 <= x < w,
            0 <= c < 4,
    ;
}

proof fn lemma_flip_rows_twice(w: int, h: int, p: Seq<u8>)
    requires
        w >= 0,
        h >= 0,
        p.len() == 4 * w * h,
    ensures
        flip_rows(w, h, flip_rows(w, h, p)) == p,
{
    let q = flip_rows(w, h, p);
    let r = flip_rows(w, h, q);
    if w > 0 && h > 0 {
        assert forall|i: int| 0 <= i < p.len() implies r[i] == p[i] by {
            lemma_index_parts(i, w, h);
            let (y, x, c) = ((i / 4) / w, (i / 4) % w, i % 4);
            lemma_index_of(h - 1 - y, x, c, w, h);
        }
    } else {
        assert(4 * w * h == 0) by (nonlinear_arith)
            requires
                w == 0 || h == 0,
        ;
    }
    assert(r =~= p);
}

proof fn lemma_flip_columns_twice(w: int, h: int, p: Seq<u8>)
    requires
        w >= 0,
        h >= 0,
        p.len() == 4 * w * h,
    ensures
        flip_columns(w, h, flip_columns(w, h, p)) == p,
{
    let q = flip_columns(w, h, p);
    let r = flip_columns(w, h, q);
    if w > 0 && h > 0 {
        assert forall|i: int| 0 <= i < p.len() implies r[i] == p[i] by {
            lemma_index_parts(i, w, h);
            let (y, x, c) = ((i / 4) / w, (i / 4) % w, i % 4);
            lemma_index_of(y, w - 1 - x, c, w, h);
        }
    } else {
        assert(4 * w * h == 0) by (nonlinear_arith)
            requires
                w == 0 || h == 0,
        ;
    }
    assert(r =~= p);
}

proof fn lemma_flips_commute(w: int, h: int, p: Seq<u8>)
    requires
        w >= 0,
        h >= 0,
        p.len() == 4 * w * h,
    ensures
        flip_rows(w, h, flip_columns(w, h, p)) == flip_columns(w, h, flip_rows(w, h, p)),
{
    let a = flip_rows(w, h, flip_columns(w, h, p));
    let b = flip_columns(w, h, flip_rows(w, h, p));
    if w > 0 && h > 0 {
        assert forall|i: int| 0 <= i < a.len() implies a[i] == b[i] by {
            lemma_index_parts(i, w, h);
            let (y, x, c) = ((i / 4) / w, (i / 4) % w, i % 4);
            lemma_index_of(h - 1 - y, x, c, w, h);
            lemma_index_of(y, w - 1 - x, c, w, h);
        }
    } else {
        assert(4 * w * h == 0) by (nonlinear_arith)
            requires
                w == 0 || h == 0,
        ;
    }
    assert(a =~= b);
}

/// Flipping a frame the same way twice gives it back, for a frame whose
/// buffer holds exactly four bytes a pixel (a longer buffer loses its extra
/// bytes on the first flip).
pub proof fn lemma_transform_twice(f: FrameView, flip_vertical: bool, flip_horizontal: bool)
    requires
        f.pixels.len() == 4 * f.width * f.height,
    ensures
        transformed(transformed(f, flip_vertical, flip_horizontal), flip_vertical, flip_horizontal)
            == f,
{
    let (w, h, p) = (f.width as int, f.height as int, f.pixels);
    lemma_flip_rows_twice(w, h, p);
    lemma_flip_columns_twice(w, h, p);
    let v = flip_rows(w, h, p);
    assert(v.len() == 4 * w * h);
    lemma_flip_columns_twice(w, h, v);
    let vh = flip_columns(w, h, v);
    assert(vh.len() == 4 * w * h);
    lemma_flips_commute(w, h, vh);
    lemma_flip_columns_twice(w, h, flip_rows(w, h, vh));
    assert(flip_rows(w, h, vh) == flip_columns(w, h, p)) by {
        lemma_flips_commute(w, h, p);
        lemma_flip_rows_twice(w, h, flip_columns(w, h, p));
        assert(flip_columns(w, h, p).len() == 4 * w * h);
    }
    let g = transformed(f, flip_vertical, flip_horizontal);
    assert(transformed(g, flip_vertical, flip_horizontal) =~~= f);
}

/// Flipping moves pixels and nothing else, for an image of any size: with
/// a vertical flip, the pixel in column `x` and row `y` of the result is the
/// input's pixel in column `x` and row `height - 1 - y`; with a horizontal
/// flip it is the one in column `width - 1 - x`; with both, the one in
/// column `width - 1 - x` and row `height - 1 - y`. Without flips the frame
/// is unchanged. Size, offset and delay are always kept.
pub proof fn lemma_flips_move_pixels(
    f: FrameView,
    flip_vertical: bool,
    flip_horizontal: bool,
    x: int,
    y: int,
    c: int,
)
    requires
        f.pixels.len() >= 4 * f.width * f.height,
        0 <= x < f.width,
        0 <= y < f.height,
        0 <= c < 4,
    ensures
        ({
            let (w, h) = (f.width as int, f.height as int);
            let g = transformed(f, flip_vertical, flip_horizontal);
            let sx = if flip_horizontal { w - 1 - x } else { x };
            let sy = if flip_vertical { h - 1 - y } else { y };
            &&& g.width == f.width && g.height == f.height
            &&& g.left == f.left && g.top == f.top
            &&& g.delay_numer_ms == f.delay_numer_ms && g.delay_denom_ms == f.delay_denom_ms
            &&& (flip_vertical || flip_horizontal ==> g.pixels.len() == 4 * w * h)
            &&& (!flip_vertical && !flip_horizontal ==> g == f)
            &&& g.pixels[4 * (y * w + x) + c] == f.pixels[4 * (sy * w + sx) + c]
        }),
{
    let (w, h) = (f.width as int, f.height as int);
    let p = f.pixels;
    lemma_index_of(y, x, c, w, h);
    lemma_index_of(h - 1 - y, x, c, w, h);
    lemma_index_of(y, w - 1 - x, c, w, h);
    lemma_index_of(h - 1 - y, w - 1 - x, c, w, h);
    if flip_vertical && flip_horizontal {
        let v = flip_rows(w, h, p);
        assert(v.len() == 4 * w * h);
        let i = 4 * (y * w + x) + c;
        let j = 4 * (y * w + (w - 1 - x)) + c;
        assert(flip_columns(w, h, v)[i] == v[j]);
        assert(v[j] == p[4 * ((h - 1 - y) * w + (w - 1 - x)) + c]);
    }
}

/// With a frame rate, every frame shows for `1000 / fps` milliseconds
/// whatever its own delay; without one, each keeps the delay it was
/// decoded with. Its pixels are flipped as configured either way.
pub proof fn lemma_frame_rate_sets_delay(f: FrameView, config: InternalConfig)
    requires
        config.fps != Some(0u32),
    ensures
        ({
            let g = prepared(f, config);
            &&& (config.fps matches Some(fps) ==> g.delay_numer_ms == 1000int / (fps as int)
                && g.delay_denom_ms == 1)
            &&& (config.fps is None ==> g.delay_numer_ms == f.delay_numer_ms && g.delay_denom_ms
                == f.delay_denom_ms)
            &&& g.pixels == transformed(f, config.flip_vertical, config.flip_horizontal).pixels
            &&& g.width == f.width && g.height == f.height && g.left == f.left && g.top == f.top
        }),
{
    if let Some(fps) = config.fps {
        assert(0 <= 1000int / (fps as int) <= 1000) by (nonlinear_arith)
            requires
                fps > 0,
        ;
    }
}

} // verus!
