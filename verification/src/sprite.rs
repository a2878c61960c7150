//! The integer side of loading the cockroach sprite frames: decoding a PNG
//! into RGBA pixels, finding the box around the pixels that are not fully
//! transparent, the one box that holds them in every frame, cropping and
//! resizing a frame, and turning RGBA into the BGRA order that the GPU
//! upload wants.
//!
//! Pixels are stored row by row, four bytes (red, green, blue, alpha) per
//! pixel; pixel `p` lies in column `p % width` and row `p / width`.

use vstd::prelude::*;

verus! {

/// An image of `width` x `height` pixels, four bytes per pixel, row by row.
pub struct PixelBuffer {
    pub width: u32,
    pub height: u32,
    pub data: Vec<u8>,
}

/// A box `(min_x, min_y, max_x, max_y)` of pixel columns and rows.
pub type Bounds = (u32, u32, u32, u32);

impl PixelBuffer {
    /// The buffer holds exactly four bytes for every pixel.
    pub open spec fn wf(&self) -> bool {
        self.data@.len() == self.width * self.height * 4
    }
}

/// Whether pixel `p` of `img` is not fully transparent.
pub open spec fn opaque(img: PixelBuffer, p: int) -> bool {
    img.data@[4 * p + 3] > 0
}

/// The column of pixel `p`.
pub open spec fn col(img: PixelBuffer, p: int) -> int {
    p % (img.width as int)
}

/// The row of pixel `p`.
pub open spec fn row(img: PixelBuffer, p: int) -> int {
    p / (img.width as int)
}

/// `b` is the tightest box around the non-transparent pixels among the
/// first `n` pixels of `img`; with none of them, it is
/// `(width, height, 0, 0)`.
pub open spec fn alpha_box_upto(img: PixelBuffer, n: int, b: Bounds) -> bool {
    &&& forall|p: int|
        0 <= p < n && #[trigger] opaque(img, p) ==> b.0 <= col(img, p) <= b.2 && b.1 <= row(img, p)
            <= b.3
    &&& (b.0 == img.width || exists|p: int| 0 <= p < n && #[trigger] opaque(img, p) && col(img, p) == b.0)
    &&& (b.1 == img.height || exists|p: int| 0 <= p < n && #[trigger] opaque(img, p) && row(img, p) == b.1)
    &&& (b.2 == 0 || exists|p: int| 0 <= p < n && #[trigger] opaque(img, p) && col(img, p) == b.2)
    &&& (b.3 == 0 || exists|p: int| 0 <= p < n && #[trigger] opaque(img, p) && row(img, p) == b.3)
}

/// `b` is the tightest box around the non-transparent pixels of `img`.
pub open spec fn is_alpha_box(img: PixelBuffer, b: Bounds) -> bool {
    alpha_box_upto(img, img.width * img.height, b)
}

/// The tightest box around the non-transparent pixels of `img`.
pub open spec fn alpha_box(img: PixelBuffer) -> Bounds {
    choose|b: Bounds| is_alpha_box(img, b)
}

/// The smallest box holding the boxes `a` and `b`.
pub open spec fn merge(a: Bounds, b: Bounds) -> Bounds {
    (
        if a.0 <= b.0 { a.0 } else { b.0 },
        if a.1 <= b.1 { a.1 } else { b.1 },
        if a.2 >= b.2 { a.2 } else { b.2 },
        if a.3 >= b.3 { a.3 } else { b.3 },
    )
}

/// The smallest box holding every box of `bs`, starting from the empty
/// box `(u32::MAX, u32::MAX, 0, 0)`.
pub open spec fn merge_all(bs: Seq<Bounds>) -> Bounds
    decreases bs.len(),
{
    if bs.len() == 0 {
        (u32::MAX, u32::MAX, 0, 0)
    } else {
        merge(merge_all(bs.drop_last()), bs.last())
    }
}

/// The boxes of the frames.
pub open spec fn frame_boxes(frames: Seq<PixelBuffer>) -> Seq<Bounds> {
    frames.map_values(|f: PixelBuffer| alpha_box(f))
}

/// The RGBA pixels that `image`'s built-in PNG decoder decodes `bytes` to
/// (as width, height and bytes), or `None` when they are no PNG it reads.
pub uninterp spec fn decoded_png(bytes: Seq<u8>) -> Option<(u32, u32, Seq<u8>)>;

/// The smaller of two numbers.
pub open spec fn min_of(a: int, b: int) -> int {
    if a <= b {
        a
    } else {
        b
    }
}

/// `out` is `img` cropped as `image::imageops::crop_imm` crops: the corner
/// is clamped into the image, the size to what is left of it.
pub open spec fn is_crop(img: PixelBuffer, x: u32, y: u32, w: u32, h: u32, out: PixelBuffer) -> bool {
    let x0 = min_of(x as int, img.width as int);
    let y0 = min_of(y as int, img.height as int);
    let cw = min_of(w as int, img.width - x0);
    let ch = min_of(h as int, img.height - y0);
    &&& out.width == cw
    &&& out.height == ch
    &&& out.wf()
    &&& forall|p: int, c: int|
        0 <= p < cw * ch && 0 <= c < 4 ==> #[trigger] out.data@[4 * p + c] == img.data@[4 * ((
        p / cw + y0) * img.width + p % cw + x0) + c]
}

/// The byte at `i` once every pixel's red and blue bytes have traded
/// places (the bytes past the last whole pixel stay).
pub open spec fn swapped_byte(data: Seq<u8>, i: int) -> u8 {
    if i >= data.len() / 4 * 4 {
        data[i]
    } else if i % 4 == 0 {
        data[i + 2]
    } else if i % 4 == 2 {
        data[i - 2]
    } else {
        data[i]
    }
}

/// Byte `k` (`0 <= k < 4`) is zero in every pixel of `img`.
pub open spec fn channel_zero(img: PixelBuffer, k: int) -> bool {
    forall|p: int| 0 <= p < img.width * img.height ==> #[trigger] img.data@[4 * p + k] == 0
}

/// Every byte position that is zero in all pixels of `src` is zero in all
/// pixels of `out`.
pub open spec fn keeps_zero_channels(src: PixelBuffer, out: PixelBuffer) -> bool {
    forall|k: int| 0 <= k < 4 && #[trigger] channel_zero(src, k) ==> channel_zero(out, k)
}

/// Where byte `k` of a pixel goes when red and blue trade places.
pub open spec fn swapped_channel(k: int) -> int {
    if k == 0 {
        2
    } else if k == 2 {
        0
    } else {
        k
    }
}

/// `image`'s `load_from_memory_with_format(.., ImageFormat::Png)` followed
/// by `into_rgba8`: the decoded pixels as width, height and RGBA bytes, or
/// `None` when the bytes are no PNG it reads. With the format fixed, the
/// crate's source goes straight to its built-in PNG decoder (no
/// format-detection or decoding hook is consulted), so the pixels depend
/// on the bytes alone; they are named by `decoded_png`. The buffer that
/// `into_rgba8` returns holds exactly four bytes per pixel.
#[verifier::external_body]
fn decode_png_rgba(bytes: &[u8]) -> (r: Option<(u32, u32, Vec<u8>)>)
    ensures
        match r {
            Some((w, h, d)) => decoded_png(bytes@) == Some((w, h, d@)) && d@.len() == w * h * 4,
            None => decoded_png(bytes@) is None,
        },
{
    match image::load_from_memory_with_format(bytes, image::ImageFormat::Png) {
        Ok(img) => {
            let rgba = img.into_rgba8();
            Some((rgba.width(), rgba.height(), rgba.into_raw()))
        },
        Err(_) => None,
    }
}

/// `image::imageops::crop_imm(..).to_image()` on an RGBA image: the crate's
/// source clamps the corner to the image and the size to what is left,
/// and copies the pixels of that region into a new buffer of exactly that
/// size; the contract says so.
#[verifier::external_body]
fn crop_rgba(img: &PixelBuffer, x: u32, y: u32, w: u32, h: u32) -> (out: PixelBuffer)
    requires
        img.wf(),
    ensures
        is_crop(*img, x, y, w, h, out),
{
    let buf = image::RgbaImage::from_raw(img.width, img.height, img.data.clone()).unwrap();
    let out = image::imageops::crop_imm(&buf, x, y, w, h).to_image();
    PixelBuffer { width: out.width(), height: out.height(), data: out.into_raw() }
}

/// `image::imageops::resize` with `FilterType::Lanczos3` on an RGBA image.
/// The crate's source allocates the result with exactly the new size (also
/// for an empty image), and copies the image unchanged when the size stays.
/// The resampled pixel values are left unsaid: the filter weights come from
/// `f32::sin`, whose precision std leaves open, so they need not be the
/// same from one machine, or one call, to the next. What holds whatever the
/// weights: each of the four bytes of an output pixel is a weighted sum of
/// the same byte of input pixels only, so a byte that is zero in every input
/// pixel sums to zero (or to NaN, which the final rounding's `unwrap` turns
/// into a panic, so the call does not return); an empty image gives a
/// zeroed buffer.
#[verifier::external_body]
fn resize_rgba(img: &PixelBuffer, new_width: u32, new_height: u32) -> (out: PixelBuffer)
    requires
        img.wf(),
        new_width > 0,
        new_height > 0,
        new_width * new_height * 4 <= usize::MAX,
        img.width * new_height * 4 <= usize::MAX,
    ensures
        out.width == new_width,
        out.height == new_height,
        out.wf(),
        (new_width == img.width && new_height == img.height) ==> out.data@ == img.data@,
        keeps_zero_channels(*img, out),
{
    let buf = image::RgbaImage::from_raw(img.width, img.height, img.data.clone()).unwrap();
    let out = image::imageops::resize(&buf, new_width, new_height, image::imageops::FilterType::Lanczos3);
    PixelBuffer { width: out.width(), height: out.height(), data: out.into_raw() }
}

/// Decodes a PNG into RGBA pixels; `None` when the bytes are no PNG that
/// `image` reads.
pub fn decode_frame(bytes: &[u8]) -> (r: Option<PixelBuffer>)
    ensures
        match r {
            Some(img) => img.wf() && decoded_png(bytes@) == Some((img.width, img.height, img.data@)),
            None => decoded_png(bytes@) is None,
        },
{
    match decode_png_rgba(bytes) {
        Some((width, height, data)) => Some(PixelBuffer { width, height, data }),
        None => None,
    }
}

/// The tightest box around the pixels of `img` that are not fully
/// transparent, as `(min_x, min_y, max_x, max_y)`; `(width, height, 0, 0)`
/// when every pixel is transparent.
pub fn alpha_bounds(img: &PixelBuffer) -> (b: Bounds)
    requires
        img.wf(),
    ensures
        is_alpha_box(*img, b),
        b == alpha_box(*img),
{
    let w = img.width;
    let h = img.height;
    let mut mnx = w;
    let mut mny = h;
    let mut mxx: u32 = 0;
    let mut mxy: u32 = 0;
    let len: usize = img.data.len();
    let n: usize = len / 4;
    assert(n == w * h);
    let mut p: usize = 0;
    while p < n
        invariant
            img.wf(),
            w == img.width,
            h == img.height,
            n == w * h,
            n == img.data@.len() / 4,
            len == img.data@.len(),
            0 <= p <= n,
            alpha_box_upto(*img, p as int, (mnx, mny, mxx, mxy)),
        decreases n - p,
    {
        assert(4 * p + 3 < len) by (nonlinear_arith)
            requires
                p < n,
                n == len / 4,
        ;
        if img.data[4 * p + 3] > 0 {
            assert(opaque(*img, p as int));
            assert(w > 0) by (nonlinear_arith)
                requires
                    p < n,
                    n == w * h,
            ;
            let x = (p % (w as usize)) as u32;
            assert(p / (w as usize) < h) by (nonlinear_arith)
                requires
                    p < w * h,
                    w > 0,
            ;
            let y = (p / (w as usize)) as u32;
            assert(x == col(*img, p as int) && y == row(*img, p as int));
            if x < mnx {
                mnx = x;
            }
            if y < mny {
                mny = y;
            }
            if x > mxx {
                mxx = x;
            }
            if y > mxy {
                mxy = y;
            }
        }
        p = p + 1;
    }
    proof {
        alpha_box_unique(*img, (mnx, mny, mxx, mxy), alpha_box(*img));
    }
    (mnx, mny, mxx, mxy)
}

/// An image has one tightest box: two boxes that both are it are equal.
pub proof fn alpha_box_unique(img: PixelBuffer, b1: Bounds, b2: Bounds)
    requires
        is_alpha_box(img, b1),
    ensures
        is_alpha_box(img, alpha_box(img)),
        is_alpha_box(img, b2) ==> b1 == b2,
{
    let n = img.width * img.height;
    alpha_box_exists(img);
    if is_alpha_box(img, b2) {
        if exists|p: int| 0 <= p < n && #[trigger] opaque(img, p) {
            let q = choose|p: int| 0 <= p < n && #[trigger] opaque(img, p);
            assert(col(img, q) < img.width) by (nonlinear_arith)
                requires
                    0 <= q < img.width * img.height,
            ;
            assert(row(img, q) < img.height) by (nonlinear_arith)
                requires
                    0 <= q < img.width * img.height,
            ;
        }
    }
}

/// The smallest box holding the non-transparent pixels of every frame:
/// the boxes of the frames merged, from the empty box
/// `(u32::MAX, u32::MAX, 0, 0)`.
pub fn sprite_bounds(frames: &Vec<PixelBuffer>) -> (b: Bounds)
    requires
        forall|i: int| 0 <= i < frames@.len() ==> #[trigger] frames@[i].wf(),
    ensures
        b == merge_all(frame_boxes(frames@)),
{
    let mut acc: Bounds = (u32::MAX, u32::MAX, 0, 0);
    let mut i: usize = 0;
    while i < frames.len()
        invariant
            0 <= i <= frames@.len(),
            forall|k: int| 0 <= k < frames@.len() ==> #[trigger] frames@[k].wf(),
            acc == merge_all(frame_boxes(frames@).take(i as int)),
        decreases frames@.len() - i,
    {
        let b = alpha_bounds(&frames[i]);
        acc = (
            if acc.0 <= b.0 { acc.0 } else { b.0 },
            if acc.1 <= b.1 { acc.1 } else { b.1 },
            if acc.2 >= b.2 { acc.2 } else { b.2 },
            if acc.3 >= b.3 { acc.3 } else { b.3 },
        );
        assert(frame_boxes(frames@).take(i + 1).drop_last() =~= frame_boxes(frames@).take(i as int));
        i = i + 1;
    }
    assert(frame_boxes(frames@).take(i as int) =~= frame_boxes(frames@));
    acc
}

/// The merged box holds every box it was merged from.
pub proof fn merge_all_holds_each(bs: Seq<Bounds>, i: int)
    requires
        0 <= i < bs.len(),
    ensures
        merge_all(bs).0 <= bs[i].0,
        merge_all(bs).1 <= bs[i].1,
        merge_all(bs).2 >= bs[i].2,
        merge_all(bs).3 >= bs[i].3,
    decreases bs.len(),
{
    if i < bs.len() - 1 {
        merge_all_holds_each(bs.drop_last(), i);
    }
}

/// Cropping every frame to `sprite_bounds` loses no pixel that is not
/// fully transparent: each lies inside the merged box.
pub proof fn sprite_bounds_cover_every_frame(frames: Seq<PixelBuffer>, i: int, p: int)
    requires
        0 <= i < frames.len(),
        0 <= p < frames[i].width * frames[i].height,
        opaque(frames[i], p),
    ensures
        ({
            let b = merge_all(frame_boxes(frames));
            &&& b.0 <= col(frames[i], p) <= b.2
            &&& b.1 <= row(frames[i], p) <= b.3
        }),
{
    let f = frames[i];
    let bs = frame_boxes(frames);
    assert(exists|b: Bounds| is_alpha_box(f, b)) by {
        alpha_box_exists(f);
    }
    merge_all_holds_each(bs, i);
}

/// The box around the non-transparent pixels among the first `n` pixels,
/// grown pixel by pixel.
spec fn scan(img: PixelBuffer, n: nat) -> Bounds
    decreases n,
{
    if n == 0 {
        (img.width, img.height, 0, 0)
    } else {
        let s = scan(img, (n - 1) as nat);
        let p = n - 1;
        if opaque(img, p) {
            let x = col(img, p) as u32;
            let y = row(img, p) as u32;
            (
                if x < s.0 { x } else { s.0 },
                if y < s.1 { y } else { s.1 },
                if x > s.2 { x } else { s.2 },
                if y > s.3 { y } else { s.3 },
            )
        } else {
            s
        }
    }
}

proof fn scan_is_box(img: PixelBuffer, n: nat)
    requires
        n <= img.width * img.height,
    ensures
        alpha_box_upto(img, n as int, scan(img, n)),
    decreases n,
{
    if n > 0 {
        let p = n - 1;
        scan_is_box(img, (n - 1) as nat);
        assert(0 <= col(img, p) < img.width && 0 <= row(img, p) < img.height) by (nonlinear_arith)
            requires
                0 <= p < img.width * img.height,
        ;
        if opaque(img, p) {
            assert(opaque(img, p));
        }
    }
}

/// Every image has its tightest box.
pub proof fn alpha_box_exists(img: PixelBuffer)
    ensures
        is_alpha_box(img, alpha_box(img)),
{
    scan_is_box(img, (img.width * img.height) as nat);
    assert(is_alpha_box(img, scan(img, (img.width * img.height) as nat)));
}

/// The size of the crop that `bounds` gives: `max - min + 1` each way.
pub fn crop_size(bounds: Bounds) -> (r: (u32, u32))
    requires
        bounds.0 <= bounds.2 < u32::MAX,
        bounds.1 <= bounds.3 < u32::MAX,
    ensures
        r.0 == bounds.2 - bounds.0 + 1,
        r.1 == bounds.3 - bounds.1 + 1,
{
    (bounds.2 - bounds.0 + 1, bounds.3 - bounds.1 + 1)
}

/// Crops `img` to the box `bounds`, as `image::imageops::crop_imm` does.
pub fn crop_frame(img: &PixelBuffer, bounds: Bounds) -> (out: PixelBuffer)
    requires
        img.wf(),
        bounds.0 <= bounds.2 < u32::MAX,
        bounds.1 <= bounds.3 < u32::MAX,
    ensures
        is_crop(*img, bounds.0, bounds.1, (bounds.2 - bounds.0 + 1) as u32, (bounds.3 - bounds.1 + 1) as u32, out),
{
    let (w, h) = crop_size(bounds);
    crop_rgba(img, bounds.0, bounds.1, w, h)
}

/// Resizes `img` to `new_width` x `new_height` with a Lanczos filter of
/// radius three. The size of the result is stated, that an unchanged size
/// keeps the bytes, and that a byte position that is zero in every pixel
/// stays zero; the resampled values are not.
pub fn resize_frame(img: &PixelBuffer, new_width: u32, new_height: u32) -> (out: PixelBuffer)
    requires
        img.wf(),
        new_width > 0,
        new_height > 0,
        new_width * new_height * 4 <= usize::MAX,
        img.width * new_height * 4 <= usize::MAX,
    ensures
        out.width == new_width,
        out.height == new_height,
        out.wf(),
        (new_width == img.width && new_height == img.height) ==> out.data@ == img.data@,
        keeps_zero_channels(*img, out),
{
    resize_rgba(img, new_width, new_height)
}

/// Swaps the red and blue bytes of every whole pixel in `data`, turning
/// RGBA into BGRA (and back).
pub fn swap_red_blue(data: &mut Vec<u8>)
    ensures
        final(data)@.len() == old(data)@.len(),
        forall|i: int|
            0 <= i < old(data)@.len() ==> #[trigger] final(data)@[i] == swapped_byte(old(data)@, i),
{
    let len: usize = data.len();
    let n: usize = len / 4;
    let ghost orig = data@;
    let mut k: usize = 0;
    while k < n
        invariant
            n == orig.len() / 4,
            len == orig.len(),
            data@.len() == orig.len(),
            0 <= k <= n,
            forall|i: int| 0 <= i < 4 * k ==> #[trigger] data@[i] == swapped_byte(orig, i),
            forall|i: int| 4 * k <= i < orig.len() ==> #[trigger] data@[i] == orig[i],
        decreases n - k,
    {
        assert(4 * k + 3 < len) by (nonlinear_arith)
            requires
                k < n,
                n == len / 4,
        ;
        let r = data[4 * k];
        let b = data[4 * k + 2];
        data.set(4 * k, b);
        data.set(4 * k + 2, r);
        k = k + 1;
    }
}

/// The bytes once every whole pixel's red and blue bytes have traded places.
pub open spec fn swapped(data: Seq<u8>) -> Seq<u8> {
    Seq::new(data.len(), |i: int| swapped_byte(data, i))
}

/// Swapping red and blue twice gives back the bytes.
pub proof fn swap_twice(data: Seq<u8>)
    ensures
        swapped(swapped(data)) =~= data,
{
}

/// The widest sprite frame, in pixels, once fitted.
pub const SPRITE_FRAME_WIDTH: u32 = 384;

/// The width of the crop that `bounds` gives.
pub open spec fn crop_width(bounds: Bounds) -> int {
    bounds.2 - bounds.0 + 1
}

/// The height of the crop that `bounds` gives.
pub open spec fn crop_height(bounds: Bounds) -> int {
    bounds.3 - bounds.1 + 1
}

/// `out` is `img` fitted for upload: cropped to `bounds`; when that crop is
/// wider than `SPRITE_FRAME_WIDTH`, resized to `SPRITE_FRAME_WIDTH` x
/// `resized_height` (a resize `r` of the crop, of which only the size and
/// that zero bytes stay zero are known); with red and blue swapped in every
/// pixel, in both cases.
pub open spec fn is_fitted(img: PixelBuffer, bounds: Bounds, resized_height: u32, out: PixelBuffer) -> bool {
    &&& out.wf()
    &&& if crop_width(bounds) > SPRITE_FRAME_WIDTH {
        &&& out.width == SPRITE_FRAME_WIDTH
        &&& out.height == resized_height
        &&& exists|c: PixelBuffer, r: PixelBuffer|
            #![trigger is_crop(img, bounds.0, bounds.1, crop_width(bounds) as u32, crop_height(bounds) as u32, c), keeps_zero_channels(c, r)]
            is_crop(img, bounds.0, bounds.1, crop_width(bounds) as u32, crop_height(bounds) as u32, c)
                && r.width == SPRITE_FRAME_WIDTH && r.height == resized_height && r.wf()
                && keeps_zero_channels(c, r) && out.data@ == swapped(r.data@)
    } else {
        exists|c: PixelBuffer|
            #[trigger] is_crop(img, bounds.0, bounds.1, crop_width(bounds) as u32, crop_height(bounds) as u32, c)
                && out.width == c.width && out.height == c.height && out.data@ == swapped(c.data@)
    }
}

/// Fits every frame for upload: crops it to `bounds`, resizes it to
/// `SPRITE_FRAME_WIDTH` x `resized_height` when the crop is wider than
/// `SPRITE_FRAME_WIDTH`, and turns it from RGBA into BGRA.
pub fn fit_frames(frames: &Vec<PixelBuffer>, bounds: Bounds, resized_height: u32) -> (out: Vec<PixelBuffer>)
    requires
        forall|i: int| 0 <= i < frames@.len() ==> #[trigger] frames@[i].wf(),
        bounds.0 <= bounds.2 < u32::MAX,
        bounds.1 <= bounds.3 < u32::MAX,
        crop_width(bounds) > SPRITE_FRAME_WIDTH ==> resized_height > 0 && crop_width(bounds)
            * resized_height * 4 <= usize::MAX,
    ensures
        out@.len() == frames@.len(),
        forall|i: int|
            0 <= i < frames@.len() ==> is_fitted(frames@[i], bounds, resized_height, #[trigger] out@[i])
                && out@[i].width <= SPRITE_FRAME_WIDTH,
{
    let (cw, ch) = crop_size(bounds);
    let mut out: Vec<PixelBuffer> = Vec::new();
    let mut i: usize = 0;
    while i < frames.len()
        invariant
            0 <= i <= frames@.len(),
            out@.len() == i,
            cw == crop_width(bounds),
            ch == crop_height(bounds),
            forall|k: int| 0 <= k < frames@.len() ==> #[trigger] frames@[k].wf(),
            bounds.0 <= bounds.2 < u32::MAX,
            bounds.1 <= bounds.3 < u32::MAX,
            crop_width(bounds) > SPRITE_FRAME_WIDTH ==> resized_height > 0 && crop_width(bounds)
                * resized_height * 4 <= usize::MAX,
            forall|k: int|
                0 <= k < i ==> is_fitted(frames@[k], bounds, resized_height, #[trigger] out@[k])
                    && out@[k].width <= SPRITE_FRAME_WIDTH,
        decreases frames@.len() - i,
    {
        let cropped = crop_frame(&frames[i], bounds);
        let ghost c = cropped;
        assert(is_crop(frames@[i as int], bounds.0, bounds.1, cw, ch, c));
        let fitted = if cw > SPRITE_FRAME_WIDTH {
            assert(cropped.width * resized_height * 4 <= usize::MAX) by (nonlinear_arith)
                requires
                    cropped.width <= cw,
                    cw * resized_height * 4 <= usize::MAX,
            ;
            assert(SPRITE_FRAME_WIDTH * resized_height * 4 <= usize::MAX) by (nonlinear_arith)
                requires
                    SPRITE_FRAME_WIDTH < cw,
                    cw * resized_height * 4 <= usize::MAX,
            ;
            resize_frame(&cropped, SPRITE_FRAME_WIDTH, resized_height)
        } else {
            cropped
        };
        let ghost r = fitted;
        let PixelBuffer { width, height, data } = fitted;
        let mut data = data;
        swap_red_blue(&mut data);
        let f = PixelBuffer { width, height, data };
        assert(f.data@ =~= swapped(r.data@));
        if cw <= SPRITE_FRAME_WIDTH {
            assert(f.data@ =~= swapped(c.data@));
        } else {
            assert(keeps_zero_channels(c, r));
        }
        assert(is_fitted(frames@[i as int], bounds, resized_height, f));
        out.push(f);
        i = i + 1;
    }
    out
}

/// Frames of one size come out of `fit_frames` with one size.
pub proof fn fitted_frames_share_size(
    a: PixelBuffer,
    b: PixelBuffer,
    bounds: Bounds,
    resized_height: u32,
    fa: PixelBuffer,
    fb: PixelBuffer,
)
    requires
        a.width == b.width,
        a.height == b.height,
        is_fitted(a, bounds, resized_height, fa),
        is_fitted(b, bounds, resized_height, fb),
    ensures
        fa.width == fb.width,
        fa.height == fb.height,
{
    if crop_width(bounds) <= SPRITE_FRAME_WIDTH {
        let ca = choose|c: PixelBuffer|
            #[trigger] is_crop(a, bounds.0, bounds.1, crop_width(bounds) as u32, crop_height(bounds) as u32, c)
                && fa.width == c.width && fa.height == c.height && fa.data@ == swapped(c.data@);
        let cb = choose|c: PixelBuffer|
            #[trigger] is_crop(b, bounds.0, bounds.1, crop_width(bounds) as u32, crop_height(bounds) as u32, c)
                && fb.width == c.width && fb.height == c.height && fb.data@ == swapped(c.data@);
    }
}

/// Cropping keeps zero bytes zero: a byte position that is zero in every
/// pixel of `img` is zero in every pixel of a crop of it.
pub proof fn crop_keeps_zero_channel(
    img: PixelBuffer,
    x: u32,
    y: u32,
    w: u32,
    h: u32,
    c: PixelBuffer,
    k: int,
)
    requires
        img.wf(),
        is_crop(img, x, y, w, h, c),
        0 <= k < 4,
        channel_zero(img, k),
    ensures
        channel_zero(c, k),
{
    let iw = img.width as int;
    let ih = img.height as int;
    let x0 = min_of(x as int, iw);
    let y0 = min_of(y as int, ih);
    let cw = c.width as int;
    let ch = c.height as int;
    assert forall|p: int| 0 <= p < c.width * c.height implies #[trigger] c.data@[4 * p + k] == 0 by {
        assert(cw > 0 && ch > 0) by (nonlinear_arith)
            requires
                0 <= p < cw * ch,
                cw >= 0,
                ch >= 0,
        ;
        let row = p / cw;
        let col = p % cw;
        assert(0 <= row < ch && 0 <= col < cw) by (nonlinear_arith)
            requires
                0 <= p < cw * ch,
                cw > 0,
                row == p / cw,
                col == p % cw,
        ;
        let idx = (row + y0) * iw + col + x0;
        assert(0 <= idx < iw * ih) by (nonlinear_arith)
            requires
                0 <= row + y0 < ih,
                0 <= col + x0 < iw,
                idx == (row + y0) * iw + col + x0,
        ;
        assert(c.data@[4 * p + k] == img.data@[4 * idx + k]);
        assert(img.data@[4 * idx + k] == 0);
    }
}

proof fn swapped_moves_zero_channel(src: PixelBuffer, out: PixelBuffer, k: int)
    requires
        src.wf(),
        out.width == src.width,
        out.height == src.height,
        out.data@ == swapped(src.data@),
        0 <= k < 4,
        channel_zero(src, k),
    ensures
        channel_zero(out, swapped_channel(k)),
{
    let j = swapped_channel(k);
    assert forall|q: int| 0 <= q < out.width * out.height implies #[trigger] out.data@[4 * q + j] == 0 by {
        let n = src.width * src.height;
        assert(4 * q + 3 < src.data@.len() && src.data@.len() / 4 * 4 == src.data@.len()) by (nonlinear_arith)
            requires
                0 <= q < n,
                src.data@.len() == n * 4,
        ;
        assert(out.data@[4 * q + j] == swapped_byte(src.data@, 4 * q + j));
        assert(src.data@[4 * q + k] == 0);
    }
}

/// Fitting turns RGBA into BGRA, for frames that were shrunk as much as for
/// those that were only cropped: a byte position that is zero in every
/// pixel of the frame is zero in every fitted pixel at the position where
/// red and blue trading places puts it (no blue in the frame means no
/// blue in the first byte of any fitted pixel, and so on).
pub proof fn fitted_frames_are_bgra(img: PixelBuffer, bounds: Bounds, resized_height: u32, out: PixelBuffer, k: int)
    requires
        img.wf(),
        is_fitted(img, bounds, resized_height, out),
        0 <= k < 4,
        channel_zero(img, k),
    ensures
        channel_zero(out, swapped_channel(k)),
{
    let cw = crop_width(bounds) as u32;
    let ch = crop_height(bounds) as u32;
    if crop_width(bounds) > SPRITE_FRAME_WIDTH {
        let (c, r) = choose|c: PixelBuffer, r: PixelBuffer|
            #![trigger is_crop(img, bounds.0, bounds.1, cw, ch, c), keeps_zero_channels(c, r)]
            is_crop(img, bounds.0, bounds.1, cw, ch, c)
                && r.width == SPRITE_FRAME_WIDTH && r.height == resized_height && r.wf()
                && keeps_zero_channels(c, r) && out.data@ == swapped(r.data@);
        crop_keeps_zero_channel(img, bounds.0, bounds.1, cw, ch, c, k);
        assert(channel_zero(r, k));
        swapped_moves_zero_channel(r, out, k);
    } else {
        let c = choose|c: PixelBuffer|
            #[trigger] is_crop(img, bounds.0, bounds.1, cw, ch, c)
                && out.width == c.width && out.height == c.height && out.data@ == swapped(c.data@);
        crop_keeps_zero_channel(img, bounds.0, bounds.1, cw, ch, c, k);
        swapped_moves_zero_channel(c, out, k);
    }
}

} // verus!
