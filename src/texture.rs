use vstd::prelude::*;

verus! {

/// Width in pixels of the drawing panel and of its texture.
pub const SCREEN_WIDTH: u32 = 900;

/// Height in pixels of the window and of the screen texture.
pub const SCREEN_HEIGHT: u32 = 720;

/// Gray level of column `x`: black on even columns, white on odd ones.
pub open spec fn stripe_level(x: int) -> u8 {
    if x % 2 == 0 { 0u8 } else { 255u8 }
}

/// An opaque RGBA pixel of gray level `l`.
pub open spec fn gray_rgba(l: u8) -> Seq<u8> {
    seq![l, l, l, 255u8]
}

/// The RGBA pixel at column `x` of the striped texture.
pub open spec fn stripe_rgba(x: int) -> Seq<u8> {
    gray_rgba(stripe_level(x))
}

/// Row-major RGBA samples of a `w` by `h` image: sample `i` is channel `i % 4`
/// of the pixel at column `(i / 4) % w`, row `(i / 4) / w`.
pub open spec fn is_stripe_image(s: Seq<u8>, w: nat, h: nat) -> bool {
    &&& s.len() == 4 * w * h
    &&& forall|i: int| 0 <= i < s.len() ==> #[trigger] s[i] == stripe_rgba((i / 4) % (w as int))[i % 4]
}

/// Relies on image's `Pixel::to_rgba` for `Luma<u8>`: the gray level goes to
/// the three color channels and alpha is `u8::MAX`.
#[verifier::external_body]
fn gray_to_rgba(l: u8) -> (r: [u8; 4])
    ensures
        r@ == gray_rgba(l),
{
    image::Pixel::to_rgba(&image::Luma([l])).0
}

/// The pixel at column `x` of any row of the striped texture.
pub fn stripe_pixel(x: u32, _y: u32) -> (r: [u8; 4])
    ensures
        r@ == stripe_rgba(x as int),
{
    if x % 2 == 0 {
        gray_to_rgba(0)
    } else {
        gray_to_rgba(255)
    }
}

/// Relies on image's `ImageBuffer::from_fn`, which fills a `w` by `h` RGBA
/// buffer row by row with the pixel that the closure gives for each column
/// and row, and on `into_raw`, which hands back that buffer's samples.
/// `from_fn` panics when the length of a row of samples, `4 * w`, or the
/// buffer length, `4 * w * h`, overflows `usize`.
#[verifier::external_body]
fn stripe_image(w: u32, h: u32) -> (r: Vec<u8>)
    requires
        4 * (w as int) <= usize::MAX,
        4 * (w as int) * (h as int) <= usize::MAX,
    ensures
        is_stripe_image(r@, w as nat, h as nat),
{
    image::RgbaImage::from_fn(w, h, |x, y| image::Rgba(stripe_pixel(x, y))).into_raw()
}

/// The row-major RGBA samples of a `w` by `h` striped image, or `None` when
/// a row of them or all of them would not fit in memory's address range.
pub fn stripe_image_pixels(w: u32, h: u32) -> (r: Option<Vec<u8>>)
    ensures
        r.is_some() <==> (4 * (w as int) <= usize::MAX && 4 * (w as int) * (h as int)
            <= usize::MAX),
        r.is_some() ==> is_stripe_image(r.unwrap()@, w as nat, h as nat),
{
    let wl: u128 = w as u128;
    let hl: u128 = h as u128;
    assert(4 * wl * hl <= 4 * (u32::MAX as int) * (u32::MAX as int)) by (nonlinear_arith)
        requires wl <= u32::MAX, hl <= u32::MAX;
    let n: u128 = 4 * wl * hl;
    assert(n == 4 * (w as int) * (h as int)) by (nonlinear_arith)
        requires n == 4 * wl * hl, wl == w, hl == h, wl <= u32::MAX, hl <= u32::MAX;
    if 4 * wl > usize::MAX as u128 || n > usize::MAX as u128 {
        None
    } else {
        Some(stripe_image(w, h))
    }
}

/// The samples of the screen texture: `SCREEN_WIDTH` by `SCREEN_HEIGHT`
/// striped pixels.
pub fn screen_pixels() -> (r: Vec<u8>)
    ensures
        is_stripe_image(r@, SCREEN_WIDTH as nat, SCREEN_HEIGHT as nat),
{
    stripe_image(SCREEN_WIDTH, SCREEN_HEIGHT)
}

} // verus!
