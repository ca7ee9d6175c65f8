//! Normalizing a page image for recognition.
//!
//! A rendered page is turned into a single-channel image and then into a
//! black and white one: each pixel is compared with the mean brightness of
//! the block of pixels around it, which copes with uneven lighting where a
//! single threshold for the whole page does not.

use crate::error::{OcrError, OcrErrorView};
use vstd::arithmetic::div_mod::{
    lemma_fundamental_div_mod, lemma_fundamental_div_mod_converse, lemma_mod_bound,
};
use vstd::prelude::*;
use vstd::slice::{slice_subrange, slice_to_vec};
use vstd::string::*;

verus! {

/// The radius of the block of pixels around a pixel whose mean decides the
/// pixel; the block has `2 * BLOCK_RADIUS + 1` pixels a side.
pub const BLOCK_RADIUS: u32 = 21;

/// A rendered page in color: `width * height` pixels, row after row from the
/// top, each pixel four bytes (red, green, blue, alpha).
#[derive(Debug, Clone, PartialEq, Eq)]
pub struct PageBitmap {
    pub width: u32,
    pub height: u32,
    pub rgba: Vec<u8>,
}

/// A single-channel image: `width * height` pixels, row after row from the
/// top, one byte of brightness each.
#[derive(Debug, Clone, PartialEq, Eq)]
pub struct GrayBitmap {
    pub width: u32,
    pub height: u32,
    pub pixels: Vec<u8>,
}

impl PageBitmap {
    /// The bytes are exactly those of `width * height` pixels.
    pub open spec fn wf(&self) -> bool {
        self.rgba.len() == 4 * self.width * self.height
    }

    /// Whether the bytes are exactly those of `width * height` pixels.
    pub fn is_wf(&self) -> (ok: bool)
        ensures
            ok == self.wf(),
    {
        assert(4 * self.width * self.height <= 4 * 0xffff_ffff * 0xffff_ffff) by (nonlinear_arith)
            requires
                self.width <= 0xffff_ffff,
                self.height <= 0xffff_ffff,
        ;
        assert(4 * self.width * self.height == 4 * (self.width * self.height)) by (nonlinear_arith);
        assert(self.width * self.height <= 0xffff_ffff * 0xffff_ffff) by (nonlinear_arith)
            requires
                self.width <= 0xffff_ffff,
                self.height <= 0xffff_ffff,
        ;
        let expected: u128 = 4 * ((self.width as u128) * (self.height as u128));
        self.rgba.len() as u128 == expected
    }
}

impl GrayBitmap {
    /// There is exactly one byte for each of the `width * height` pixels.
    pub open spec fn wf(&self) -> bool {
        self.pixels.len() == self.width * self.height
    }

    /// Whether there is exactly one byte for each pixel.
    pub fn is_wf(&self) -> (ok: bool)
        ensures
            ok == self.wf(),
    {
        assert(self.width * self.height <= 0xffff_ffff * 0xffff_ffff) by (nonlinear_arith)
            requires
                self.width <= 0xffff_ffff,
                self.height <= 0xffff_ffff,
        ;
        let expected: u128 = (self.width as u128) * (self.height as u128);
        self.pixels.len() as u128 == expected
    }

    /// Every pixel is black (0) or white (255).
    pub open spec fn is_binary(&self) -> bool {
        forall|i: int| 0 <= i < self.pixels.len() ==> self.pixels[i] == 0 || self.pixels[i] == 255
    }
}

/// The brightness of a color: its red, green and blue weighted by 0.2126,
/// 0.7152 and 0.0722, rounded down.
pub open spec fn luma(red: u8, green: u8, blue: u8) -> u8 {
    ((2126 * red + 7152 * green + 722 * blue) / 10000) as u8
}

/// The brightness of each pixel of a color image given by its bytes.
pub open spec fn grayscale(rgba: Seq<u8>) -> Seq<u8> {
    Seq::new(rgba.len() / 4, |i: int| luma(rgba[4 * i], rgba[4 * i + 1], rgba[4 * i + 2]))
}

/// The pixel in column `x` of row `y` of an image `width` pixels wide.
pub open spec fn pixel_at(width: nat, pixels: Seq<u8>, x: int, y: int) -> int {
    pixels[y * width + x] as int
}

/// The sum of the pixels of row `y` in the columns from `left` up to, not
/// including, `right`.
pub open spec fn row_sum(width: nat, pixels: Seq<u8>, y: int, left: int, right: int) -> int
    decreases right - left,
{
    if right <= left {
        0
    } else {
        row_sum(width, pixels, y, left, right - 1) + pixel_at(width, pixels, right - 1, y)
    }
}

/// The sum of the pixels in the columns from `left` up to `right` of the
/// rows from `top` up to `bottom`, the upper ends not included.
pub open spec fn block_sum(
    width: nat,
    pixels: Seq<u8>,
    left: int,
    right: int,
    top: int,
    bottom: int,
) -> int
    decreases bottom - top,
{
    if bottom <= top {
        0
    } else {
        block_sum(width, pixels, left, right, top, bottom - 1) + row_sum(
            width,
            pixels,
            bottom - 1,
            left,
            right,
        )
    }
}

/// The first of the places within `radius` of `center`, on an axis that
/// starts at 0.
pub open spec fn block_start(center: int, radius: int) -> int {
    if center >= radius {
        center - radius
    } else {
        0
    }
}

/// One past the last of the places within `radius` of `center`, on an axis of
/// `length` places.
pub open spec fn block_end(center: int, radius: int, length: int) -> int {
    if center + radius < length {
        center + radius + 1
    } else {
        length
    }
}

/// The mean brightness, rounded down, of the block of pixels within `radius`
/// of the pixel `(x, y)` in both directions, as far as the block lies inside
/// the image.
pub open spec fn block_mean(
    width: nat,
    height: nat,
    pixels: Seq<u8>,
    radius: nat,
    x: int,
    y: int,
) -> int {
    let left = block_start(x, radius as int);
    let right = block_end(x, radius as int, width as int);
    let top = block_start(y, radius as int);
    let bottom = block_end(y, radius as int, height as int);
    block_sum(width, pixels, left, right, top, bottom) / ((bottom - top) * (right - left))
}

/// The pixel `(x, y)` after the threshold: white where it is at least as
/// bright as the mean of its block, black where it is darker.
pub open spec fn threshold_at(
    width: nat,
    height: nat,
    pixels: Seq<u8>,
    radius: nat,
    x: int,
    y: int,
) -> u8 {
    if pixel_at(width, pixels, x, y) >= block_mean(width, height, pixels, radius, x, y) {
        255
    } else {
        0
    }
}

/// The image after the threshold, pixel by pixel.
pub open spec fn binarized(width: nat, height: nat, pixels: Seq<u8>, radius: nat) -> Seq<u8> {
    Seq::new(
        width * height,
        |i: int| threshold_at(width, height, pixels, radius, i % width as int, i / width as int),
    )
}

/// The largest number of pixels, counted with one more row and one more
/// column, that the threshold takes at once: with it, twice the sum of all
/// pixels still fits in 32 bits.
pub const AREA_LIMIT: u32 = 8_421_504;

/// An image of this size is small enough to be thresholded at once: twice
/// the sum of all its pixels fits in 32 bits, also with the row and the
/// column that the running sums add to the image.
pub open spec fn within_threshold_limit(width: u32, height: u32) -> bool {
    (width + 1) * (height + 1) <= AREA_LIMIT
}

/// The rows that decide one row of the result: the row itself and `radius`
/// rows on either side, as far as the image has them.
pub open spec fn band_span(height: u32, radius: u32) -> int {
    if height <= 2 * radius + 1 {
        height as int
    } else {
        2 * radius + 1
    }
}

/// The threshold with the given radius can be taken of the image at once.
pub open spec fn can_threshold_at_once(image: &GrayBitmap, block_radius: u32) -> bool {
    &&& image.wf()
    &&& within_threshold_limit(image.width, image.height)
    &&& 0 < block_radius <= 0x7fff_ffff
}

/// The threshold with the given radius can be taken of the image, at once
/// or in bands of rows: the image holds one byte for each pixel, the radius
/// is positive and fits in 31 bits, and the rows that decide one row of the
/// result are few enough to be thresholded at once.
pub open spec fn can_binarize(image: &GrayBitmap, block_radius: u32) -> bool {
    &&& image.wf()
    &&& 0 < block_radius <= 0x7fff_ffff
    &&& image.width == 0 || image.height == 0 || (image.width + 1) * (band_span(
        image.height,
        block_radius,
    ) + 1) <= AREA_LIMIT
}

/// The rows from `top` up to, not including, `bottom` of an image `width`
/// pixels wide.
pub open spec fn rows_of(width: nat, pixels: Seq<u8>, top: int, bottom: int) -> Seq<u8> {
    pixels.subrange(top * width, bottom * width)
}

/// Whether an image of this size is small enough to be thresholded at once.
pub fn fits_threshold_limit(width: u32, height: u32) -> (ok: bool)
    ensures
        ok == within_threshold_limit(width, height),
{
    assert((width + 1) * (height + 1) <= 0x1_0000_0000 * 0x1_0000_0000) by (nonlinear_arith)
        requires
            width <= 0xffff_ffff,
            height <= 0xffff_ffff,
    ;
    let area: u128 = (width as u128 + 1) * (height as u128 + 1);
    area <= AREA_LIMIT as u128
}

/// The grayscale conversion of the `image` crate: `DynamicImage::to_luma8`,
/// on an image of eight-bit RGBA pixels built with `ImageBuffer::from_raw`.
///
/// Trusted: for such pixels the conversion gives each pixel the brightness
/// [`luma`] of its color, computed in integers, and keeps the size; and
/// `from_raw` takes a buffer that holds exactly the bytes of the image.
#[verifier::external_body]
fn to_luma8(page: &PageBitmap) -> (gray: Option<GrayBitmap>)
    requires
        page.wf(),
    ensures
        gray is Some,
        gray.unwrap().width == page.width,
        gray.unwrap().height == page.height,
        gray.unwrap().pixels@ == grayscale(page.rgba@),
{
    let rgba = image::RgbaImage::from_raw(page.width, page.height, page.rgba.clone())?;
    let luma = image::DynamicImage::ImageRgba8(rgba).to_luma8();
    Some(GrayBitmap { width: luma.width(), height: luma.height(), pixels: luma.into_raw() })
}

/// The adaptive threshold of the `imageproc` crate:
/// `imageproc::contrast::adaptive_threshold`, on an image built with
/// `ImageBuffer::from_raw`.
///
/// Trusted: the result has the size of the image, and each of its pixels is
/// 255 where the pixel of the image is at least the rounded-down mean of the
/// block around it, cut off at the image's edges, and 0 elsewhere. The
/// function keeps its running sums in 32 bits, in an image with one more row
/// and one more column, adds two of them before it subtracts, and asserts a
/// positive radius; images and radii beyond that are left out.
#[verifier::external_body]
fn adaptive_threshold(image: &GrayBitmap, block_radius: u32) -> (out: Option<GrayBitmap>)
    requires
        can_threshold_at_once(image, block_radius),
    ensures
        out is Some,
        out.unwrap().width == image.width,
        out.unwrap().height == image.height,
        out.unwrap().pixels@ == binarized(
            image.width as nat,
            image.height as nat,
            image.pixels@,
            block_radius as nat,
        ),
{
    let gray = image::GrayImage::from_raw(image.width, image.height, image.pixels.clone())?;
    let binary = imageproc::contrast::adaptive_threshold(&gray, block_radius);
    Some(GrayBitmap { width: binary.width(), height: binary.height(), pixels: binary.into_raw() })
}

/// The single-channel image of a rendered page: each pixel gets the
/// brightness of its color. `None` is returned exactly for a page whose
/// bytes are not those of `width * height` pixels.
pub fn to_grayscale(page: &PageBitmap) -> (gray: Option<GrayBitmap>)
    ensures
        match gray {
            Some(image) => page.wf() && image.wf() && image.width == page.width && image.height
                == page.height && image.pixels@ == grayscale(page.rgba@),
            None => !page.wf(),
        },
{
    if !page.is_wf() {
        return None;
    }
    let gray = to_luma8(page);
    proof {
        assert(grayscale(page.rgba@).len() == page.width * page.height) by (nonlinear_arith)
            requires
                grayscale(page.rgba@).len() == page.rgba@.len() / 4,
                page.rgba@.len() == 4 * page.width * page.height,
        ;
    }
    gray
}

/// The threshold of any image has one pixel for each pixel of the image, and
/// each is black or white.
pub proof fn lemma_binarized_is_black_and_white(
    width: nat,
    height: nat,
    pixels: Seq<u8>,
    radius: nat,
)
    ensures
        binarized(width, height, pixels, radius).len() == width * height,
        forall|i: int|
            0 <= i < width * height ==> {
                let pixel = #[trigger] binarized(width, height, pixels, radius)[i];
                pixel == 0 || pixel == 255
            },
{
}

/// A row of a band of rows has the pixels of the row of the image that it
/// was taken from.
proof fn lemma_row_sum_of_band(
    width: nat,
    pixels: Seq<u8>,
    top: int,
    bottom: int,
    y: int,
    left: int,
    right: int,
)
    requires
        0 <= top <= y < bottom,
        bottom * width <= pixels.len(),
        0 <= left <= right <= width,
    ensures
        row_sum(width, rows_of(width, pixels, top, bottom), y - top, left, right) == row_sum(
            width,
            pixels,
            y,
            left,
            right,
        ),
    decreases right - left,
{
    if right > left {
        lemma_row_sum_of_band(width, pixels, top, bottom, y, left, right - 1);
        let x = right - 1;
        assert((y - top) * width + x == y * width + x - top * width) by (nonlinear_arith);
        assert(top * width <= y * width && y * width + width <= bottom * width)
            by (nonlinear_arith)
            requires
                0 <= top <= y < bottom,
        ;
    }
}

/// A block of a band of rows has the sum of the block of the image that it
/// was taken from.
proof fn lemma_block_sum_of_band(
    width: nat,
    pixels: Seq<u8>,
    top: int,
    bottom: int,
    left: int,
    right: int,
    first: int,
    last: int,
)
    requires
        0 <= top <= first <= last <= bottom,
        bottom * width <= pixels.len(),
        0 <= left <= right <= width,
    ensures
        block_sum(
            width,
            rows_of(width, pixels, top, bottom),
            left,
            right,
            first - top,
            last - top,
        ) == block_sum(width, pixels, left, right, first, last),
    decreases last - first,
{
    if last > first {
        lemma_block_sum_of_band(width, pixels, top, bottom, left, right, first, last - 1);
        lemma_row_sum_of_band(width, pixels, top, bottom, last - 1, left, right);
    }
}

/// The threshold of a pixel can be taken in a band of rows: where the band
/// holds every row within `radius` of the pixel's row that the image has,
/// the pixel comes out of the band as it comes out of the whole image.
proof fn lemma_threshold_in_band(
    width: nat,
    height: nat,
    pixels: Seq<u8>,
    radius: nat,
    top: int,
    bottom: int,
    x: int,
    y: int,
)
    requires
        pixels.len() == width * height,
        0 <= top <= y < bottom <= height,
        top <= block_start(y, radius as int),
        block_end(y, radius as int, height as int) <= bottom,
        0 <= x < width,
    ensures
        threshold_at(
            width,
            (bottom - top) as nat,
            rows_of(width, pixels, top, bottom),
            radius,
            x,
            y - top,
        ) == threshold_at(width, height, pixels, radius, x, y),
{
    let band = rows_of(width, pixels, top, bottom);
    let left = block_start(x, radius as int);
    let right = block_end(x, radius as int, width as int);
    let first = block_start(y, radius as int);
    let last = block_end(y, radius as int, height as int);
    assert(bottom * width <= pixels.len()) by (nonlinear_arith)
        requires
            bottom <= height,
            pixels.len() == width * height,
    ;
    assert(block_start(y - top, radius as int) == first - top);
    assert(block_end(y - top, radius as int, bottom - top) == last - top);
    lemma_block_sum_of_band(width, pixels, top, bottom, left, right, first, last);
    lemma_row_sum_of_band(width, pixels, top, bottom, y, x, x + 1);
    assert(row_sum(width, band, y - top, x, x + 1) == pixel_at(width, band, x, y - top)) by {
        reveal_with_fuel(row_sum, 2);
    }
    assert(row_sum(width, pixels, y, x, x + 1) == pixel_at(width, pixels, x, y)) by {
        reveal_with_fuel(row_sum, 2);
    }
}

/// The row and the column of the pixel at a place in an image.
proof fn lemma_row_and_column(place: int, width: int, first: int, last: int)
    requires
        width > 0,
        0 <= first,
        first * width <= place < last * width,
    ensures
        first <= place / width < last,
        0 <= place % width < width,
        place == (place / width) * width + place % width,
{
    lemma_fundamental_div_mod(place, width);
    lemma_mod_bound(place, width);
    let row = place / width;
    assert(first <= row < last) by (nonlinear_arith)
        requires
            width > 0,
            first * width <= place < last * width,
            place == width * row + place % width,
            0 <= place % width < width,
    ;
    assert(width * row == row * width) by (nonlinear_arith);
}

/// The pixel at a place in a band of rows is the pixel at that place, counted
/// from the top of the image, in the same column and in the row that the
/// band's row was taken from.
proof fn lemma_place_in_band(place: int, width: int, top: int)
    requires
        width > 0,
        0 <= top,
        top * width <= place,
    ensures
        (place - top * width) % width == place % width,
        (place - top * width) / width == place / width - top,
{
    lemma_fundamental_div_mod(place, width);
    lemma_mod_bound(place, width);
    let row = place / width;
    let column = place % width;
    assert(place - top * width == (row - top) * width + column) by (nonlinear_arith)
        requires
            place == width * row + column,
    ;
    lemma_fundamental_div_mod_converse(place - top * width, width, row - top, column);
}

/// The most rows of an image `width` pixels wide that can be thresholded at
/// once.
fn most_rows_at_once(width: u32) -> (rows: u32)
    requires
        0 < width,
        within_threshold_limit(width, 1),
    ensures
        rows >= 1,
        forall|height: u32| height <= rows <==> within_threshold_limit(width, height),
{
    let columns: u32 = width + 1;
    let quotient: u32 = AREA_LIMIT / columns;
    let ghost rest = AREA_LIMIT as int % columns as int;
    proof {
        lemma_fundamental_div_mod(AREA_LIMIT as int, columns as int);
        lemma_mod_bound(AREA_LIMIT as int, columns as int);
        assert(quotient >= 2) by (nonlinear_arith)
            requires
                columns * 2 <= AREA_LIMIT,
                AREA_LIMIT == columns * quotient + rest,
                rest < columns,
                columns > 0,
        ;
    }
    let rows: u32 = quotient - 1;
    proof {
        assert forall|height: u32| height <= rows <==> within_threshold_limit(width, height) by {
            assert(height + 1 <= quotient <==> columns * (height + 1) <= AREA_LIMIT)
                by (nonlinear_arith)
                requires
                    AREA_LIMIT == columns * quotient + rest,
                    0 <= rest < columns,
                    columns > 0,
            ;
        }
    }
    rows
}

/// The black and white image of a single-channel image: each pixel becomes
/// white (255) where it is at least as bright as the mean of the pixels
/// within `block_radius` of it, and black (0) where it is darker.
///
/// An image that is too large to be thresholded at once is thresholded in
/// bands of rows, each with `block_radius` more rows on either side, and the
/// result is that of the whole image. `None` is returned exactly where the
/// image does not hold one byte for each pixel, the radius is zero or does
/// not fit in 31 bits, or the image is so wide that not even the rows that
/// decide one row of the result can be taken at once.
pub fn binarize(image: &GrayBitmap, block_radius: u32) -> (out: Option<GrayBitmap>)
    ensures
        match out {
            Some(binary) => {
                &&& can_binarize(image, block_radius)
                &&& binary.wf()
                &&& binary.is_binary()
                &&& binary.width == image.width
                &&& binary.height == image.height
                &&& binary.pixels@ == binarized(
                    image.width as nat,
                    image.height as nat,
                    image.pixels@,
                    block_radius as nat,
                )
            },
            None => !can_binarize(image, block_radius),
        },
{
    if block_radius == 0 || block_radius > 0x7fff_ffff || !image.is_wf() {
        return None;
    }
    let width = image.width;
    let height = image.height;
    let ghost full = binarized(width as nat, height as nat, image.pixels@, block_radius as nat);
    if width == 0 || height == 0 {
        assert(width * height == 0) by (nonlinear_arith)
            requires
                width == 0 || height == 0,
        ;
        let binary = GrayBitmap { width, height, pixels: Vec::new() };
        assert(binary.pixels@ =~= full);
        return Some(binary);
    }
    let span: u32 = if height <= 2 * block_radius + 1 {
        height
    } else {
        2 * block_radius + 1
    };
    if !fits_threshold_limit(width, span) {
        return None;
    }
    assert(within_threshold_limit(width, 1)) by (nonlinear_arith)
        requires
            (width + 1) * (span + 1) <= AREA_LIMIT,
            span >= 1,
    ;
    let most_rows = most_rows_at_once(width);
    if height <= most_rows {
        return adaptive_threshold(image, block_radius);
    }
    let core: u32 = most_rows - 2 * block_radius;
    let columns: usize = width as usize;
    let mut pixels: Vec<u8> = Vec::new();
    let mut first: u32 = 0;
    assert(full.take(0) =~= Seq::empty());
    while first < height
        invariant
            image.wf(),
            width == image.width,
            height == image.height,
            columns == width,
            0 < width,
            0 < block_radius <= 0x7fff_ffff,
            1 <= core,
            core + 2 * block_radius == most_rows,
            forall|rows: u32| rows <= most_rows <==> within_threshold_limit(width, rows),
            first <= height,
            full == binarized(width as nat, height as nat, image.pixels@, block_radius as nat),
            pixels@ == full.take(first * width),
        decreases height - first,
    {
        let last: u32 = if height - first > core {
            first + core
        } else {
            height
        };
        let top: u32 = if first >= block_radius {
            first - block_radius
        } else {
            0
        };
        let bottom: u32 = if height - last > block_radius {
            last + block_radius
        } else {
            height
        };
        proof {
            assert(top * width <= bottom * width <= height * width) by (nonlinear_arith)
                requires
                    top <= bottom <= height,
            ;
            assert((first - top) * width <= (last - top) * width <= (bottom - top) * width)
                by (nonlinear_arith)
                requires
                    top <= first <= last <= bottom,
            ;
            assert(bottom * width - top * width == (bottom - top) * width) by (nonlinear_arith);
            assert(first * width <= last * width <= height * width) by (nonlinear_arith)
                requires
                    first <= last <= height,
            ;
            assert(height * width == width * height && (bottom - top) * width == width * (bottom
                - top)) by (nonlinear_arith);
            assert(within_threshold_limit(width, (bottom - top) as u32));
        }
        let band = GrayBitmap {
            width,
            height: bottom - top,
            pixels: slice_to_vec(
                slice_subrange(
                    image.pixels.as_slice(),
                    top as usize * columns,
                    bottom as usize * columns,
                ),
            ),
        };
        assert(band.pixels@ == rows_of(width as nat, image.pixels@, top as int, bottom as int));
        let binary = adaptive_threshold(&band, block_radius)?;
        let ghost before = pixels@;
        let ghost from = (first - top) * width;
        let ghost upto = (last - top) * width;
        pixels.extend_from_slice(
            slice_subrange(
                binary.pixels.as_slice(),
                (first - top) as usize * columns,
                (last - top) as usize * columns,
            ),
        );
        proof {
            let added = binary.pixels@.subrange(from, upto);
            assert(pixels@.len() == last * width) by (nonlinear_arith)
                requires
                    pixels@.len() == first * width + (upto - from),
                    from == (first - top) * width,
                    upto == (last - top) * width,
            ;
            assert forall|place: int| 0 <= place < last * width implies pixels@[place]
                == full[place] by {
                if place >= first * width {
                    let within = place - first * width;
                    assert(pixels@[place] == added[within]);
                    assert(added[within] == binary.pixels@[from + within]);
                    assert(from + within == place - top * width) by (nonlinear_arith)
                        requires
                            from == (first - top) * width,
                            within == place - first * width,
                    ;
                    lemma_row_and_column(place, width as int, first as int, last as int);
                    lemma_place_in_band(place, width as int, top as int);
                    lemma_threshold_in_band(
                        width as nat,
                        height as nat,
                        image.pixels@,
                        block_radius as nat,
                        top as int,
                        bottom as int,
                        place % width as int,
                        place / width as int,
                    );
                } else {
                    assert(pixels@[place] == before[place]);
                }
            }
            assert(pixels@ =~= full.take(last * width));
        }
        first = last;
    }
    assert(height * width == width * height) by (nonlinear_arith);
    assert(full.take(height * width) =~= full);
    Some(GrayBitmap { width, height, pixels })
}

/// The page can be normalized: its bytes are those of `width * height`
/// pixels, and its rows are not too wide for the threshold.
pub open spec fn can_normalize(page: &PageBitmap) -> bool {
    &&& page.wf()
    &&& page.width == 0 || page.height == 0 || (page.width + 1) * (band_span(
        page.height,
        BLOCK_RADIUS,
    ) + 1) <= AREA_LIMIT
}

/// Normalizes the image of a page for recognition: grayscale, then the
/// adaptive threshold with [`BLOCK_RADIUS`].
///
/// The result is a single-channel image of the same size in which every
/// pixel is black or white. The image at `image_path` cannot be normalized,
/// and the failure names that path, exactly when its bytes are not those of
/// `width * height` pixels or its rows are too wide for the threshold.
pub fn preprocess_image(image_path: &str, page: &PageBitmap) -> (result: Result<
    GrayBitmap,
    OcrError,
>)
    ensures
        match result {
            Ok(image) => {
                &&& can_normalize(page)
                &&& image.wf()
                &&& image.is_binary()
                &&& image.width == page.width
                &&& image.height == page.height
                &&& image.pixels@ == binarized(
                    page.width as nat,
                    page.height as nat,
                    grayscale(page.rgba@),
                    BLOCK_RADIUS as nat,
                )
            },
            Err(error) => {
                &&& !can_normalize(page)
                &&& error@ == OcrErrorView::ImageProcessingFailed(image_path@)
            },
        },
{
    let binary = match to_grayscale(page) {
        Some(gray) => binarize(&gray, BLOCK_RADIUS),
        None => None,
    };
    match binary {
        Some(image) => Ok(image),
        None => Err(OcrError::ImageProcessingFailed(String::from_str(image_path))),
    }
}

} // verus!
