//! Batch layout of preprocessed images.
//!
//! Decoding, resizing and normalizing pixels happen outside the library. Each
//! normalized image arrives as a `(1, channels, height, width)` tensor; the
//! batch is laid out in NCHW order and padded on the bottom and right with a
//! fill value so that all images share one height and width.

use vstd::prelude::*;

use crate::model::tensor::{fits4, Tensor4View};
use crate::model::vision_encoder::input::ImageTensor;
use crate::processor::config::CHANNELS;
use crate::Error;

verus! {

/// The value at channel `c`, row `y`, column `x` of a single image, or `fill`
/// outside the image.
pub open spec fn pixel_or_fill<T>(image: Tensor4View<T>, c: int, y: int, x: int, fill: T) -> T {
    if 0 < image.d0 && 0 <= c < image.d1 && 0 <= y < image.d2 && 0 <= x < image.d3 {
        image.data[((c * image.d2 + y) * image.d3 + x)]
    } else {
        fill
    }
}

/// One padded row of `width` values.
pub open spec fn padded_row<T>(image: Tensor4View<T>, c: int, y: int, width: nat, fill: T) -> Seq<T> {
    Seq::new(width, |x: int| pixel_or_fill(image, c, y, x, fill))
}

/// The first `rows` padded rows of channel `c`.
pub open spec fn padded_plane<T>(image: Tensor4View<T>, c: int, rows: nat, width: nat, fill: T) -> Seq<T>
    decreases rows,
{
    if rows == 0 {
        Seq::empty()
    } else {
        padded_plane(image, c, (rows - 1) as nat, width, fill) + padded_row(image, c, rows - 1, width, fill)
    }
}

/// The first `channels` padded channel planes of an image.
pub open spec fn padded_image<T>(image: Tensor4View<T>, channels: nat, height: nat, width: nat, fill: T) -> Seq<T>
    decreases channels,
{
    if channels == 0 {
        Seq::empty()
    } else {
        padded_image(image, (channels - 1) as nat, height, width, fill) + padded_plane(
            image,
            channels - 1,
            height,
            width,
            fill,
        )
    }
}

/// The padded images of a batch, one after the other.
pub open spec fn padded_batch<T>(images: Seq<ImageTensor<T>>, channels: nat, height: nat, width: nat, fill: T) -> Seq<T>
    decreases images.len(),
{
    if images.len() == 0 {
        Seq::empty()
    } else {
        padded_batch(images.drop_last(), channels, height, width, fill) + padded_image(
            images.last()@,
            channels,
            height,
            width,
            fill,
        )
    }
}

/// Largest height of the images.
pub open spec fn max_height<T>(images: Seq<ImageTensor<T>>) -> nat
    decreases images.len(),
{
    if images.len() == 0 {
        0
    } else {
        let rest = max_height(images.drop_last());
        if images.last()@.d2 > rest {
            images.last()@.d2
        } else {
            rest
        }
    }
}

/// Largest width of the images.
pub open spec fn max_width<T>(images: Seq<ImageTensor<T>>) -> nat
    decreases images.len(),
{
    if images.len() == 0 {
        0
    } else {
        let rest = max_width(images.drop_last());
        if images.last()@.d3 > rest {
            images.last()@.d3
        } else {
            rest
        }
    }
}

proof fn lemma_padded_plane_len<T>(image: Tensor4View<T>, c: int, rows: nat, width: nat, fill: T)
    ensures
        padded_plane(image, c, rows, width, fill).len() == rows * width,
    decreases rows,
{
    if rows > 0 {
        lemma_padded_plane_len(image, c, (rows - 1) as nat, width, fill);
        assert((rows - 1) * width + width == rows * width) by (nonlinear_arith);
    } else {
        assert(rows * width == 0) by (nonlinear_arith)
            requires
                rows == 0,
        ;
    }
}

proof fn lemma_padded_image_len<T>(image: Tensor4View<T>, channels: nat, height: nat, width: nat, fill: T)
    ensures
        padded_image(image, channels, height, width, fill).len() == channels * height * width,
    decreases channels,
{
    if channels > 0 {
        lemma_padded_image_len(image, (channels - 1) as nat, height, width, fill);
        lemma_padded_plane_len(image, channels - 1, height, width, fill);
        assert((channels - 1) * height * width + height * width == channels * height * width) by (nonlinear_arith);
    } else {
        assert(channels * height * width == 0) by (nonlinear_arith)
            requires
                channels == 0,
        ;
    }
}

proof fn lemma_padded_batch_len<T>(images: Seq<ImageTensor<T>>, channels: nat, height: nat, width: nat, fill: T)
    ensures
        padded_batch(images, channels, height, width, fill).len() == images.len() * channels * height * width,
    decreases images.len(),
{
    if images.len() > 0 {
        lemma_padded_batch_len(images.drop_last(), channels, height, width, fill);
        lemma_padded_image_len(images.last()@, channels, height, width, fill);
        let n = images.len();
        assert((n - 1) * channels * height * width + channels * height * width == n * channels * height * width)
            by (nonlinear_arith);
    } else {
        let n = images.len();
        assert(n * channels * height * width == 0) by (nonlinear_arith)
            requires
                n == 0,
        ;
    }
}

/// Padding never crops: every image of a batch fits within the batch's height
/// and width.
pub proof fn lemma_max_bounds<T>(images: Seq<ImageTensor<T>>, k: int)
    requires
        0 <= k < images.len(),
    ensures
        images[k]@.d2 <= max_height(images),
        images[k]@.d3 <= max_width(images),
    decreases images.len(),
{
    if k < images.len() - 1 {
        lemma_max_bounds(images.drop_last(), k);
        assert(images.drop_last()[k] == images[k]);
    }
}

/// Appends one padded row of `width` values.
fn push_padded_row<T: Copy>(out: &mut Vec<T>, image: &ImageTensor<T>, c: usize, y: usize, width: usize, fill: T)
    ensures
        final(out)@ == old(out)@ + padded_row(image@, c as int, y as int, width as nat, fill),
{
    let ghost start = out@;
    let mut x: usize = 0;
    while x < width
        invariant
            x <= width,
            out@ == start + padded_row(image@, c as int, y as int, x as nat, fill),
        decreases width - x,
    {
        let value = match image.get(0, c, y, x) {
            Some(v) => v,
            None => fill,
        };
        out.push(value);
        x += 1;
        assert(out@ =~= start + padded_row(image@, c as int, y as int, x as nat, fill));
    }
}

/// Appends the padded planes of every channel of one image.
fn push_padded_image<T: Copy>(out: &mut Vec<T>, image: &ImageTensor<T>, channels: usize, height: usize, width: usize, fill: T)
    ensures
        final(out)@ == old(out)@ + padded_image(image@, channels as nat, height as nat, width as nat, fill),
{
    let ghost start = out@;
    let mut c: usize = 0;
    while c < channels
        invariant
            c <= channels,
            out@ == start + padded_image(image@, c as nat, height as nat, width as nat, fill),
        decreases channels - c,
    {
        let ghost plane_start = out@;
        let mut y: usize = 0;
        while y < height
            invariant
                y <= height,
                out@ == plane_start + padded_plane(image@, c as int, y as nat, width as nat, fill),
            decreases height - y,
        {
            push_padded_row(out, image, c, y, width, fill);
            y += 1;
            assert(out@ =~= plane_start + padded_plane(image@, c as int, y as nat, width as nat, fill));
        }
        c += 1;
        assert(out@ =~= start + padded_image(image@, c as nat, height as nat, width as nat, fill));
    }
}

/// Lays a batch of normalized images out in one NCHW tensor, padding each
/// image with `fill` on the bottom and right to the largest height and width
/// of the batch.
pub fn pad_image_batch<T: Copy>(images: &[ImageTensor<T>], fill: T) -> (r: Result<ImageTensor<T>, Error>)
    requires
        fits4(images@.len() as int, CHANNELS as int, max_height(images@) as int, max_width(images@) as int),
    ensures
        images@.len() == 0 ==> (r matches Err(Error::ImageProcessing { reason })
            && reason@ == "at least one image is required"@),
        images@.len() > 0 ==> (r matches Ok(t) && t@ == (Tensor4View {
            data: padded_batch(images@, CHANNELS as nat, max_height(images@), max_width(images@), fill),
            d0: images@.len(),
            d1: CHANNELS as nat,
            d2: max_height(images@),
            d3: max_width(images@),
        })),
{
    if images.len() == 0 {
        return Err(Error::ImageProcessing { reason: "at least one image is required".to_owned() });
    }
    let mut height: usize = 0;
    let mut width: usize = 0;
    let mut i: usize = 0;
    while i < images.len()
        invariant
            i <= images@.len(),
            height == max_height(images@.take(i as int)),
            width == max_width(images@.take(i as int)),
        decreases images@.len() - i,
    {
        proof {
            let t = images@.take(i + 1);
            assert(t.drop_last() =~= images@.take(i as int));
            assert(t.last() == images@[i as int]);
        }
        let h = images[i].height();
        let w = images[i].width();
        if h > height {
            height = h;
        }
        if w > width {
            width = w;
        }
        i += 1;
    }
    proof {
        assert(images@.take(images@.len() as int) =~= images@);
    }
    let mut data: Vec<T> = Vec::new();
    let mut b: usize = 0;
    while b < images.len()
        invariant
            b <= images@.len(),
            height == max_height(images@),
            width == max_width(images@),
            data@ == padded_batch(images@.take(b as int), CHANNELS as nat, height as nat, width as nat, fill),
        decreases images@.len() - b,
    {
        push_padded_image(&mut data, &images[b], CHANNELS, height, width, fill);
        proof {
            let t = images@.take(b + 1);
            assert(t.drop_last() =~= images@.take(b as int));
            assert(t.last() == images@[b as int]);
        }
        b += 1;
    }
    proof {
        assert(images@.take(images@.len() as int) =~= images@);
        lemma_padded_batch_len(images@, CHANNELS as nat, height as nat, width as nat, fill);
    }
    match ImageTensor::new(data, images.len(), CHANNELS, height, width) {
        Ok(t) => Ok(t),
        Err(e) => Err(e),
    }
}

proof fn lemma_plane_index<T>(image: Tensor4View<T>, c: int, rows: nat, width: nat, fill: T, y: int, x: int)
    requires
        0 <= y < rows,
        0 <= x < width,
    ensures
        padded_plane(image, c, rows, width, fill)[y * width + x] == pixel_or_fill(image, c, y, x, fill),
    decreases rows,
{
    let prev = padded_plane(image, c, (rows - 1) as nat, width, fill);
    lemma_padded_plane_len(image, c, (rows - 1) as nat, width, fill);
    if y < rows - 1 {
        lemma_plane_index(image, c, (rows - 1) as nat, width, fill, y, x);
        assert(y * width + x < (rows - 1) * width) by (nonlinear_arith)
            requires
                0 <= y < rows - 1,
                0 <= x < width,
        ;
        assert(0 <= y * width) by (nonlinear_arith)
            requires
                0 <= y,
        ;
    } else {
        assert(y * width == (rows - 1) * width);
    }
}

proof fn lemma_image_index<T>(image: Tensor4View<T>, channels: nat, height: nat, width: nat, fill: T, c: int, y: int, x: int)
    requires
        0 <= c < channels,
        0 <= y < height,
        0 <= x < width,
    ensures
        padded_image(image, channels, height, width, fill)[(c * height + y) * width + x] == pixel_or_fill(
            image,
            c,
            y,
            x,
            fill,
        ),
    decreases channels,
{
    let prev = padded_image(image, (channels - 1) as nat, height, width, fill);
    let plane = padded_plane(image, channels - 1, height, width, fill);
    lemma_padded_image_len(image, (channels - 1) as nat, height, width, fill);
    lemma_padded_plane_len(image, channels - 1, height, width, fill);
    assert(padded_image(image, channels, height, width, fill) == prev + plane);
    assert((c * height + y) * width + x == c * height * width + (y * width + x)) by (nonlinear_arith);
    assert(0 <= y * width + x < height * width) by (nonlinear_arith)
        requires
            0 <= y < height,
            0 <= x < width,
    ;
    if c < channels - 1 {
        lemma_image_index(image, (channels - 1) as nat, height, width, fill, c, y, x);
        assert(c * height * width + (y * width + x) < (channels - 1) * height * width) by (nonlinear_arith)
            requires
                0 <= c < channels - 1,
                0 <= y * width + x < height * width,
        ;
        assert(0 <= c * height * width) by (nonlinear_arith)
            requires
                0 <= c,
        ;
    } else {
        lemma_plane_index(image, channels - 1, height, width, fill, y, x);
        assert(c * height * width == (channels - 1) * height * width);
        assert((prev + plane)[c * height * width + (y * width + x)] == plane[y * width + x]);
    }
}

/// Where each value of the padded batch comes from: at image `b`, channel
/// `c`, row `y`, column `x` of the batch tensor stands that image's own value
/// when the position lies inside it, and the fill value otherwise.
pub proof fn lemma_padded_batch_index<T>(
    images: Seq<ImageTensor<T>>,
    channels: nat,
    height: nat,
    width: nat,
    fill: T,
    b: int,
    c: int,
    y: int,
    x: int,
)
    requires
        0 <= b < images.len(),
        0 <= c < channels,
        0 <= y < height,
        0 <= x < width,
    ensures
        padded_batch(images, channels, height, width, fill)[((b * channels + c) * height + y) * width + x]
            == pixel_or_fill(images[b]@, c, y, x, fill),
    decreases images.len(),
{
    let n = images.len() as int;
    lemma_padded_batch_len(images.drop_last(), channels, height, width, fill);
    lemma_image_index(images[n - 1]@, channels, height, width, fill, c, y, x);
    let inner = (c * height + y) * width + x;
    let prev = padded_batch(images.drop_last(), channels, height, width, fill);
    let last = padded_image(images[n - 1]@, channels, height, width, fill);
    lemma_padded_image_len(images[n - 1]@, channels, height, width, fill);
    assert(padded_batch(images, channels, height, width, fill) == prev + last);
    assert(((b * channels + c) * height + y) * width + x == b * channels * height * width + inner) by (nonlinear_arith)
        requires
            inner == (c * height + y) * width + x,
    ;
    assert(0 <= inner < channels * height * width) by (nonlinear_arith)
        requires
            0 <= c < channels,
            0 <= y < height,
            0 <= x < width,
            inner == (c * height + y) * width + x,
    ;
    if b < n - 1 {
        lemma_padded_batch_index(images.drop_last(), channels, height, width, fill, b, c, y, x);
        assert(images.drop_last()[b] == images[b]);
        assert(b * channels * height * width + inner < (n - 1) * channels * height * width) by (nonlinear_arith)
            requires
                0 <= b < n - 1,
                0 <= inner < channels * height * width,
        ;
        assert(0 <= b * channels * height * width) by (nonlinear_arith)
            requires
                0 <= b,
        ;
    } else {
        assert(b * channels * height * width == (n - 1) * channels * height * width);
        assert((prev + last)[b * channels * height * width + inner] == last[inner]);
    }
}

} // verus!
