//! Preprocessed image tensor.

use vstd::prelude::*;

use crate::model::tensor::{fits4, lemma_offset4_in_bounds, offset4, Tensor4View};
use crate::util::text::{decimal, dims_body, shape_text, with_number};
use crate::Error;

verus! {

/// Preprocessed image tensor accepted by the vision encoder, in NCHW layout with
/// shape `(batch_size, channels, height, width)`.
///
/// The element type is left open: the pipeline stores `f32` pixel values.
#[derive(Debug, PartialEq)]
pub struct ImageTensor<T> {
    data: Vec<T>,
    batch_size: usize,
    channels: usize,
    height: usize,
    width: usize,
}

/// The message given when data of length `len` does not fit the shape
/// `(d0, d1, d2, d3)`.
pub open spec fn pixel_shape_failure(len: nat, d0: usize, d1: usize, d2: usize, d3: usize) -> Seq<char> {
    if !fits4(d0 as int, d1 as int, d2 as int, d3 as int) {
        "pixel value shape is too large"@
    } else {
        "pixel value data length "@ + decimal(len) + " does not match shape "@ + seq!['('] + dims_body(
            seq![d0, d1, d2, d3],
        ) + seq![')']
    }
}

impl<T> View for ImageTensor<T> {
    type V = Tensor4View<T>;

    closed spec fn view(&self) -> Tensor4View<T> {
        Tensor4View {
            data: self.data@,
            d0: self.batch_size as nat,
            d1: self.channels as nat,
            d2: self.height as nat,
            d3: self.width as nat,
        }
    }
}

impl<T> ImageTensor<T> {
    #[verifier::type_invariant]
    spec fn well_formed(self) -> bool {
        self.data@.len() == self.batch_size * self.channels * self.height * self.width
    }

    /// Creates an image tensor from contiguous NCHW data and a shape; the data
    /// length must be the product of the dimensions.
    pub fn new(data: Vec<T>, batch_size: usize, channels: usize, height: usize, width: usize) -> (r:
        Result<Self, Error>)
        ensures
            r is Ok <==> fits4(batch_size as int, channels as int, height as int, width as int)
                && data@.len() == batch_size * channels * height * width,
            r matches Ok(t) ==> t@ == (Tensor4View {
                data: data@,
                d0: batch_size as nat,
                d1: channels as nat,
                d2: height as nat,
                d3: width as nat,
            }),
            r matches Err(e) ==> e matches Error::ImageProcessing { reason }
                && reason@ == pixel_shape_failure(data@.len(), batch_size, channels, height, width),
    {
        let expected = match batch_size.checked_mul(channels) {
            Some(p) => match p.checked_mul(height) {
                Some(q) => q.checked_mul(width),
                None => None,
            },
            None => None,
        };
        let expected = match expected {
            Some(n) => n,
            None => {
                return Err(Error::ImageProcessing { reason: "pixel value shape is too large".to_owned() });
            },
        };
        if data.len() != expected {
            let mut reason = with_number("pixel value data length ", data.len() as u64, " does not match shape ");
            let dims = [batch_size, channels, height, width];
            assert(dims@ =~= seq![batch_size, channels, height, width]);
            reason.append(shape_text(&dims).as_str());
            return Err(Error::ImageProcessing { reason });
        }
        Ok(ImageTensor { data, batch_size, channels, height, width })
    }

    /// The pixel values as a contiguous NCHW slice.
    pub fn as_slice(&self) -> (s: &[T])
        ensures
            s@ == self@.data,
            s@.len() == self@.d0 * self@.d1 * self@.d2 * self@.d3,
    {
        proof {
            use_type_invariant(self);
        }
        self.data.as_slice()
    }

    /// The shape `(batch_size, channels, height, width)`.
    pub fn shape(&self) -> (s: (usize, usize, usize, usize))
        ensures
            s.0 == self@.d0 && s.1 == self@.d1 && s.2 == self@.d2 && s.3 == self@.d3,
    {
        (self.batch_size, self.channels, self.height, self.width)
    }

    /// The batch size.
    pub fn batch_size(&self) -> (n: usize)
        ensures
            n == self@.d0,
    {
        self.batch_size
    }

    /// The number of image channels.
    pub fn channels(&self) -> (n: usize)
        ensures
            n == self@.d1,
    {
        self.channels
    }

    /// The image height.
    pub fn height(&self) -> (n: usize)
        ensures
            n == self@.d2,
    {
        self.height
    }

    /// The image width.
    pub fn width(&self) -> (n: usize)
        ensures
            n == self@.d3,
    {
        self.width
    }
}

impl<T: Clone> Clone for ImageTensor<T> {
    fn clone(&self) -> (c: Self)
        ensures
            c@.d0 == self@.d0 && c@.d1 == self@.d1 && c@.d2 == self@.d2 && c@.d3 == self@.d3,
            c@.data.len() == self@.data.len(),
    {
        proof {
            use_type_invariant(self);
        }
        ImageTensor {
            data: self.data.clone(),
            batch_size: self.batch_size,
            channels: self.channels,
            height: self.height,
            width: self.width,
        }
    }
}

impl<T: Copy> ImageTensor<T> {
    /// One pixel value, or `None` when an index is out of range.
    pub fn get(&self, batch: usize, channel: usize, y: usize, x: usize) -> (r: Option<T>)
        ensures
            r == (if batch < self@.d0 && channel < self@.d1 && y < self@.d2 && x < self@.d3 {
                Some(self@.data[offset4(batch as int, channel as int, y as int, x as int,
                    self@.d1 as int, self@.d2 as int, self@.d3 as int)])
            } else {
                None
            }),
    {
        proof {
            use_type_invariant(self);
        }
        if batch >= self.batch_size || channel >= self.channels || y >= self.height || x >= self.width {
            return None;
        }
        let len = self.data.len();
        proof {
            lemma_offset4_in_bounds(batch as int, channel as int, y as int, x as int,
                self.batch_size as int, self.channels as int, self.height as int, self.width as int);
            assert(len == self.data@.len());
        }
        let offset = ((batch * self.channels + channel) * self.height + y) * self.width + x;
        Some(self.data[offset])
    }
}

} // verus!
