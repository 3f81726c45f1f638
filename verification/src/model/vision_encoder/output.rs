//! Image feature tensor.

use vstd::prelude::*;

use crate::model::tensor::{fits3, lemma_offset3_in_bounds, offset3, shape3_text, Tensor3View};
use crate::util::text::{decimal, shape_text, with_number};
use crate::Error;

verus! {

/// Image features produced by the vision encoder, with shape `(batch_size, num_merged_patches, hidden_size)`.
///
/// The element type is left open: the pipeline stores `f32` values.
#[derive(Debug, PartialEq)]
pub struct ImageFeatures<T> {
    data: Vec<T>,
    batch_size: usize,
    num_merged_patches: usize,
    hidden_size: usize,
}

/// The message given when data of length `len` does not fit the shape
/// `(d0, d1, d2)`.
pub open spec fn feature_shape_failure(len: nat, d0: usize, d1: usize, d2: usize) -> Seq<char> {
    if !fits3(d0 as int, d1 as int, d2 as int) {
        "image feature shape is too large"@
    } else {
        "image feature data length "@ + decimal(len) + " does not match shape "@ + shape3_text(d0, d1, d2)
    }
}

impl<T> View for ImageFeatures<T> {
    type V = Tensor3View<T>;

    closed spec fn view(&self) -> Tensor3View<T> {
        Tensor3View {
            data: self.data@,
            d0: self.batch_size as nat,
            d1: self.num_merged_patches as nat,
            d2: self.hidden_size as nat,
        }
    }
}

impl<T> ImageFeatures<T> {
    #[verifier::type_invariant]
    spec fn well_formed(self) -> bool {
        self.data@.len() == self.batch_size * self.num_merged_patches * self.hidden_size
    }

    /// Creates the tensor from contiguous data and a shape; the data length must be
    /// the product of the dimensions.
    pub fn new(data: Vec<T>, batch_size: usize, num_merged_patches: usize, hidden_size: usize) -> (r:
        Result<Self, Error>)
        ensures
            r is Ok <==> fits3(batch_size as int, num_merged_patches as int, hidden_size as int)
                && data@.len() == batch_size * num_merged_patches * hidden_size,
            r matches Ok(l) ==> l@ == (Tensor3View {
                data: data@,
                d0: batch_size as nat,
                d1: num_merged_patches as nat,
                d2: hidden_size as nat,
            }),
            r matches Err(e) ==> e matches Error::InvalidVisionOutput { reason }
                && reason@ == feature_shape_failure(data@.len(), batch_size, num_merged_patches, hidden_size),
    {
        let expected = match batch_size.checked_mul(num_merged_patches) {
            Some(p) => p.checked_mul(hidden_size),
            None => None,
        };
        let expected = match expected {
            Some(n) => n,
            None => {
                return Err(Error::InvalidVisionOutput { reason: "image feature shape is too large".to_owned() });
            },
        };
        if data.len() != expected {
            let mut reason = with_number("image feature data length ", data.len() as u64, " does not match shape ");
            let dims = [batch_size, num_merged_patches, hidden_size];
            assert(dims@ =~= seq![batch_size, num_merged_patches, hidden_size]);
            reason.append(shape_text(&dims).as_str());
            return Err(Error::InvalidVisionOutput { reason });
        }
        Ok(ImageFeatures { data, batch_size, num_merged_patches, hidden_size })
    }

    /// The values as a contiguous slice.
    pub fn as_slice(&self) -> (s: &[T])
        ensures
            s@ == self@.data,
            s@.len() == self@.d0 * self@.d1 * self@.d2,
    {
        proof {
            use_type_invariant(self);
        }
        self.data.as_slice()
    }

    /// The shape `(batch_size, num_merged_patches, hidden_size)`.
    pub fn shape(&self) -> (s: (usize, usize, usize))
        ensures
            s.0 == self@.d0 && s.1 == self@.d1 && s.2 == self@.d2,
    {
        (self.batch_size, self.num_merged_patches, self.hidden_size)
    }

    /// The batch size.
    pub fn batch_size(&self) -> (n: usize)
        ensures
            n == self@.d0,
    {
        self.batch_size
    }

    /// The number of merged vision patches.
    pub fn num_merged_patches(&self) -> (n: usize)
        ensures
            n == self@.d1,
    {
        self.num_merged_patches
    }

    /// The vision hidden size.
    pub fn hidden_size(&self) -> (n: usize)
        ensures
            n == self@.d2,
    {
        self.hidden_size
    }

    /// Consumes the tensor and returns the underlying buffer.
    pub fn into_data(self) -> (d: Vec<T>)
        ensures
            d@ == self@.data,
    {
        self.data
    }
}

impl<T: Clone> Clone for ImageFeatures<T> {
    fn clone(&self) -> (c: Self)
        ensures
            c@.d0 == self@.d0 && c@.d1 == self@.d1 && c@.d2 == self@.d2,
            c@.data.len() == self@.data.len(),
    {
        proof {
            use_type_invariant(self);
        }
        ImageFeatures {
            data: self.data.clone(),
            batch_size: self.batch_size,
            num_merged_patches: self.num_merged_patches,
            hidden_size: self.hidden_size,
        }
    }
}

impl<T: Copy> ImageFeatures<T> {
    /// One value, or `None` when an index is out of range.
    pub fn get(&self, batch: usize, patch: usize, hidden: usize) -> (r: Option<T>)
        ensures
            r == (if batch < self@.d0 && patch < self@.d1 && hidden < self@.d2 {
                Some(self@.data[offset3(batch as int, patch as int, hidden as int, self@.d1 as int, self@.d2 as int)])
            } else {
                None
            }),
    {
        proof {
            use_type_invariant(self);
        }
        if batch >= self.batch_size || patch >= self.num_merged_patches || hidden >= self.hidden_size {
            return None;
        }
        let len = self.data.len();
        proof {
            lemma_offset3_in_bounds(batch as int, patch as int, hidden as int,
                self.batch_size as int, self.num_merged_patches as int, self.hidden_size as int);
            assert(len == self.data@.len());
        }
        let offset = (batch * self.num_merged_patches + patch) * self.hidden_size + hidden;
        Some(self.data[offset])
    }
}

impl<T: Copy> ImageFeatures<T> {
    /// Overwrites the tensor in place from contiguous data and a shape; on error
    /// the tensor is left unchanged.
    pub fn copy_from_slice(
        &mut self,
        data: &[T],
        batch_size: usize,
        num_merged_patches: usize,
        hidden_size: usize,
    ) -> (r: Result<(), Error>)
        ensures
            r is Ok <==> fits3(batch_size as int, num_merged_patches as int, hidden_size as int)
                && data@.len() == batch_size * num_merged_patches * hidden_size,
            r is Ok ==> final(self)@ == (Tensor3View {
                data: data@,
                d0: batch_size as nat,
                d1: num_merged_patches as nat,
                d2: hidden_size as nat,
            }),
            r is Err ==> final(self)@ == old(self)@,
            r matches Err(e) ==> e matches Error::InvalidVisionOutput { reason }
                && reason@ == feature_shape_failure(data@.len(), batch_size, num_merged_patches, hidden_size),
    {
        let expected = match batch_size.checked_mul(num_merged_patches) {
            Some(p) => p.checked_mul(hidden_size),
            None => None,
        };
        let expected = match expected {
            Some(n) => n,
            None => {
                return Err(Error::InvalidVisionOutput { reason: "image feature shape is too large".to_owned() });
            },
        };
        if data.len() != expected {
            let mut reason = with_number("image feature data length ", data.len() as u64, " does not match shape ");
            let dims = [batch_size, num_merged_patches, hidden_size];
            assert(dims@ =~= seq![batch_size, num_merged_patches, hidden_size]);
            reason.append(shape_text(&dims).as_str());
            return Err(Error::InvalidVisionOutput { reason });
        }
        let empty: Vec<T> = Vec::new();
        assert(empty@.len() == 0 * 0 * 0);
        let mut previous = ImageFeatures {
            data: empty,
            batch_size: 0,
            num_merged_patches: 0,
            hidden_size: 0,
        };
        std::mem::swap(self, &mut previous);
        let mut buffer = previous.data;
        buffer.clear();
        let mut i: usize = 0;
        while i < data.len()
            invariant
                i <= data@.len(),
                buffer@ == data@.take(i as int),
            decreases data@.len() - i,
        {
            buffer.push(data[i]);
            i += 1;
            assert(buffer@ =~= data@.take(i as int));
        }
        assert(data@.take(data@.len() as int) =~= data@);
        *self = ImageFeatures { data: buffer, batch_size, num_merged_patches, hidden_size };
        Ok(())
    }
}

} // verus!
