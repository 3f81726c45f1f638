//! Token and multimodal embedding tensor.

use vstd::prelude::*;

use crate::model::tensor::{fits3, lemma_offset3_in_bounds, offset3, shape3_text, Tensor3View};
use crate::util::text::{decimal, shape_text, with_number};
use crate::Error;

verus! {

/// Embeddings consumed by the decoder, with shape `(batch_size, sequence_length, hidden_size)`.
///
/// The element type is left open: the pipeline stores `f32` values.
#[derive(Debug, PartialEq)]
pub struct InputEmbeddings<T> {
    data: Vec<T>,
    batch_size: usize,
    sequence_length: usize,
    hidden_size: usize,
}

/// The message given when data of length `len` does not fit the shape
/// `(d0, d1, d2)`.
pub open spec fn embedding_shape_failure(len: nat, d0: usize, d1: usize, d2: usize) -> Seq<char> {
    if !fits3(d0 as int, d1 as int, d2 as int) {
        "input embedding shape is too large"@
    } else {
        "input embedding data length "@ + decimal(len) + " does not match shape "@ + shape3_text(d0, d1, d2)
    }
}

impl<T> View for InputEmbeddings<T> {
    type V = Tensor3View<T>;

    closed spec fn view(&self) -> Tensor3View<T> {
        Tensor3View {
            data: self.data@,
            d0: self.batch_size as nat,
            d1: self.sequence_length as nat,
            d2: self.hidden_size as nat,
        }
    }
}

impl<T> InputEmbeddings<T> {
    #[verifier::type_invariant]
    spec fn well_formed(self) -> bool {
        self.data@.len() == self.batch_size * self.sequence_length * self.hidden_size
    }

    /// Creates the tensor from contiguous data and a shape; the data length must be
    /// the product of the dimensions.
    pub fn new(data: Vec<T>, batch_size: usize, sequence_length: usize, hidden_size: usize) -> (r:
        Result<Self, Error>)
        ensures
            r is Ok <==> fits3(batch_size as int, sequence_length as int, hidden_size as int)
                && data@.len() == batch_size * sequence_length * hidden_size,
            r matches Ok(l) ==> l@ == (Tensor3View {
                data: data@,
                d0: batch_size as nat,
                d1: sequence_length as nat,
                d2: hidden_size as nat,
            }),
            r matches Err(e) ==> e matches Error::InvalidEmbeddingOutput { reason }
                && reason@ == embedding_shape_failure(data@.len(), batch_size, sequence_length, hidden_size),
    {
        let expected = match batch_size.checked_mul(sequence_length) {
            Some(p) => p.checked_mul(hidden_size),
            None => None,
        };
        let expected = match expected {
            Some(n) => n,
            None => {
                return Err(Error::InvalidEmbeddingOutput { reason: "input embedding shape is too large".to_owned() });
            },
        };
        if data.len() != expected {
            let mut reason = with_number("input embedding data length ", data.len() as u64, " does not match shape ");
            let dims = [batch_size, sequence_length, hidden_size];
            assert(dims@ =~= seq![batch_size, sequence_length, hidden_size]);
            reason.append(shape_text(&dims).as_str());
            return Err(Error::InvalidEmbeddingOutput { reason });
        }
        Ok(InputEmbeddings { data, batch_size, sequence_length, hidden_size })
    }

    /// The values as a contiguous slice.
    pub fn as_slice(&self) -> (s: &[T])
        ensures
            s@ == self@.data,
            s@.len() == self@.d0 * self@.d1 * self@.d2,
    {
        proof {
            use_type_invariant(self);
        }
        self.data.as_slice()
    }

    /// The shape `(batch_size, sequence_length, hidden_size)`.
    pub fn shape(&self) -> (s: (usize, usize, usize))
        ensures
            s.0 == self@.d0 && s.1 == self@.d1 && s.2 == self@.d2,
    {
        (self.batch_size, self.sequence_length, self.hidden_size)
    }

    /// The batch size.
    pub fn batch_size(&self) -> (n: usize)
        ensures
            n == self@.d0,
    {
        self.batch_size
    }

    /// The sequence length.
    pub fn sequence_length(&self) -> (n: usize)
        ensures
            n == self@.d1,
    {
        self.sequence_length
    }

    /// The hidden size.
    pub fn hidden_size(&self) -> (n: usize)
        ensures
            n == self@.d2,
    {
        self.hidden_size
    }

    /// Consumes the tensor and returns the underlying buffer.
    pub fn into_data(self) -> (d: Vec<T>)
        ensures
            d@ == self@.data,
    {
        self.data
    }
}

impl<T: Clone> Clone for InputEmbeddings<T> {
    fn clone(&self) -> (c: Self)
        ensures
            c@.d0 == self@.d0 && c@.d1 == self@.d1 && c@.d2 == self@.d2,
            c@.data.len() == self@.data.len(),
    {
        proof {
            use_type_invariant(self);
        }
        InputEmbeddings {
            data: self.data.clone(),
            batch_size: self.batch_size,
            sequence_length: self.sequence_length,
            hidden_size: self.hidden_size,
        }
    }
}

impl<T: Copy> InputEmbeddings<T> {
    /// One value, or `None` when an index is out of range.
    pub fn get(&self, batch: usize, sequence: usize, hidden: usize) -> (r: Option<T>)
        ensures
            r == (if batch < self@.d0 && sequence < self@.d1 && hidden < self@.d2 {
                Some(self@.data[offset3(batch as int, sequence as int, hidden as int, self@.d1 as int, self@.d2 as int)])
            } else {
                None
            }),
    {
        proof {
            use_type_invariant(self);
        }
        if batch >= self.batch_size || sequence >= self.sequence_length || hidden >= self.hidden_size {
            return None;
        }
        let len = self.data.len();
        proof {
            lemma_offset3_in_bounds(batch as int, sequence as int, hidden as int,
                self.batch_size as int, self.sequence_length as int, self.hidden_size as int);
            assert(len == self.data@.len());
        }
        let offset = (batch * self.sequence_length + sequence) * self.hidden_size + hidden;
        Some(self.data[offset])
    }
}

} // verus!
