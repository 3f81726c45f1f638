//! Decoder logits tensor.

use vstd::prelude::*;

use crate::model::tensor::{fits3, lemma_offset3_in_bounds, offset3, shape3_text, Tensor3View};
use crate::util::text::{decimal, shape_text, with_number};
use crate::Error;

verus! {

/// Decoder logits with shape `(batch_size, sequence_length, vocab_size)`.
///
/// The element type is left open: the pipeline stores `f32` scores.
#[derive(Debug, PartialEq)]
pub struct Logits<T> {
    data: Vec<T>,
    batch_size: usize,
    sequence_length: usize,
    vocab_size: usize,
}

impl<T> View for Logits<T> {
    type V = Tensor3View<T>;

    closed spec fn view(&self) -> Tensor3View<T> {
        Tensor3View {
            data: self.data@,
            d0: self.batch_size as nat,
            d1: self.sequence_length as nat,
            d2: self.vocab_size as nat,
        }
    }
}

impl<T> Logits<T> {
    #[verifier::type_invariant]
    spec fn well_formed(self) -> bool {
        self.data@.len() == self.batch_size * self.sequence_length * self.vocab_size
    }

    /// Creates logits from contiguous data and a shape; the data length must be
    /// the product of the dimensions.
    pub fn new(data: Vec<T>, batch_size: usize, sequence_length: usize, vocab_size: usize) -> (r:
        Result<Self, Error>)
        ensures
            r is Ok <==> fits3(batch_size as int, sequence_length as int, vocab_size as int)
                && data@.len() == batch_size * sequence_length * vocab_size,
            r matches Ok(l) ==> l@ == (Tensor3View {
                data: data@,
                d0: batch_size as nat,
                d1: sequence_length as nat,
                d2: vocab_size as nat,
            }),
            r matches Err(e) ==> e matches Error::InvalidDecoderOutput { reason } && reason@ == (if !fits3(
                batch_size as int,
                sequence_length as int,
                vocab_size as int,
            ) {
                "logits shape is too large"@
            } else {
                "logits data length "@ + decimal(data@.len()) + " does not match shape "@ + shape3_text(
                    batch_size,
                    sequence_length,
                    vocab_size,
                )
            }),
    {
        let expected = match batch_size.checked_mul(sequence_length) {
            Some(p) => p.checked_mul(vocab_size),
            None => None,
        };
        let expected = match expected {
            Some(n) => n,
            None => {
                return Err(Error::InvalidDecoderOutput { reason: "logits shape is too large".to_owned() });
            },
        };
        if data.len() != expected {
            let mut reason = with_number("logits data length ", data.len() as u64, " does not match shape ");
            let dims = [batch_size, sequence_length, vocab_size];
            assert(dims@ =~= seq![batch_size, sequence_length, vocab_size]);
            reason.append(shape_text(&dims).as_str());
            return Err(Error::InvalidDecoderOutput { reason });
        }
        Ok(Logits { data, batch_size, sequence_length, vocab_size })
    }

    /// The logits as a contiguous slice.
    pub fn as_slice(&self) -> (s: &[T])
        ensures
            s@ == self@.data,
            s@.len() == self@.d0 * self@.d1 * self@.d2,
    {
        proof {
            use_type_invariant(self);
        }
        self.data.as_slice()
    }

    /// The shape `(batch_size, sequence_length, vocab_size)`.
    pub fn shape(&self) -> (s: (usize, usize, usize))
        ensures
            s.0 == self@.d0 && s.1 == self@.d1 && s.2 == self@.d2,
    {
        (self.batch_size, self.sequence_length, self.vocab_size)
    }

    /// The batch size.
    pub fn batch_size(&self) -> (n: usize)
        ensures
            n == self@.d0,
    {
        self.batch_size
    }

    /// The sequence length.
    pub fn sequence_length(&self) -> (n: usize)
        ensures
            n == self@.d1,
    {
        self.sequence_length
    }

    /// The vocabulary size.
    pub fn vocab_size(&self) -> (n: usize)
        ensures
            n == self@.d2,
    {
        self.vocab_size
    }

    /// Consumes the logits and returns the underlying buffer.
    pub fn into_data(self) -> (d: Vec<T>)
        ensures
            d@ == self@.data,
    {
        self.data
    }
}

impl<T: Clone> Clone for Logits<T> {
    fn clone(&self) -> (c: Self)
        ensures
            c@.d0 == self@.d0 && c@.d1 == self@.d1 && c@.d2 == self@.d2,
            c@.data.len() == self@.data.len(),
    {
        proof {
            use_type_invariant(self);
        }
        Logits {
            data: self.data.clone(),
            batch_size: self.batch_size,
            sequence_length: self.sequence_length,
            vocab_size: self.vocab_size,
        }
    }
}

impl<T: Copy> Logits<T> {
    /// One logit, or `None` when an index is out of range.
    pub fn get(&self, batch: usize, sequence: usize, token: usize) -> (r: Option<T>)
        ensures
            r == (if batch < self@.d0 && sequence < self@.d1 && token < self@.d2 {
                Some(self@.data[offset3(batch as int, sequence as int, token as int, self@.d1 as int, self@.d2 as int)])
            } else {
                None
            }),
    {
        proof {
            use_type_invariant(self);
        }
        if batch >= self.batch_size || sequence >= self.sequence_length || token >= self.vocab_size {
            return None;
        }
        let len = self.data.len();
        proof {
            lemma_offset3_in_bounds(batch as int, sequence as int, token as int,
                self.batch_size as int, self.sequence_length as int, self.vocab_size as int);
            assert(len == self.data@.len());
        }
        let offset = (batch * self.sequence_length + sequence) * self.vocab_size + token;
        Some(self.data[offset])
    }
}

} // verus!
