//! Decoder attention-mask tensor.

use vstd::prelude::*;

verus! {

/// Attention mask consumed by the decoder: `int64` values with shape
/// `(batch_size, total_sequence_length)`; `1` marks a visible position.
#[derive(Debug, Clone, PartialEq, Eq)]
pub struct AttentionMask {
    mask: Vec<i64>,
}

impl View for AttentionMask {
    type V = Seq<i64>;

    closed spec fn view(&self) -> Seq<i64> {
        self.mask@
    }
}

impl AttentionMask {
    /// Creates a mask from model-ready values.
    pub fn new(mask: Vec<i64>) -> (m: Self)
        ensures
            m@ == mask@,
    {
        AttentionMask { mask }
    }

    /// Creates a mask of `length` visible positions.
    pub fn ones(length: usize) -> (m: Self)
        ensures
            m@ == Seq::new(length as nat, |i: int| 1i64),
    {
        let mut mask: Vec<i64> = Vec::new();
        let mut i: usize = 0;
        while i < length
            invariant
                i <= length,
                mask@ == Seq::new(i as nat, |k: int| 1i64),
            decreases length - i,
        {
            mask.push(1);
            i += 1;
            assert(mask@ =~= Seq::new(i as nat, |k: int| 1i64));
        }
        AttentionMask { mask }
    }

    /// The mask values as a slice.
    pub fn as_slice(&self) -> (s: &[i64])
        ensures
            s@ == self@,
    {
        self.mask.as_slice()
    }

    /// The number of entries.
    pub fn len(&self) -> (n: usize)
        ensures
            n == self@.len(),
    {
        self.mask.len()
    }

    /// Whether the mask has no entries.
    pub fn is_empty(&self) -> (b: bool)
        ensures
            b == (self@.len() == 0),
    {
        self.mask.len() == 0
    }

    /// Marks every existing position visible.
    pub fn fill_visible(&mut self)
        ensures
            final(self)@ == Seq::new(old(self)@.len(), |i: int| 1i64),
    {
        let n = self.mask.len();
        let mut i: usize = 0;
        while i < n
            invariant
                i <= n,
                n == self.mask@.len(),
                forall|k: int| 0 <= k < i ==> self.mask@[k] == 1i64,
            decreases n - i,
        {
            self.mask.set(i, 1);
            i += 1;
        }
        assert(self.mask@ =~= Seq::new(n as nat, |i: int| 1i64));
    }

    /// Appends one visible position.
    pub fn push_visible(&mut self)
        ensures
            final(self)@ == old(self)@.push(1i64),
    {
        self.mask.push(1);
    }
}

} // verus!
