//! Decoder key/value cache.

use vstd::prelude::*;

use crate::model::decoder::config::DecoderConfig;
use crate::util::text::{decimal, dims_body, shape_text, with_number};
use crate::Error;

verus! {

/// Whether `batch * heads * sequence * head_dim`, computed in that order, fits
/// in `usize`.
pub open spec fn fits_kv(batch: int, sequence: int, heads: int, head_dim: int) -> bool {
    batch * heads <= usize::MAX && batch * heads * sequence <= usize::MAX
        && batch * heads * sequence * head_dim <= usize::MAX
}

/// Number of values in one key or value tensor of shape
/// `(batch, heads, sequence, head_dim)`.
pub fn values_per_tensor(
    batch_size: usize,
    sequence_length: usize,
    num_key_value_heads: usize,
    head_dim: usize,
) -> (r: Result<usize, Error>)
    ensures
        r is Ok <==> fits_kv(batch_size as int, sequence_length as int, num_key_value_heads as int, head_dim as int),
        r matches Ok(n) ==> n == batch_size * num_key_value_heads * sequence_length * head_dim,
        r matches Err(e) ==> e matches Error::InvalidKVCache { reason }
            && reason@ == "KV cache tensor shape is too large"@,
{
    let n = match batch_size.checked_mul(num_key_value_heads) {
        Some(a) => match a.checked_mul(sequence_length) {
            Some(b) => b.checked_mul(head_dim),
            None => None,
        },
        None => None,
    };
    match n {
        Some(n) => Ok(n),
        None => Err(Error::InvalidKVCache { reason: "KV cache tensor shape is too large".to_owned() }),
    }
}

/// Key and value tensors of one decoder layer, each with shape
/// `(batch_size, num_key_value_heads, past_sequence_length, head_dim)`.
///
/// The element type is left open: the pipeline stores `f32` values.
#[derive(Debug, Clone, PartialEq)]
pub struct LayerCache<T> {
    key: Vec<T>,
    value: Vec<T>,
}

impl<T> View for LayerCache<T> {
    type V = (Seq<T>, Seq<T>);

    closed spec fn view(&self) -> (Seq<T>, Seq<T>) {
        (self.key@, self.value@)
    }
}

impl<T> LayerCache<T> {
    /// Creates a layer cache from key and value data.
    pub fn new(key: Vec<T>, value: Vec<T>) -> (c: Self)
        ensures
            c@ == (key@, value@),
    {
        LayerCache { key, value }
    }

    /// The key data.
    pub fn key(&self) -> (s: &[T])
        ensures
            s@ == self@.0,
    {
        self.key.as_slice()
    }

    /// The value data.
    pub fn value(&self) -> (s: &[T])
        ensures
            s@ == self@.1,
    {
        self.value.as_slice()
    }
}

/// Abstract content of a KV cache.
pub struct KVCacheView<T> {
    pub layers: Seq<(Seq<T>, Seq<T>)>,
    pub batch_size: nat,
    pub past_sequence_length: nat,
    pub num_key_value_heads: nat,
    pub head_dim: nat,
}

/// Whether a cache with these dimensions and layers satisfies the cache contract.
pub open spec fn kv_cache_valid<T>(
    layers: Seq<(Seq<T>, Seq<T>)>,
    batch_size: int,
    past_sequence_length: int,
    num_key_value_heads: int,
    head_dim: int,
) -> bool {
    &&& batch_size > 0
    &&& num_key_value_heads > 0
    &&& head_dim > 0
    &&& fits_kv(batch_size, past_sequence_length, num_key_value_heads, head_dim)
    &&& forall|i: int| 0 <= i < layers.len() ==> {
        &&& (#[trigger] layers[i]).0.len() == batch_size * num_key_value_heads * past_sequence_length * head_dim
        &&& layers[i].1.len() == batch_size * num_key_value_heads * past_sequence_length * head_dim
    }
}

/// Whether the key or value data of layer `i` has a length other than `n`.
pub open spec fn layer_mismatch<T>(layers: Seq<(Seq<T>, Seq<T>)>, n: int, i: int) -> bool {
    layers[i].0.len() != n || layers[i].1.len() != n
}

/// The first layer whose data does not have length `n`.
pub open spec fn first_mismatched_layer<T>(layers: Seq<(Seq<T>, Seq<T>)>, n: int) -> int {
    choose|i: int| 0 <= i < layers.len() && layer_mismatch(layers, n, i)
        && forall|j: int| 0 <= j < i ==> !layer_mismatch(layers, n, j)
}

/// A KV tensor shape rendered as `(batch, heads, sequence, head_dim)`.
pub open spec fn kv_shape_text(batch: usize, sequence: usize, heads: usize, head_dim: usize) -> Seq<char> {
    seq!['('] + dims_body(seq![batch, heads, sequence, head_dim]) + seq![')']
}

/// The message given for a cache that breaks its contract: the first check
/// that fails, and for data of the wrong length the first such layer.
pub open spec fn kv_cache_failure<T>(
    layers: Seq<(Seq<T>, Seq<T>)>,
    batch_size: usize,
    past_sequence_length: usize,
    num_key_value_heads: usize,
    head_dim: usize,
) -> Seq<char> {
    if batch_size == 0 {
        "batch size must be greater than zero"@
    } else if num_key_value_heads == 0 {
        "KV head count must be greater than zero"@
    } else if head_dim == 0 {
        "KV head dimension must be greater than zero"@
    } else if !fits_kv(batch_size as int, past_sequence_length as int, num_key_value_heads as int, head_dim as int) {
        "KV cache tensor shape is too large"@
    } else {
        let n = batch_size * num_key_value_heads * past_sequence_length * head_dim;
        let i = first_mismatched_layer(layers, n);
        let shape = kv_shape_text(batch_size, past_sequence_length, num_key_value_heads, head_dim);
        if layers[i].0.len() != n {
            "layer "@ + decimal(i as nat) + " key length "@ + (""@ + decimal(layers[i].0.len())
                + " does not match shape "@) + shape
        } else {
            "layer "@ + decimal(i as nat) + " value length "@ + (""@ + decimal(layers[i].1.len())
                + " does not match shape "@) + shape
        }
    }
}

/// Host-resident decoder key/value cache: one [`LayerCache`] per decoder layer.
#[derive(Debug, PartialEq)]
pub struct KVCache<T> {
    layers: Vec<LayerCache<T>>,
    batch_size: usize,
    past_sequence_length: usize,
    num_key_value_heads: usize,
    head_dim: usize,
}

impl<T> View for KVCache<T> {
    type V = KVCacheView<T>;

    closed spec fn view(&self) -> KVCacheView<T> {
        KVCacheView {
            layers: self.layers@.map_values(|l: LayerCache<T>| l@),
            batch_size: self.batch_size as nat,
            past_sequence_length: self.past_sequence_length as nat,
            num_key_value_heads: self.num_key_value_heads as nat,
            head_dim: self.head_dim as nat,
        }
    }
}

proof fn lemma_first_mismatch<T>(layers: Seq<(Seq<T>, Seq<T>)>, n: int, k: int)
    requires
        0 <= k < layers.len(),
        layer_mismatch(layers, n, k),
        forall|j: int| 0 <= j < k ==> !layer_mismatch(layers, n, j),
    ensures
        first_mismatched_layer(layers, n) == k,
{
    let i = first_mismatched_layer(layers, n);
    assert(0 <= i < layers.len() && layer_mismatch(layers, n, i)
        && forall|j: int| 0 <= j < i ==> !layer_mismatch(layers, n, j));
    if i < k {
        assert(!layer_mismatch(layers, n, i));
    } else if k < i {
        assert(!layer_mismatch(layers, n, k));
    }
}

impl<T> KVCache<T> {
    #[verifier::type_invariant]
    spec fn well_formed(self) -> bool {
        kv_cache_valid(
            self.layers@.map_values(|l: LayerCache<T>| l@),
            self.batch_size as int,
            self.past_sequence_length as int,
            self.num_key_value_heads as int,
            self.head_dim as int,
        )
    }

    /// An empty cache (no past positions) for a decoder configuration.
    pub fn empty(config: &DecoderConfig, batch_size: usize) -> (r: Result<Self, Error>)
        ensures
            r is Ok <==> batch_size > 0 && config.num_key_value_heads > 0 && config.head_dim > 0
                && batch_size * config.num_key_value_heads <= usize::MAX,
            r matches Ok(c) ==> {
                &&& c@.layers.len() == config.num_hidden_layers
                &&& c@.batch_size == batch_size
                &&& c@.past_sequence_length == 0
                &&& c@.num_key_value_heads == config.num_key_value_heads
                &&& c@.head_dim == config.head_dim
                &&& forall|i: int| 0 <= i < c@.layers.len() ==> (#[trigger] c@.layers[i]).0.len() == 0
                    && c@.layers[i].1.len() == 0
            },
            r matches Err(e) ==> e matches Error::InvalidKVCache { reason } && reason@ == (if batch_size == 0 {
                "batch size must be greater than zero"@
            } else if config.num_key_value_heads == 0 {
                "KV head count must be greater than zero"@
            } else if config.head_dim == 0 {
                "KV head dimension must be greater than zero"@
            } else {
                "KV cache tensor shape is too large"@
            }),
    {
        if batch_size == 0 {
            return Err(Error::InvalidKVCache { reason: "batch size must be greater than zero".to_owned() });
        }
        let mut layers: Vec<LayerCache<T>> = Vec::new();
        let mut i: usize = 0;
        while i < config.num_hidden_layers
            invariant
                i <= config.num_hidden_layers,
                layers@.len() == i,
                forall|k: int| 0 <= k < i ==> (#[trigger] layers@[k])@.0.len() == 0 && layers@[k]@.1.len() == 0,
            decreases config.num_hidden_layers - i,
        {
            layers.push(LayerCache::new(Vec::new(), Vec::new()));
            i += 1;
        }
        let r = Self::new(layers, batch_size, 0, config.num_key_value_heads, config.head_dim);
        proof {
            let ls = layers@.map_values(|l: LayerCache<T>| l@);
            if r is Err && batch_size > 0 && config.num_key_value_heads > 0 && config.head_dim > 0
                && batch_size * config.num_key_value_heads <= usize::MAX {
                assert(batch_size * config.num_key_value_heads * 0 == 0);
                assert(batch_size * config.num_key_value_heads * 0 * config.head_dim == 0);
                assert forall|k: int| 0 <= k < ls.len() implies (#[trigger] ls[k]).0.len() == 0
                    && ls[k].1.len() == 0 by {
                    assert(ls[k] == layers@[k]@);
                }
                assert(kv_cache_valid(ls, batch_size as int, 0, config.num_key_value_heads as int,
                    config.head_dim as int));
            }
            if r is Err {
                assert forall|k: int| 0 <= k < ls.len() implies (#[trigger] ls[k]).0.len()
                    == batch_size * config.num_key_value_heads * 0 * config.head_dim
                    && ls[k].1.len() == batch_size * config.num_key_value_heads * 0 * config.head_dim by {
                    assert(ls[k] == layers@[k]@);
                    assert(batch_size * config.num_key_value_heads * 0 == 0);
                }
            }
        }
        r
    }

    /// Creates a cache from per-layer key/value data and the shared shape.
    pub fn new(
        layers: Vec<LayerCache<T>>,
        batch_size: usize,
        past_sequence_length: usize,
        num_key_value_heads: usize,
        head_dim: usize,
    ) -> (r: Result<Self, Error>)
        ensures
            r is Ok <==> kv_cache_valid(layers@.map_values(|l: LayerCache<T>| l@), batch_size as int,
                past_sequence_length as int, num_key_value_heads as int, head_dim as int),
            r matches Ok(c) ==> c@ == (KVCacheView {
                layers: layers@.map_values(|l: LayerCache<T>| l@),
                batch_size: batch_size as nat,
                past_sequence_length: past_sequence_length as nat,
                num_key_value_heads: num_key_value_heads as nat,
                head_dim: head_dim as nat,
            }),
            r matches Err(e) ==> e matches Error::InvalidKVCache { reason } && reason@ == kv_cache_failure(
                layers@.map_values(|l: LayerCache<T>| l@),
                batch_size,
                past_sequence_length,
                num_key_value_heads,
                head_dim,
            ),
    {
        let ghost views = layers@.map_values(|l: LayerCache<T>| l@);
        if batch_size == 0 {
            return Err(Error::InvalidKVCache { reason: "batch size must be greater than zero".to_owned() });
        }
        if num_key_value_heads == 0 {
            return Err(Error::InvalidKVCache { reason: "KV head count must be greater than zero".to_owned() });
        }
        if head_dim == 0 {
            return Err(Error::InvalidKVCache { reason: "KV head dimension must be greater than zero".to_owned() });
        }
        let expected = match values_per_tensor(batch_size, past_sequence_length, num_key_value_heads, head_dim) {
            Ok(n) => n,
            Err(e) => {
                return Err(e);
            },
        };
        let dims = [batch_size, num_key_value_heads, past_sequence_length, head_dim];
        assert(dims@ =~= seq![batch_size, num_key_value_heads, past_sequence_length, head_dim]);
        let mut index: usize = 0;
        while index < layers.len()
            invariant
                index <= layers@.len(),
                views == layers@.map_values(|l: LayerCache<T>| l@),
                batch_size > 0 && num_key_value_heads > 0 && head_dim > 0,
                fits_kv(batch_size as int, past_sequence_length as int, num_key_value_heads as int, head_dim as int),
                dims@ == seq![batch_size, num_key_value_heads, past_sequence_length, head_dim],
                expected == batch_size * num_key_value_heads * past_sequence_length * head_dim,
                forall|i: int| 0 <= i < index ==> (#[trigger] views[i]).0.len() == expected && views[i].1.len() == expected,
            decreases layers@.len() - index,
        {
            let layer = &layers[index];
            assert(views[index as int] == layer@);
            if layer.key.len() != expected || layer.value.len() != expected {
                proof {
                    lemma_first_mismatch(views, expected as int, index as int);
                }
            }
            if layer.key.len() != expected {
                let mut reason = with_number("layer ", index as u64, " key length ");
                reason.append(with_number("", layer.key.len() as u64, " does not match shape ").as_str());
                reason.append(shape_text(&dims).as_str());
                return Err(Error::InvalidKVCache { reason });
            }
            if layer.value.len() != expected {
                let mut reason = with_number("layer ", index as u64, " value length ");
                reason.append(with_number("", layer.value.len() as u64, " does not match shape ").as_str());
                reason.append(shape_text(&dims).as_str());
                return Err(Error::InvalidKVCache { reason });
            }
            index += 1;
        }
        Ok(KVCache { layers, batch_size, past_sequence_length, num_key_value_heads, head_dim })
    }

    /// All layer caches.
    pub fn layers(&self) -> (s: &[LayerCache<T>])
        ensures
            s@.map_values(|l: LayerCache<T>| l@) == self@.layers,
            kv_cache_valid(self@.layers, self@.batch_size as int, self@.past_sequence_length as int,
                self@.num_key_value_heads as int, self@.head_dim as int),
    {
        proof {
            use_type_invariant(self);
        }
        self.layers.as_slice()
    }

    /// The number of decoder layers represented.
    pub fn layer_count(&self) -> (n: usize)
        ensures
            n == self@.layers.len(),
    {
        self.layers.len()
    }

    /// The batch size.
    pub fn batch_size(&self) -> (n: usize)
        ensures
            n == self@.batch_size,
    {
        self.batch_size
    }

    /// The cached sequence length before the next decoder pass.
    pub fn past_sequence_length(&self) -> (n: usize)
        ensures
            n == self@.past_sequence_length,
    {
        self.past_sequence_length
    }

    /// The number of key/value heads.
    pub fn num_key_value_heads(&self) -> (n: usize)
        ensures
            n == self@.num_key_value_heads,
    {
        self.num_key_value_heads
    }

    /// The per-head key/value dimension.
    pub fn head_dim(&self) -> (n: usize)
        ensures
            n == self@.head_dim,
    {
        self.head_dim
    }

    /// The per-layer tensor shape `(batch, heads, past_sequence_length, head_dim)`.
    pub fn shape(&self) -> (s: (usize, usize, usize, usize))
        ensures
            s.0 == self@.batch_size && s.1 == self@.num_key_value_heads
                && s.2 == self@.past_sequence_length && s.3 == self@.head_dim,
    {
        (self.batch_size, self.num_key_value_heads, self.past_sequence_length, self.head_dim)
    }

    /// Whether the cache holds no past sequence positions.
    pub fn is_empty(&self) -> (b: bool)
        ensures
            b == (self@.past_sequence_length == 0),
    {
        self.past_sequence_length == 0
    }
}

/// What a decoding step needs to know of a key/value cache, whichever way it
/// is stored.
pub trait KVCacheBackend {
    /// Batch size of the cached tensors.
    spec fn cached_batch_size(&self) -> nat;

    /// Number of cached sequence positions.
    spec fn cached_sequence_length(&self) -> nat;

    /// Returns the batch size.
    fn batch_size(&self) -> (n: usize)
        ensures
            n == self.cached_batch_size(),
    ;

    /// Returns the number of cached sequence positions.
    fn past_sequence_length(&self) -> (n: usize)
        ensures
            n == self.cached_sequence_length(),
    ;

    /// Returns whether no position is cached yet.
    fn is_empty(&self) -> (b: bool)
        ensures
            b == (self.cached_sequence_length() == 0),
    ;
}

impl<T> KVCacheBackend for KVCache<T> {
    open spec fn cached_batch_size(&self) -> nat {
        self@.batch_size
    }

    open spec fn cached_sequence_length(&self) -> nat {
        self@.past_sequence_length
    }

    fn batch_size(&self) -> (n: usize) {
        self.batch_size
    }

    fn past_sequence_length(&self) -> (n: usize) {
        self.past_sequence_length
    }

    fn is_empty(&self) -> (b: bool) {
        self.past_sequence_length == 0
    }
}

/// The cache used by one generation run; the host cache is the one storage
/// available.
#[derive(Debug)]
pub enum ActiveKVCache<T> {
    /// Cache in host memory.
    Host(KVCache<T>),
}

impl<T> KVCacheBackend for ActiveKVCache<T> {
    open spec fn cached_batch_size(&self) -> nat {
        match self {
            ActiveKVCache::Host(cache) => cache@.batch_size,
        }
    }

    open spec fn cached_sequence_length(&self) -> nat {
        match self {
            ActiveKVCache::Host(cache) => cache@.past_sequence_length,
        }
    }

    fn batch_size(&self) -> (n: usize) {
        match self {
            ActiveKVCache::Host(cache) => KVCacheBackend::batch_size(cache),
        }
    }

    fn past_sequence_length(&self) -> (n: usize) {
        match self {
            ActiveKVCache::Host(cache) => KVCacheBackend::past_sequence_length(cache),
        }
    }

    fn is_empty(&self) -> (b: bool) {
        match self {
            ActiveKVCache::Host(cache) => KVCacheBackend::is_empty(cache),
        }
    }
}

} // verus!
