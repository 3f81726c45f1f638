//! Output of one decoder pass.

use vstd::prelude::*;

use crate::model::decoder::config::DecoderConfig;
use crate::model::decoder::kv_cache::{kv_cache_valid, KVCache, KVCacheView, LayerCache};
use crate::model::decoder::logits::Logits;
use crate::model::decoder::session::{
    cache_output_shape_ok, logits_shape_ok, present_key_name, present_value_name, validate_cache_output_shape,
    validate_logits_shape,
};
use crate::model::tensor::{fits3, Tensor3View};
use crate::Error;

verus! {

/// Logits for the processed positions and the updated key/value cache.
#[derive(Debug, PartialEq)]
pub struct DecoderOutput<T> {
    /// Logits for the sequence positions processed by the decoder pass.
    pub logits: Logits<T>,
    /// Updated key/value cache returned by the decoder.
    pub kv_cache: KVCache<T>,
}

impl<T> DecoderOutput<T> {
    /// Pairs logits with an updated cache.
    pub fn new(logits: Logits<T>, kv_cache: KVCache<T>) -> (o: Self)
        ensures
            o.logits == logits,
            o.kv_cache == kv_cache,
    {
        DecoderOutput { logits, kv_cache }
    }
}

/// The present-key and present-value tensors one decoder layer returned, each
/// with the shape the runtime reported.
#[derive(Debug, Clone, PartialEq)]
pub struct PresentTensors<T> {
    /// Shape of the present-key tensor.
    pub key_shape: Vec<i64>,
    /// Present-key data.
    pub key: Vec<T>,
    /// Shape of the present-value tensor.
    pub value_shape: Vec<i64>,
    /// Present-value data.
    pub value: Vec<T>,
}

/// The key and value data of each layer.
pub open spec fn present_layers<T>(present: Seq<PresentTensors<T>>) -> Seq<(Seq<T>, Seq<T>)> {
    present.map_values(|p: PresentTensors<T>| (p.key@, p.value@))
}

/// Whether the tensors a decoder pass returned match the pass: logits of shape
/// `(batch, sequence, vocab)` and, for every layer, present tensors of shape
/// `(batch, heads, total, head_dim)` holding that many values.
pub open spec fn decoder_tensors_ok<T>(
    logits_shape: Seq<i64>,
    logits_data: Seq<T>,
    present: Seq<PresentTensors<T>>,
    batch_size: usize,
    sequence_length: usize,
    total_sequence_length: usize,
    config: DecoderConfig,
) -> bool {
    &&& logits_shape_ok(logits_shape, batch_size, sequence_length, config.vocab_size)
    &&& fits3(batch_size as int, sequence_length as int, config.vocab_size as int)
    &&& logits_data.len() == batch_size * sequence_length * config.vocab_size
    &&& forall|l: int| 0 <= l < present.len() ==> {
        &&& cache_output_shape_ok((#[trigger] present[l]).key_shape@, batch_size, total_sequence_length, config)
        &&& cache_output_shape_ok(present[l].value_shape@, batch_size, total_sequence_length, config)
    }
    &&& kv_cache_valid(present_layers(present), batch_size as int, total_sequence_length as int,
        config.num_key_value_heads as int, config.head_dim as int)
}

/// Builds the output of a decoder pass from the tensors the runtime returned,
/// checking the logits shape and then, layer by layer, the present-key and
/// present-value shapes: the logits have shape `(batch, sequence, vocab)` and
/// the cache holds `total_sequence_length` positions of every layer.
pub fn decoder_output_from_tensors<T>(
    logits_shape: &[i64],
    logits_data: Vec<T>,
    present: Vec<PresentTensors<T>>,
    batch_size: usize,
    sequence_length: usize,
    total_sequence_length: usize,
    config: &DecoderConfig,
) -> (r: Result<DecoderOutput<T>, Error>)
    requires
        present@.len() == config.num_hidden_layers,
    ensures
        r is Ok <==> decoder_tensors_ok(logits_shape@, logits_data@, present@, batch_size, sequence_length,
            total_sequence_length, *config),
        r matches Ok(o) ==> {
            &&& o.logits@ == (Tensor3View {
                data: logits_data@,
                d0: batch_size as nat,
                d1: sequence_length as nat,
                d2: config.vocab_size as nat,
            })
            &&& o.kv_cache@ == (KVCacheView {
                layers: present_layers(present@),
                batch_size: batch_size as nat,
                past_sequence_length: total_sequence_length as nat,
                num_key_value_heads: config.num_key_value_heads as nat,
                head_dim: config.head_dim as nat,
            })
        },
        r matches Err(e) ==> e is InvalidDecoderOutput || e is InvalidKVCache,
{
    match validate_logits_shape(logits_shape, batch_size, sequence_length, config.vocab_size) {
        Ok(()) => {},
        Err(e) => {
            return Err(e);
        },
    }
    let logits = match Logits::new(logits_data, batch_size, sequence_length, config.vocab_size) {
        Ok(l) => l,
        Err(e) => {
            return Err(e);
        },
    };
    let ghost all = present@;
    let mut rest = present;
    let mut layers: Vec<LayerCache<T>> = Vec::new();
    let mut layer: usize = 0;
    while layer < config.num_hidden_layers
        invariant
            layer <= config.num_hidden_layers,
            all.len() == config.num_hidden_layers,
            all == present@,
            rest@ == all.skip(layer as int),
            layers@.map_values(|c: LayerCache<T>| c@) == present_layers(all).take(layer as int),
            forall|l: int| 0 <= l < layer ==> {
                &&& cache_output_shape_ok((#[trigger] all[l]).key_shape@, batch_size, total_sequence_length, *config)
                &&& cache_output_shape_ok(all[l].value_shape@, batch_size, total_sequence_length, *config)
            },
        decreases config.num_hidden_layers - layer,
    {
        let tensors = rest.remove(0);
        assert(tensors == all[layer as int]);
        let key_name = present_key_name(layer);
        match validate_cache_output_shape(tensors.key_shape.as_slice(), key_name.as_str(), batch_size,
            total_sequence_length, config) {
            Ok(()) => {},
            Err(e) => {
                assert(!cache_output_shape_ok(all[layer as int].key_shape@, batch_size, total_sequence_length,
                    *config));
                return Err(e);
            },
        }
        let value_name = present_value_name(layer);
        match validate_cache_output_shape(tensors.value_shape.as_slice(), value_name.as_str(), batch_size,
            total_sequence_length, config) {
            Ok(()) => {},
            Err(e) => {
                assert(!cache_output_shape_ok(all[layer as int].value_shape@, batch_size, total_sequence_length,
                    *config));
                return Err(e);
            },
        }
        let ghost before = layers@;
        let PresentTensors { key, value, .. } = tensors;
        let cache = LayerCache::new(key, value);
        assert(cache@ == (all[layer as int].key@, all[layer as int].value@));
        let ghost pushed = cache;
        layers.push(cache);
        proof {
            assert(present_layers(all).take(layer as int).len() == layer);
            assert(before.len() == layer);
            assert(layers@ == before.push(pushed));
            assert(rest@ =~= all.skip(layer + 1));
            let views = layers@.map_values(|c: LayerCache<T>| c@);
            let expected = present_layers(all).take(layer + 1);
            assert forall|i: int| 0 <= i < layer + 1 implies views[i] == expected[i] by {
                if i < layer {
                    assert(layers@[i] == before[i]);
                    assert(before.map_values(|c: LayerCache<T>| c@)[i] == present_layers(all).take(layer as int)[i]);
                }
            }
            assert(views =~= expected);
        }
        layer += 1;
    }
    proof {
        assert(present_layers(all).take(all.len() as int) =~= present_layers(all));
    }
    let cache = match KVCache::new(layers, batch_size, total_sequence_length, config.num_key_value_heads,
        config.head_dim) {
        Ok(c) => c,
        Err(e) => {
            return Err(e);
        },
    };
    Ok(DecoderOutput { logits, kv_cache: cache })
}

} // verus!
