use fast_lightonocr::model::decoder::kv_cache::{ActiveKVCache, KVCacheBackend};
use fast_lightonocr::model::decoder::session::{
    decoder_input_count, past_key_name, present_value_name, validate_cache_output_shape, validate_logits_shape,
};
use fast_lightonocr::model::{
    Activation, DataType, DecoderConfig, DecoderOutput, KVCache, LayerCache, LayerType, Logits, ModelType,
};
use fast_lightonocr::Error;

fn decoder_config() -> DecoderConfig {
    DecoderConfig {
        attention_bias: false,
        bos_token_id: None,
        dtype: DataType::BFloat16,
        eos_token_id: Some(151_645),
        image_token_index: 151_655,
        head_dim: 128,
        hidden_act: Activation::Silu,
        hidden_size: 1024,
        intermediate_size: 3072,
        layer_types: vec![LayerType::FullAttention; 28],
        max_position_embeddings: 40_960,
        max_window_layers: 28,
        model_type: ModelType::Qwen3,
        num_attention_heads: 16,
        num_hidden_layers: 28,
        num_key_value_heads: 8,
        pad_token_id: None,
        sliding_window: None,
        tie_word_embeddings: true,
        use_cache: true,
        use_qk_norm: false,
        use_sliding_window: false,
        vocab_size: 151_936,
    }
}

#[test]
fn kv_cache_validates_layer_shapes() {
    let error = KVCache::new(vec![LayerCache::new(vec![0.0; 3], vec![0.0; 4])], 1, 1, 1, 4)
        .expect_err("shape validation should fail");

    match error {
        Error::InvalidKVCache { reason } => {
            assert!(reason.contains("key length"));
        }
        other => panic!("expected invalid KV cache error, got {other:?}"),
    }
}

#[test]
fn logits_expose_shape_and_values() {
    let logits = Logits::new(vec![0.0, 1.0, 2.0, 3.0], 1, 2, 2).unwrap();

    assert_eq!(logits.shape(), (1, 2, 2));
    assert_eq!(logits.batch_size(), 1);
    assert_eq!(logits.sequence_length(), 2);
    assert_eq!(logits.vocab_size(), 2);
    assert_eq!(logits.as_slice(), &[0.0, 1.0, 2.0, 3.0]);
    assert_eq!(logits.get(0, 1, 1), Some(3.0));
    assert_eq!(logits.get(1, 0, 0), None);
}

#[test]
fn rejects_invalid_logits_shapes() {
    let error = Logits::new(vec![0.0; 3], 1, 2, 2).expect_err("shape validation should fail");

    match error {
        Error::InvalidDecoderOutput { reason } => {
            assert!(reason.contains("does not match shape"));
        }
        other => panic!("expected invalid decoder output error, got {other:?}"),
    }
}

#[test]
fn empty_kv_cache_follows_the_decoder_config() {
    let cache: KVCache<f32> = KVCache::empty(&decoder_config(), 1).unwrap();

    assert!(cache.is_empty());
    assert_eq!(cache.layer_count(), 28);
    assert_eq!(cache.shape(), (1, 8, 0, 128));
    assert!(cache.layers().iter().all(|layer| layer.key().is_empty()));
    assert!(cache.layers().iter().all(|layer| layer.value().is_empty()));
    assert!(matches!(KVCache::<f32>::empty(&decoder_config(), 0), Err(Error::InvalidKVCache { .. })));
}

#[test]
fn kv_cache_accepts_matching_layers() {
    let cache = KVCache::new(vec![LayerCache::new(vec![1, 2, 3, 4], vec![5, 6, 7, 8])], 1, 1, 2, 2).unwrap();

    assert_eq!(cache.shape(), (1, 2, 1, 2));
    assert!(!cache.is_empty());
    assert_eq!(cache.layers()[0].value(), &[5, 6, 7, 8]);
    let output = DecoderOutput::new(Logits::new(vec![0, 1], 1, 1, 2).unwrap(), cache);
    assert_eq!(output.logits.vocab_size(), 2);
    assert_eq!(output.kv_cache.layer_count(), 1);
}

#[test]
fn names_cache_tensors_per_layer() {
    assert_eq!(past_key_name(0), "past_key_values.0.key");
    assert_eq!(present_value_name(27), "present.27.value");
    assert_eq!(decoder_input_count(&decoder_config(), true), 59);
    assert_eq!(decoder_input_count(&decoder_config(), false), 58);
}

#[test]
fn validates_decoder_output_shapes() {
    let config = decoder_config();
    assert!(validate_logits_shape(&[1, 3, 151_936], 1, 3, 151_936).is_ok());
    assert!(matches!(validate_logits_shape(&[1, 3, 10], 1, 3, 151_936), Err(Error::InvalidDecoderOutput { .. })));
    assert!(matches!(validate_logits_shape(&[1, 3], 1, 3, 151_936), Err(Error::InvalidDecoderOutput { .. })));
    assert!(validate_cache_output_shape(&[1, 8, 5, 128], "present.0.key", 1, 5, &config).is_ok());
    assert!(matches!(
        validate_cache_output_shape(&[1, 8, 4, 128], "present.0.key", 1, 5, &config),
        Err(Error::InvalidDecoderOutput { .. })
    ));
}

#[test]
fn host_kv_cache_backend_surface() {
    let layers = vec![LayerCache::<f32>::new(Vec::new(), Vec::new()), LayerCache::new(Vec::new(), Vec::new())];
    let cache = KVCache::new(layers, 1, 0, 2, 4).unwrap();
    assert!(cache.is_empty());
    assert_eq!(KVCacheBackend::batch_size(&cache), 1);
    assert_eq!(KVCacheBackend::past_sequence_length(&cache), 0);
}

#[test]
fn active_host_backend() {
    let layers = vec![LayerCache::<f32>::new(Vec::new(), Vec::new())];
    let cache = KVCache::new(layers, 2, 0, 1, 4).unwrap();
    let active = ActiveKVCache::Host(cache);
    assert_eq!(KVCacheBackend::batch_size(&active), 2);
    assert!(KVCacheBackend::is_empty(&active));
}
