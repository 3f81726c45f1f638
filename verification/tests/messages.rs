use fast_lightonocr::model::contract::{ElementType, Outlet, OutletType};
use fast_lightonocr::model::decoder::generation::{final_position_range, token_id_to_i64};
use fast_lightonocr::model::decoder::output::{decoder_output_from_tensors, PresentTensors};
use fast_lightonocr::model::decoder::session::{validate_cache_output_shape, validate_logits_shape, validate_session_contract};
use fast_lightonocr::model::embedding_model::config::EmbeddingConfig;
use fast_lightonocr::model::embedding_model::embedding::{validate_embedding_shape, validate_token_ids};
use fast_lightonocr::model::pipeline::merge_image_features;
use fast_lightonocr::model::{
    Activation, DataType, DecoderConfig, ImageFeatures, ImageTensor, InputEmbeddings, KVCache, LayerCache, LayerType,
    Logits, ModelType,
};
use fast_lightonocr::processor::VisionGrid;
use fast_lightonocr::util::onnxruntime::{parse_version, validate_execution_provider, validate_runtime, RuntimeDetails};
use fast_lightonocr::util::ExecutionProvider;
use fast_lightonocr::Error;

fn small_decoder_config() -> DecoderConfig {
    DecoderConfig {
        attention_bias: false,
        bos_token_id: None,
        dtype: DataType::BFloat16,
        eos_token_id: Some(2),
        image_token_index: 5,
        head_dim: 2,
        hidden_act: Activation::Silu,
        hidden_size: 4,
        intermediate_size: 8,
        layer_types: vec![LayerType::FullAttention; 1],
        max_position_embeddings: 64,
        max_window_layers: 1,
        model_type: ModelType::Qwen3,
        num_attention_heads: 2,
        num_hidden_layers: 1,
        num_key_value_heads: 1,
        pad_token_id: None,
        sliding_window: None,
        tie_word_embeddings: true,
        use_cache: true,
        use_qk_norm: false,
        use_sliding_window: false,
        vocab_size: 10,
    }
}

fn tensor(name: &str, ty: ElementType, shape: Vec<i64>) -> Outlet {
    Outlet { name: name.to_owned(), value_type: OutletType::Tensor { ty, shape } }
}

fn reason_of(error: Error) -> String {
    match error {
        Error::InvalidDecoderOutput { reason }
        | Error::InvalidDecoderInput { reason }
        | Error::InvalidDecoderModel { reason }
        | Error::InvalidEmbeddingOutput { reason }
        | Error::InvalidEmbeddingInput { reason }
        | Error::InvalidVisionOutput { reason }
        | Error::InvalidKVCache { reason }
        | Error::ImageProcessing { reason }
        | Error::Inference { reason }
        | Error::OnnxRuntimeCompatibility { reason } => reason,
        other => panic!("unexpected error {other:?}"),
    }
}

#[test]
fn tensor_constructors_name_the_mismatched_shape() {
    let logits = Logits::new(vec![0.0f32; 5], 1, 2, 3).expect_err("length mismatch");
    assert!(matches!(logits, Error::InvalidDecoderOutput { .. }));
    assert_eq!(reason_of(logits), "logits data length 5 does not match shape (1, 2, 3)");

    let embeddings = InputEmbeddings::new(vec![0.0f32; 7], 1, 2, 4).expect_err("length mismatch");
    assert_eq!(reason_of(embeddings), "input embedding data length 7 does not match shape (1, 2, 4)");

    let features = ImageFeatures::new(vec![0.0f32; 3], 1, 1, 2).expect_err("length mismatch");
    assert_eq!(reason_of(features), "image feature data length 3 does not match shape (1, 1, 2)");

    let pixels = ImageTensor::new(vec![0.0f32; 11], 1, 3, 2, 2).expect_err("length mismatch");
    assert!(matches!(pixels, Error::ImageProcessing { .. }));
    assert_eq!(reason_of(pixels), "pixel value data length 11 does not match shape (1, 3, 2, 2)");

    let huge = Logits::<f32>::new(Vec::new(), usize::MAX, 2, 1).expect_err("overflowing shape");
    assert_eq!(reason_of(huge), "logits shape is too large");
}

#[test]
fn kv_cache_reports_the_first_mismatched_layer() {
    let layers = vec![
        LayerCache::new(vec![0.0f32; 2], vec![0.0f32; 2]),
        LayerCache::new(vec![0.0f32; 2], vec![0.0f32; 3]),
    ];
    let error = KVCache::new(layers, 1, 1, 1, 2).expect_err("second layer is too long");
    assert!(matches!(error, Error::InvalidKVCache { .. }));
    assert_eq!(reason_of(error), "layer 1 value length 3 does not match shape (1, 1, 1, 2)");

    let error = KVCache::<f32>::new(Vec::new(), 1, 0, 0, 2).expect_err("no heads");
    assert_eq!(reason_of(error), "KV head count must be greater than zero");
}

#[test]
fn decoder_output_shape_messages() {
    let error = validate_logits_shape(&[1, 2], 1, 2, 10).expect_err("rank 2");
    assert_eq!(reason_of(error), "`logits` has rank 2, expected 3");
    let error = validate_logits_shape(&[1, 3, 10], 1, 2, 10).expect_err("sequence length");
    assert_eq!(reason_of(error), "`logits` sequence length is 3, expected 2");

    let config = small_decoder_config();
    let error = validate_cache_output_shape(&[1, 1, 4, 3], "present.0.key", 1, 4, &config).expect_err("head dim");
    assert_eq!(reason_of(error), "`present.0.key` dimension 3 is 3, expected 2");
}

#[test]
fn decoder_session_contract_names_the_out_of_place_input() {
    let config = small_decoder_config();
    let inputs = vec![
        tensor("inputs_embeds", ElementType::Float32, vec![-1, -1, 4]),
        tensor("past_key_values.0.key", ElementType::Float32, vec![-1, 1, -1, 2]),
        tensor("attention_mask", ElementType::Int64, vec![-1, -1]),
        tensor("past_key_values.0.value", ElementType::Float32, vec![-1, 1, -1, 2]),
    ];
    let outputs = vec![
        tensor("logits", ElementType::Float32, vec![-1, -1, 10]),
        tensor("present.0.key", ElementType::Float32, vec![-1, 1, -1, 2]),
        tensor("present.0.value", ElementType::Float32, vec![-1, 1, -1, 2]),
    ];
    let error = validate_session_contract(&inputs, &outputs, &config).expect_err("mask out of place");
    assert!(matches!(error, Error::InvalidDecoderModel { .. }));
    assert_eq!(
        reason_of(error),
        "decoder input #1 is `past_key_values.0.key`, expected `attention_mask`; positional execution depends on ONNX input order"
    );

    let inputs = vec![
        tensor("inputs_embeds", ElementType::Float32, vec![-1, -1, 4]),
        tensor("attention_mask", ElementType::Int64, vec![-1, -1]),
        tensor("past_key_values.0.key", ElementType::Float32, vec![-1, 1, -1, 2]),
        tensor("past_key_values.0.value", ElementType::Float32, vec![-1, 1, -1, 2]),
    ];
    assert_eq!(validate_session_contract(&inputs, &outputs, &config), Ok(false));

    let bad_outputs = vec![
        tensor("logits", ElementType::Float32, vec![-1, -1, 10]),
        tensor("present.0.key", ElementType::Float32, vec![-1, 1, -1, 2]),
        tensor("present.0.value", ElementType::Float32, vec![-1, 2, -1, 2]),
    ];
    let error = validate_session_contract(&inputs, &bad_outputs, &config).expect_err("head count");
    assert_eq!(reason_of(error), "`present.0.value` dimension 1 does not have the expected size 1");
}

#[test]
fn embedding_messages() {
    let config = EmbeddingConfig { dtype: DataType::BFloat16, model_type: ModelType::Qwen3, hidden_size: 4, vocab_size: 10 };
    let error = validate_token_ids(&[1, 2, 12, -1], &config).expect_err("out of vocabulary");
    assert!(matches!(error, Error::InvalidEmbeddingInput { .. }));
    assert_eq!(reason_of(error), "token_ids[2]=12 exceeds vocabulary size 10");
    let error = validate_token_ids(&[1, -3], &config).expect_err("negative");
    assert_eq!(reason_of(error), "token_ids[1] is negative: -3");
    let error = validate_embedding_shape(&[2, 3, 4], 3, &config).expect_err("batch size");
    assert_eq!(reason_of(error), "`inputs_embeds` batch size is 2, expected 1");
}

#[test]
fn pipeline_and_generation_messages() {
    let embeddings = InputEmbeddings::new(vec![0.0f32; 6], 1, 3, 2).unwrap();
    let features = ImageFeatures::new(vec![1.0f32; 4], 1, 2, 2).unwrap();
    let error = merge_image_features(&[7, 1, 2], &embeddings, &features, 7).expect_err("one placeholder, two features");
    assert_eq!(
        reason_of(error),
        "prompt contains 1 image placeholder tokens but vision encoder produced 2 image features"
    );

    let error = final_position_range(1, 0, 5).expect_err("empty sequence");
    assert_eq!(reason_of(error), "logits sequence length must be greater than zero");
    let error = final_position_range(2, 1, 5).expect_err("batch of two");
    assert_eq!(reason_of(error), "only batch size 1 is supported, found 2");
    assert_eq!(token_id_to_i64(41), Ok(41));
}

#[test]
fn grid_and_runtime_messages() {
    let error = VisionGrid::from_image_size(30, 28, 14, 2).expect_err("width not divisible");
    assert_eq!(reason_of(error), "image dimensions (30x28) are not divisible by patch size (14)");
    let error = VisionGrid::from_image_size(42, 28, 14, 2).expect_err("patch grid not divisible");
    assert_eq!(reason_of(error), "patch grid (3x2) is not divisible by spatial merge size (2)");

    let error = validate_execution_provider(ExecutionProvider::Cuda { device_id: 3 }).expect_err("cuda");
    assert_eq!(
        reason_of(error),
        "CUDA execution provider (device_id=3) is not wired yet; use ExecutionProvider::Cpu"
    );

    let error = parse_version("x.1").expect_err("major");
    assert_eq!(reason_of(error), "could not parse ONNX Runtime major version from \"x.1\"");
    let error = parse_version("1").expect_err("minor");
    assert_eq!(reason_of(error), "could not parse ONNX Runtime minor version from \"1\"");
    let error = parse_version("1.2.x").expect_err("patch");
    assert_eq!(reason_of(error), "could not parse ONNX Runtime version \"1.2.x\"");

    let details = RuntimeDetails {
        version: "1.20.0".to_owned(),
        required_api_level: 24,
        has_required_api: true,
        location: "libonnxruntime.so".to_owned(),
    };
    let error = validate_runtime(&details).expect_err("too old");
    assert_eq!(
        reason_of(error),
        "libonnxruntime.so reports ONNX Runtime 1.20.0, but fast-lightonocr expects ONNX Runtime 1.28.x or a later 1.x release exposing C API level 24"
    );
}

#[test]
fn negative_shapes_are_printed() {
    let error = validate_logits_shape(&[1, -2, 10], 1, 2, 10).expect_err("negative");
    assert_eq!(reason_of(error), "`logits` has negative shape [1, -2, 10]");
    let config = small_decoder_config();
    let error = validate_cache_output_shape(&[1, 1, -4, 2], "present.0.key", 1, 4, &config).expect_err("negative");
    assert_eq!(reason_of(error), "`present.0.key` has negative shape [1, 1, -4, 2]");
    let embedding = EmbeddingConfig { dtype: DataType::BFloat16, model_type: ModelType::Qwen3, hidden_size: 4, vocab_size: 10 };
    let error = validate_embedding_shape(&[1, -3, 4], 3, &embedding).expect_err("negative");
    assert_eq!(reason_of(error), "`inputs_embeds` has negative shape [1, -3, 4]");
}

#[test]
fn decoder_output_keeps_the_validated_shapes() {
    let config = small_decoder_config();
    let present = vec![PresentTensors {
        key_shape: vec![1, 1, 3, 2],
        key: vec![0.5f32; 6],
        value_shape: vec![1, 1, 3, 2],
        value: vec![1.5f32; 6],
    }];
    let output = decoder_output_from_tensors(&[1, 2, 10], vec![0.0f32; 20], present, 1, 2, 3, &config).unwrap();
    assert_eq!(output.logits.shape(), (1, 2, 10));
    assert_eq!(output.kv_cache.shape(), (1, 1, 3, 2));
    assert_eq!(output.kv_cache.layers()[0].value(), &[1.5f32; 6]);

    let present = vec![PresentTensors {
        key_shape: vec![1, 1, 3, 2],
        key: vec![0.5f32; 6],
        value_shape: vec![1, 1, 2, 2],
        value: vec![1.5f32; 4],
    }];
    let error = decoder_output_from_tensors(&[1, 2, 10], vec![0.0f32; 20], present, 1, 2, 3, &config).unwrap_err();
    assert_eq!(reason_of(error), "`present.0.value` dimension 2 is 2, expected 3");
}
