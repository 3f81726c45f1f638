use fast_lightonocr::model::decoder::generation::{FinishReason, GenerationOutput};
use fast_lightonocr::model::pipeline::{
    common_prefix_len, decoded_delta, merge_image_features, ocr_messages, LightOnOCROptions, OCRResult,
};
use fast_lightonocr::model::{ImageFeatures, InputEmbeddings};
use fast_lightonocr::processor::{MessageContent, MessageRole};
use fast_lightonocr::util::ExecutionProvider;
use fast_lightonocr::Error;

const IMAGE_TOKEN_ID: i64 = 151_655;

#[test]
fn merge_image_features_replaces_image_token_embeddings_in_place() {
    let token_ids = [10, IMAGE_TOKEN_ID, 20, IMAGE_TOKEN_ID];
    let input_embeddings =
        InputEmbeddings::new(vec![10.0, 11.0, 20.0, 21.0, 30.0, 31.0, 40.0, 41.0], 1, 4, 2).unwrap();
    let image_features = ImageFeatures::new(vec![100.0, 101.0, 200.0, 201.0], 1, 2, 2).unwrap();

    let merged = merge_image_features(&token_ids, &input_embeddings, &image_features, IMAGE_TOKEN_ID).unwrap();

    assert_eq!(merged.as_slice(), &[10.0, 11.0, 100.0, 101.0, 30.0, 31.0, 200.0, 201.0]);
}

#[test]
fn merge_image_features_rejects_placeholder_feature_count_mismatch() {
    let token_ids = [IMAGE_TOKEN_ID];
    let input_embeddings = InputEmbeddings::new(vec![0.0, 1.0], 1, 1, 2).unwrap();
    let image_features = ImageFeatures::new(vec![10.0, 11.0, 20.0, 21.0], 1, 2, 2).unwrap();

    let error = merge_image_features(&token_ids, &input_embeddings, &image_features, IMAGE_TOKEN_ID)
        .expect_err("placeholder count mismatch should fail");

    match error {
        Error::Inference { reason } => {
            assert!(reason.contains("image placeholder tokens"));
        }
        other => panic!("expected inference error, got {other:?}"),
    }
}

#[test]
fn merge_image_features_rejects_hidden_size_mismatch() {
    let token_ids = [IMAGE_TOKEN_ID];
    let input_embeddings = InputEmbeddings::new(vec![0.0, 1.0], 1, 1, 2).unwrap();
    let image_features = ImageFeatures::new(vec![10.0, 11.0, 12.0], 1, 1, 3).unwrap();

    let error = merge_image_features(&token_ids, &input_embeddings, &image_features, IMAGE_TOKEN_ID)
        .expect_err("hidden size mismatch should fail");

    match error {
        Error::Inference { reason } => {
            assert!(reason.contains("hidden size"));
        }
        other => panic!("expected inference error, got {other:?}"),
    }
}

#[test]
fn merge_image_features_rejects_batches_and_length_mismatch() {
    let batch = InputEmbeddings::new(vec![0.0, 1.0], 2, 1, 1).unwrap();
    let features = ImageFeatures::new(vec![5.0], 1, 1, 1).unwrap();
    assert!(matches!(merge_image_features(&[IMAGE_TOKEN_ID], &batch, &features, IMAGE_TOKEN_ID), Err(Error::Inference { .. })));

    let single = InputEmbeddings::new(vec![0.0], 1, 1, 1).unwrap();
    let error = merge_image_features(&[1, IMAGE_TOKEN_ID], &single, &features, IMAGE_TOKEN_ID).unwrap_err();
    match error {
        Error::Inference { reason } => assert!(reason.contains("sequence length")),
        other => panic!("expected inference error, got {other:?}"),
    }
}

#[test]
fn merge_without_placeholders_keeps_the_prompt() {
    let embeddings = InputEmbeddings::new(vec![1, 2, 3, 4], 1, 2, 2).unwrap();
    let features = ImageFeatures::new(Vec::new(), 1, 0, 2).unwrap();

    let merged = merge_image_features(&[7, 8], &embeddings, &features, IMAGE_TOKEN_ID).unwrap();

    assert_eq!(merged.as_slice(), embeddings.as_slice());
    assert_eq!(merged.shape(), (1, 2, 2));
}

#[test]
fn decoded_delta_returns_new_suffix() {
    assert_eq!(decoded_delta("total", "total due"), " due");
}

#[test]
fn decoded_delta_falls_back_to_common_prefix() {
    assert_eq!(decoded_delta("hello ", "hello,"), ",");
}

#[test]
fn decoded_delta_reassembles_the_stream() {
    let chunks = ["Invoice", "Invoice #", "Invoice #42", "Invoice #42 total"];
    let mut streamed = String::new();
    let mut previous = "";
    for current in chunks {
        streamed.push_str(decoded_delta(previous, current));
        previous = current;
    }
    assert_eq!(streamed, "Invoice #42 total");
    assert_eq!(decoded_delta("é", "éa"), "a");
    assert_eq!(common_prefix_len("añb", "añc"), 3);
    assert_eq!(common_prefix_len("é", "é"), 2);
    assert_eq!(common_prefix_len("abc", "xyz"), 0);
    assert_eq!(decoded_delta("abc", "xyz"), "xyz");
}

#[test]
fn option_presets_select_model_files() {
    let default = LightOnOCROptions::default();
    assert_eq!(default.vision_encoder, "onnx/vision_encoder.onnx");
    assert_eq!(default.embedding, "onnx/embed_tokens.onnx");
    assert_eq!(default.decoder, "onnx/decoder_model_merged.onnx");
    assert_eq!(default.max_new_tokens, None);
    assert_eq!(default.runtime.execution_provider, ExecutionProvider::Cpu);

    let fp16 = LightOnOCROptions::fp16();
    assert_eq!(fp16.decoder, "onnx/decoder_model_merged_fp16.onnx");
    let q4 = LightOnOCROptions::q4().with_max_new_tokens(64);
    assert_eq!(q4.vision_encoder, "onnx/vision_encoder_q4.onnx");
    assert_eq!(q4.max_new_tokens, Some(64));
}

#[test]
fn ocr_result_exposes_text_tokens_and_reason() {
    let result = OCRResult::new("total".to_owned(), GenerationOutput::new(vec![5, 6], FinishReason::Length));

    assert_eq!(result.text(), "total");
    assert_eq!(result.token_ids(), &[5, 6]);
    assert_eq!(result.finish_reason(), FinishReason::Length);
    assert_eq!(result.into_text(), "total");
}

#[test]
fn ocr_messages_put_the_prompt_before_the_image() {
    let messages = ocr_messages(Some("Read the table."));
    assert_eq!(messages.len(), 1);
    assert_eq!(messages[0].role, MessageRole::User);
    assert_eq!(
        messages[0].content,
        vec![MessageContent::Text("Read the table.".to_owned()), MessageContent::Image]
    );

    let plain = ocr_messages(None);
    assert_eq!(plain[0].content, vec![MessageContent::Image]);
}

#[test]
fn cloned_result_gives_the_same_text() {
    let result = OCRResult::new("añb".to_owned(), GenerationOutput::new(vec![5, 6], FinishReason::EndOfSequence));
    let copy = result.clone();
    assert_eq!(copy, result);
    assert_eq!(copy.into_text(), result.text());
}
