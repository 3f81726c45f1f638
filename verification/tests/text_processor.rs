use fast_lightonocr::model::pipeline::TextStream;
use fast_lightonocr::processor::text::{expand_placeholder_ids, image_grid_token_ids, render_chat_template};
use fast_lightonocr::processor::{Message, MessageContent, MessageRole, TextProcessor, VisionGrid};
use fast_lightonocr::tokenizer::{PaddingSide, Tokenizer, TokenizerConfig};
use fast_lightonocr::Error;

const TOKENIZER_JSON: &str = r#"{
  "version": "1.0",
  "truncation": null,
  "padding": null,
  "added_tokens": [
    {"id": 0, "content": "<unk>", "single_word": false, "lstrip": false, "rstrip": false, "normalized": false, "special": true},
    {"id": 1, "content": "<|im_start|>", "single_word": false, "lstrip": false, "rstrip": false, "normalized": false, "special": true},
    {"id": 2, "content": "<|im_end|>", "single_word": false, "lstrip": false, "rstrip": false, "normalized": false, "special": true},
    {"id": 3, "content": "<|endoftext|>", "single_word": false, "lstrip": false, "rstrip": false, "normalized": false, "special": true},
    {"id": 4, "content": "<|image_pad|>", "single_word": false, "lstrip": false, "rstrip": false, "normalized": false, "special": true},
    {"id": 5, "content": "<|vision_pad|>", "single_word": false, "lstrip": false, "rstrip": false, "normalized": false, "special": true},
    {"id": 6, "content": "<|vision_end|>", "single_word": false, "lstrip": false, "rstrip": false, "normalized": false, "special": true}
  ],
  "normalizer": null,
  "pre_tokenizer": {"type": "Whitespace"},
  "post_processor": null,
  "decoder": null,
  "model": {
    "type": "WordLevel",
    "vocab": {
      "<unk>": 0, "<|im_start|>": 1, "<|im_end|>": 2, "<|endoftext|>": 3, "<|image_pad|>": 4,
      "<|vision_pad|>": 5, "<|vision_end|>": 6, "system": 7, "user": 8, "assistant": 9, "Total": 10, "due": 11
    },
    "unk_token": "<unk>"
  }
}"#;

fn tokenizer() -> Tokenizer {
    let runtime = tokenizers::Tokenizer::from_bytes(TOKENIZER_JSON.as_bytes()).unwrap();
    let config = TokenizerConfig {
        add_prefix_space: false,
        bos_token: None,
        clean_up_tokenization_spaces: false,
        eos_token: "<|im_end|>".to_owned(),
        max_length: None,
        model_max_length: 4096,
        pad_to_multiple_of: None,
        pad_token: "<|endoftext|>".to_owned(),
        pad_token_type_id: 0,
        padding_side: PaddingSide::Left,
        split_special_tokens: false,
        unk_token: None,
    };
    Tokenizer::from_parts(runtime, config, None).unwrap()
}

fn text_processor() -> TextProcessor {
    TextProcessor::new(tokenizer(), "<|image_pad|>", "<|vision_pad|>", "<|vision_end|>")
}

#[test]
fn process_leaves_image_placeholder_unexpanded() {
    let processor = text_processor();
    let input_ids = processor.process(&[Message::user_image()]).unwrap();

    let image_token_id = processor.tokenizer().token_to_id("<|image_pad|>").unwrap();
    let image_break_token_id = processor.tokenizer().token_to_id("<|vision_pad|>").unwrap();
    let image_end_token_id = processor.tokenizer().token_to_id("<|vision_end|>").unwrap();

    assert_eq!(input_ids.iter().filter(|&&token_id| token_id == image_token_id).count(), 1);
    assert!(!input_ids.contains(&image_break_token_id));
    assert!(!input_ids.contains(&image_end_token_id));
}

#[test]
fn expands_image_placeholder_with_vision_grid() {
    let processor = text_processor();
    let image_token_id = processor.tokenizer().token_to_id("<|image_pad|>").unwrap();
    let image_break_token_id = processor.tokenizer().token_to_id("<|vision_pad|>").unwrap();
    let image_end_token_id = processor.tokenizer().token_to_id("<|vision_end|>").unwrap();

    let expanded = processor
        .expand_image_placeholders(&[42, image_token_id, 43], VisionGrid { width: 2, height: 2 })
        .unwrap();

    assert_eq!(
        expanded,
        [
            42,
            image_token_id,
            image_token_id,
            image_break_token_id,
            image_token_id,
            image_token_id,
            image_end_token_id,
            43,
        ]
    );
}

#[test]
fn renders_the_chat_template() {
    let prompt = render_chat_template(&[Message::user_image()], "<|im_end|>", "<|image_pad|>");

    assert_eq!(
        prompt,
        "<|im_start|>system<|im_end|>\n<|im_start|>user\n<|image_pad|><|im_end|>\n<|im_start|>assistant\n"
    );
}

#[test]
fn keeps_an_explicit_system_message() {
    let messages = [
        Message::new(MessageRole::System, vec![MessageContent::Text("Be exact.".to_owned())]),
        Message::new(MessageRole::User, vec![MessageContent::Text("Read:".to_owned()), MessageContent::Image]),
    ];

    let prompt = render_chat_template(&messages, "</s>", "[IMG]");

    assert_eq!(
        prompt,
        "<|im_start|>system\nBe exact.\n</s>\n<|im_start|>user\nRead:\n[IMG]</s>\n<|im_start|>assistant\n"
    );
    assert_eq!(MessageRole::Assistant.as_str(), "assistant");
}

#[test]
fn builds_the_vision_token_grid() {
    assert_eq!(image_grid_token_ids(4, 5, 6, VisionGrid { width: 3, height: 1 }), [4, 4, 4, 6]);
    assert_eq!(image_grid_token_ids(4, 5, 6, VisionGrid { width: 1, height: 3 }), [4, 5, 4, 5, 4, 6]);
    assert_eq!(image_grid_token_ids(4, 5, 6, VisionGrid { width: 0, height: 0 }), [6]);
}

#[test]
fn rejects_prompts_without_exactly_one_placeholder() {
    match expand_placeholder_ids(&[1, 2, 3], 4, &[4, 6]) {
        Err(Error::ImageProcessing { reason }) => {
            assert_eq!(reason, "expected exactly one image placeholder, found 0")
        }
        other => panic!("expected image processing error, got {other:?}"),
    }
    match expand_placeholder_ids(&[4, 4], 4, &[4, 6]) {
        Err(Error::ImageProcessing { reason }) => {
            assert_eq!(reason, "expected exactly one image placeholder, found 2")
        }
        other => panic!("expected image processing error, got {other:?}"),
    }
    assert_eq!(expand_placeholder_ids(&[1, 4, 2], 4, &[4, 4, 6]).unwrap(), [1, 4, 4, 6, 2]);
}

#[test]
fn reports_image_tokens_missing_from_the_vocabulary() {
    let processor = TextProcessor::new(tokenizer(), "[IMG]", "<|vision_pad|>", "<|vision_end|>");

    let error = processor.expand_image_placeholders(&[1, 2], VisionGrid { width: 1, height: 1 }).unwrap_err();

    assert_eq!(error, Error::MissingSpecialTokenId { name: "token".to_owned(), token: "[IMG]".to_owned() });
}

#[test]
fn streams_decoded_text_chunks() {
    let tokenizer = tokenizer();
    let mut stream = TextStream::new();

    assert_eq!(stream.push_token(&tokenizer, 10).as_deref(), Some("Total"));
    assert_eq!(stream.push_token(&tokenizer, 2), None);
    assert_eq!(stream.push_token(&tokenizer, 11).as_deref(), Some(" due"));
    assert_eq!(stream.text(), "Total due");
    assert!(stream.finish().is_ok());
}

#[test]
fn stream_keeps_the_first_decoding_error() {
    let tokenizer = tokenizer();
    let mut stream = TextStream::new();

    assert_eq!(stream.push_token(&tokenizer, -5), None);
    assert_eq!(stream.push_token(&tokenizer, 10), None);
    assert_eq!(stream.finish(), Err(Error::InvalidTokenId { token_id: -5 }));
}
