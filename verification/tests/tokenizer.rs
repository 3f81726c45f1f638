use fast_lightonocr::tokenizer::{widen_ids, PaddingSide, SpecialToken, SpecialTokensMap, Tokenizer, TokenizerConfig};
use fast_lightonocr::Error;

/// A word-level tokenizer with four special tokens and four words.
const TOKENIZER_JSON: &str = r#"{
  "version": "1.0",
  "truncation": null,
  "padding": null,
  "added_tokens": [
    {"id": 0, "content": "<s>", "single_word": false, "lstrip": false, "rstrip": false, "normalized": false, "special": true},
    {"id": 1, "content": "</s>", "single_word": false, "lstrip": false, "rstrip": false, "normalized": false, "special": true},
    {"id": 2, "content": "<pad>", "single_word": false, "lstrip": false, "rstrip": false, "normalized": false, "special": true},
    {"id": 3, "content": "<unk>", "single_word": false, "lstrip": false, "rstrip": false, "normalized": false, "special": true}
  ],
  "normalizer": null,
  "pre_tokenizer": {"type": "Whitespace"},
  "post_processor": null,
  "decoder": null,
  "model": {
    "type": "WordLevel",
    "vocab": {"<s>": 0, "</s>": 1, "<pad>": 2, "<unk>": 3, "hello": 4, "world": 5, "rust": 6, "OCR": 7},
    "unk_token": "<unk>"
  }
}"#;

fn runtime() -> tokenizers::Tokenizer {
    tokenizers::Tokenizer::from_bytes(TOKENIZER_JSON.as_bytes()).unwrap()
}

fn config() -> TokenizerConfig {
    TokenizerConfig {
        add_prefix_space: false,
        bos_token: Some("<s>".to_owned()),
        clean_up_tokenization_spaces: false,
        eos_token: "</s>".to_owned(),
        max_length: None,
        model_max_length: 512,
        pad_to_multiple_of: None,
        pad_token: "<pad>".to_owned(),
        pad_token_type_id: 0,
        padding_side: PaddingSide::Right,
        split_special_tokens: false,
        unk_token: Some("<unk>".to_owned()),
    }
}

fn special_tokens_map() -> SpecialTokensMap {
    SpecialTokensMap {
        bos_token: Some(SpecialToken::Text("<s>".to_owned())),
        eos_token: Some(SpecialToken::AddedToken { content: "</s>".to_owned() }),
        pad_token: Some(SpecialToken::Text("<pad>".to_owned())),
        unk_token: Some(SpecialToken::Text("<unk>".to_owned())),
        additional_special_tokens: Vec::new(),
    }
}

fn tokenizer() -> Tokenizer {
    Tokenizer::from_parts(runtime(), config(), Some(special_tokens_map())).unwrap()
}

#[test]
fn loads_tokenizer_assets_and_resolves_special_tokens() {
    let tokenizer = tokenizer();

    assert_eq!(tokenizer.config().padding_side, PaddingSide::Right);
    assert!(tokenizer.special_tokens_map().is_some());

    let special_tokens = tokenizer.special_token_ids();

    assert_eq!(special_tokens.bos_token_id, Some(0));
    assert_eq!(special_tokens.eos_token_id, 1);
    assert_eq!(special_tokens.pad_token_id, 2);
    assert_eq!(special_tokens.unk_token_id, Some(3));
}

#[test]
fn encodes_text_to_token_ids() {
    let tokenizer = tokenizer();

    let ids = tokenizer.encode("hello world").unwrap();

    assert_eq!(ids, [4, 5]);
}

#[test]
fn resolves_token_ids() {
    let tokenizer = tokenizer();

    assert_eq!(tokenizer.token_to_id("<s>").unwrap(), 0);
    assert_eq!(tokenizer.token_to_id("</s>").unwrap(), 1);
    assert_eq!(tokenizer.token_to_id("<pad>").unwrap(), 2);
    assert_eq!(tokenizer.token_to_id("<unk>").unwrap(), 3);
    assert_eq!(tokenizer.token_to_id("hello").unwrap(), 4);
    assert_eq!(tokenizer.token_to_id("world").unwrap(), 5);
}

#[test]
fn resolves_tokens_from_ids() {
    let tokenizer = tokenizer();

    assert_eq!(tokenizer.id_to_token(0).as_deref(), Some("<s>"));
    assert_eq!(tokenizer.id_to_token(1).as_deref(), Some("</s>"));
    assert_eq!(tokenizer.id_to_token(2).as_deref(), Some("<pad>"));
    assert_eq!(tokenizer.id_to_token(3).as_deref(), Some("<unk>"));
    assert_eq!(tokenizer.id_to_token(4).as_deref(), Some("hello"));
    assert_eq!(tokenizer.id_to_token(5).as_deref(), Some("world"));
    assert_eq!(tokenizer.id_to_token(9999), None);
    assert_eq!(tokenizer.id_to_token(-1), None);
}

#[test]
fn matches_hugging_face_expected_special_tokens() {
    let tokenizer = tokenizer();

    let ids = tokenizer.encode("<s> hello </s>").unwrap();

    assert_eq!(ids, [0, 4, 1]);
    assert_eq!(tokenizer.decode(&ids).unwrap(), "<s> hello </s>");
    assert_eq!(tokenizer.decode_skip_special_tokens(&ids).unwrap(), "hello");
}

#[test]
fn decodes_batches() {
    let tokenizer = tokenizer();

    let batch = [vec![4, 5], vec![6, 7], vec![0, 4, 1]];

    let decoded = tokenizer.decode_batch(&batch).unwrap();
    let decoded_without_special_tokens = tokenizer.decode_batch_skip_special_tokens(&batch).unwrap();

    assert_eq!(decoded, ["hello world", "rust OCR", "<s> hello </s>"]);

    assert_eq!(decoded_without_special_tokens, ["hello world", "rust OCR", "hello"]);
}

#[test]
fn encode_decode_round_trip_is_deterministic() {
    let tokenizer = tokenizer();

    let ids = tokenizer.encode("rust OCR").unwrap();
    let decoded = tokenizer.decode(&ids).unwrap();
    let reencoded = tokenizer.encode(&decoded).unwrap();

    assert_eq!(decoded, "rust OCR");
    assert_eq!(ids, reencoded);
}

#[test]
fn rejects_negative_token_ids_for_decoding() {
    let tokenizer = tokenizer();

    let error = tokenizer.decode(&[-1]).expect_err("negative token IDs cannot be decoded");

    match error {
        Error::InvalidTokenId { token_id } => assert_eq!(token_id, -1),
        other => panic!("expected invalid token ID error, got {other:?}"),
    }
}

#[test]
fn reports_the_first_out_of_range_id_of_a_batch() {
    let tokenizer = tokenizer();

    let error = tokenizer.decode_batch(&[vec![4], vec![5, 4_294_967_296, -7]]).unwrap_err();

    assert_eq!(error, Error::InvalidTokenId { token_id: 4_294_967_296 });
}

#[test]
fn config_tokens_apply_without_a_special_tokens_map() {
    let mut config = config();
    config.bos_token = None;
    config.unk_token = None;

    let tokenizer = Tokenizer::from_parts(runtime(), config, None).unwrap();

    assert!(tokenizer.special_tokens_map().is_none());
    let ids = tokenizer.special_token_ids();
    assert_eq!(ids.bos_token_id, None);
    assert_eq!(ids.eos_token_id, 1);
    assert_eq!(ids.pad_token_id, 2);
    assert_eq!(ids.unk_token_id, None);
}

#[test]
fn special_tokens_map_wins_over_the_config() {
    let map = SpecialTokensMap { eos_token: Some(SpecialToken::Text("<pad>".to_owned())), ..SpecialTokensMap::default() };

    let tokenizer = Tokenizer::from_parts(runtime(), config(), Some(map)).unwrap();

    assert_eq!(tokenizer.special_token_ids().eos_token_id, 2);
    assert_eq!(tokenizer.special_token_ids().bos_token_id, Some(0));
}

#[test]
fn reports_special_tokens_missing_from_the_vocabulary() {
    let mut config = config();
    config.pad_token = "[PAD]".to_owned();

    let error = Tokenizer::from_parts(runtime(), config, None).unwrap_err();

    assert_eq!(error, Error::MissingSpecialTokenId { name: "pad_token".to_owned(), token: "[PAD]".to_owned() });
    let error = tokenizer().token_to_id("missing").unwrap_err();
    assert_eq!(error, Error::MissingSpecialTokenId { name: "token".to_owned(), token: "missing".to_owned() });
}

#[test]
fn special_token_text_is_read_from_either_form() {
    assert_eq!(SpecialToken::Text("<s>".to_owned()).as_str(), "<s>");
    assert_eq!(SpecialToken::AddedToken { content: "</s>".to_owned() }.as_str(), "</s>");
}

#[test]
fn widens_encoding_ids_one_for_one() {
    assert_eq!(widen_ids(&[0, 7, u32::MAX]), vec![0i64, 7, 4_294_967_295]);
    assert!(widen_ids(&[]).is_empty());
}
