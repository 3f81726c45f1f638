use fast_lightonocr::model::contract::{ElementType, Outlet, OutletType};
use fast_lightonocr::model::embedding_model::config::EmbeddingConfig;
use fast_lightonocr::model::embedding_model::embedding::{
    validate_embedding_shape, validate_session_contract, validate_token_ids,
};
use fast_lightonocr::model::{DataType, InputEmbeddings, ModelType};
use fast_lightonocr::Error;

fn config() -> EmbeddingConfig {
    EmbeddingConfig { dtype: DataType::BFloat16, model_type: ModelType::Qwen3, hidden_size: 1024, vocab_size: 151_936 }
}

fn tensor(name: &str, ty: ElementType, shape: Vec<i64>) -> Outlet {
    Outlet { name: name.to_owned(), value_type: OutletType::Tensor { ty, shape } }
}

#[test]
fn input_embeddings_expose_shape_and_values() {
    let embeddings = InputEmbeddings::new(vec![0.0, 1.0, 2.0, 3.0], 1, 2, 2).unwrap();

    assert_eq!(embeddings.shape(), (1, 2, 2));
    assert_eq!(embeddings.batch_size(), 1);
    assert_eq!(embeddings.sequence_length(), 2);
    assert_eq!(embeddings.hidden_size(), 2);
    assert_eq!(embeddings.as_slice(), &[0.0, 1.0, 2.0, 3.0]);
    assert_eq!(embeddings.get(0, 1, 1), Some(3.0));
    assert_eq!(embeddings.get(1, 0, 0), None);
}

#[test]
fn rejects_invalid_input_embedding_shapes() {
    let error = InputEmbeddings::new(vec![0.0; 3], 1, 2, 2).expect_err("shape validation should fail");

    match error {
        Error::InvalidEmbeddingOutput { reason } => {
            assert!(reason.contains("does not match shape"));
        }
        other => panic!("expected invalid embedding output error, got {other:?}"),
    }
}

#[test]
fn accepts_the_documented_embedding_session() {
    let inputs = [tensor("input_ids", ElementType::Int64, vec![-1, -1])];
    let outputs = [tensor("inputs_embeds", ElementType::Float32, vec![-1, -1, 1024])];

    assert!(validate_session_contract(&inputs, &outputs, &config()).is_ok());
}

#[test]
fn rejects_embedding_sessions_that_break_the_contract() {
    let inputs = [tensor("input_ids", ElementType::Int64, vec![-1, -1])];
    let wrong_hidden = [tensor("inputs_embeds", ElementType::Float32, vec![-1, -1, 512])];
    let renamed = [tensor("embeddings", ElementType::Float32, vec![-1, -1, 1024])];

    assert!(matches!(validate_session_contract(&inputs, &wrong_hidden, &config()), Err(Error::InvalidEmbeddingModel { .. })));
    assert!(matches!(validate_session_contract(&inputs, &renamed, &config()), Err(Error::InvalidEmbeddingModel { .. })));
    assert!(matches!(validate_session_contract(&[], &renamed, &config()), Err(Error::InvalidEmbeddingModel { .. })));
}

#[test]
fn validates_token_ids_against_the_vocabulary() {
    assert!(validate_token_ids(&[0, 5, 151_935], &config()).is_ok());
    assert!(matches!(validate_token_ids(&[], &config()), Err(Error::InvalidEmbeddingInput { .. })));
    assert!(matches!(validate_token_ids(&[1, -1], &config()), Err(Error::InvalidEmbeddingInput { .. })));
    assert!(matches!(validate_token_ids(&[151_936], &config()), Err(Error::InvalidEmbeddingInput { .. })));
}

#[test]
fn validates_embedding_output_shapes() {
    assert!(validate_embedding_shape(&[1, 4, 1024], 4, &config()).is_ok());
    assert!(matches!(validate_embedding_shape(&[1, 3, 1024], 4, &config()), Err(Error::InvalidEmbeddingOutput { .. })));
    assert!(matches!(validate_embedding_shape(&[4, 1024], 4, &config()), Err(Error::InvalidEmbeddingOutput { .. })));
}
