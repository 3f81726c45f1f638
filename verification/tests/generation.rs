use fast_lightonocr::model::decoder::generation::{
    extend_attention_mask, final_position_range, greedy_index, is_eos, token_id_to_i64, FinishReason, Generation,
    GenerationOutput, GenerationStep,
};
use fast_lightonocr::model::{AttentionMask, GenerationConfig, Logits};
use fast_lightonocr::Error;

fn generation_config() -> GenerationConfig {
    GenerationConfig {
        max_new_tokens: 8,
        bos_token_id: 151_643,
        do_sample: false,
        eos_token_ids: vec![151_645, 151_643],
        pad_token_id: 151_643,
        top_k: 0,
        transformers_version: None,
        trust_remote_code: false,
    }
}

#[test]
fn generation_output_exposes_finish_reason() {
    let output = GenerationOutput::new(vec![1, 2], FinishReason::EndOfSequence);

    assert_eq!(output.token_ids(), &[1, 2]);
    assert_eq!(output.finish_reason(), FinishReason::EndOfSequence);
}

#[test]
fn eos_detection_matches_any_configured_eos_token() {
    let config = generation_config();

    assert!(is_eos(&config, 151_645));
    assert!(is_eos(&config, 151_643));
    assert!(!is_eos(&config, 42));
}

/// Runs the generation state machine over a stream of selected tokens.
fn run(config: &GenerationConfig, stream: &[i64]) -> GenerationOutput {
    let mut generation = Generation::start(config);
    for &token in stream {
        if generation.is_finished() {
            break;
        }
        generation.accept(token);
    }
    assert!(generation.is_finished());
    generation.into_output()
}

#[test]
fn generation_stops_at_first_eos_token() {
    let output = run(&generation_config(), &[10, 11, 151_645, 12, 13]);

    assert_eq!(output.token_ids(), &[10, 11, 151_645]);
    assert_eq!(output.finish_reason(), FinishReason::EndOfSequence);
}

#[test]
fn generation_stops_at_the_token_limit() {
    let config = generation_config().with_max_new_tokens(3);
    let output = run(&config, &[1, 2, 3, 4, 5]);

    assert_eq!(output.token_ids(), &[1, 2, 3]);
    assert_eq!(output.finish_reason(), FinishReason::Length);
}

#[test]
fn generation_with_zero_limit_generates_nothing() {
    let config = generation_config().with_max_new_tokens(0);
    let generation = Generation::start(&config);

    assert!(generation.is_finished());
    let output = generation.into_output();
    assert!(output.token_ids().is_empty());
    assert_eq!(output.finish_reason(), FinishReason::Length);
}

#[test]
fn accept_reports_the_next_step() {
    let config = generation_config().with_max_new_tokens(2);
    let mut generation = Generation::start(&config);

    assert_eq!(generation.accept(7), GenerationStep::Continue);
    assert_eq!(generation.accept(151_643), GenerationStep::Finished(FinishReason::EndOfSequence));
}

#[test]
fn set_max_new_tokens_changes_only_the_limit() {
    let mut config = generation_config();
    config.set_max_new_tokens(3);

    assert_eq!(config.max_new_tokens, 3);
    assert_eq!(config.eos_token_ids, vec![151_645, 151_643]);
}

#[test]
fn greedy_selection_picks_the_highest_score_of_the_last_position() {
    let logits = Logits::new(vec![10, 0, 1, 1, 2, 3], 1, 2, 3).unwrap();
    let (start, end) = final_position_range(logits.batch_size(), logits.sequence_length(), logits.vocab_size())
        .unwrap();

    assert_eq!((start, end), (3, 6));
    assert_eq!(greedy_index(&logits.as_slice()[start..end]), 2);
}

#[test]
fn greedy_selection_keeps_the_last_of_tied_scores() {
    assert_eq!(greedy_index(&[5, 1, 5, 0]), 2);
    assert_eq!(greedy_index(&[-3]), 0);
}

#[test]
fn final_position_rejects_empty_sequence() {
    let logits = Logits::new(Vec::<f32>::new(), 1, 0, 3).unwrap();

    let error = final_position_range(logits.batch_size(), logits.sequence_length(), logits.vocab_size())
        .expect_err("empty sequence should fail");

    match error {
        Error::Inference { reason } => assert!(reason.contains("sequence length")),
        other => panic!("expected inference error, got {other:?}"),
    }
}

#[test]
fn final_position_rejects_batches() {
    assert!(matches!(final_position_range(2, 1, 3), Err(Error::Inference { .. })));
    assert!(matches!(final_position_range(1, 1, 0), Err(Error::Inference { .. })));
}

#[test]
fn converts_vocabulary_positions_to_token_ids() {
    assert_eq!(token_id_to_i64(42).unwrap(), 42);
}

#[test]
fn attention_mask_grows_by_one_visible_position() {
    let mut mask = AttentionMask::new(vec![0, 1, 1]);
    extend_attention_mask(&mut mask, true);
    assert_eq!(mask.as_slice(), &[1, 1, 1, 1]);

    extend_attention_mask(&mut mask, false);
    assert_eq!(mask.as_slice(), &[1, 1, 1, 1, 1]);
    assert_eq!(mask.len(), 5);
    assert!(!mask.is_empty());
    assert_eq!(AttentionMask::ones(2).as_slice(), &[1, 1]);
}
