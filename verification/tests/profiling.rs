use fast_lightonocr::profiling::{
    eq_ignore_ascii_case, profile_switch_enabled, switch_value_enabled, ProfileRun, Stage, STAGE_COUNT,
};

#[test]
fn stages_have_distinct_slots_and_labels() {
    assert_eq!(Stage::PipelineTotal.index(), 0);
    assert_eq!(Stage::FinalTextDecode.index(), STAGE_COUNT - 1);
    assert_eq!(Stage::DecoderOnnx.label(), "decoder ONNX");
    assert_eq!(Stage::PrefillDecoder.label(), "decoder prefill (inclusive)");
}

#[test]
fn records_timings_per_stage() {
    let mut run = ProfileRun::new();
    run.record(Stage::DecoderOnnx, 1_500);
    run.record(Stage::DecoderOnnx, 500);
    run.record(Stage::Sampling, 7);

    let decoder = run.measurement(Stage::DecoderOnnx);
    assert_eq!(decoder.total_nanos, 2_000);
    assert_eq!(decoder.count, 2);
    assert_eq!(run.measurement(Stage::Sampling).count, 1);
    assert_eq!(run.measurement(Stage::VisionOnnx).count, 0);
}

#[test]
fn counts_tokens_and_copied_bytes() {
    let mut run = ProfileRun::new();
    run.record_generated_token();
    run.record_generated_token();
    run.record_kv_extract_bytes(64);
    run.record_kv_extract_bytes(32);
    run.record_logits_extract_bytes(10);

    assert_eq!(run.generated_tokens(), 2);
    assert_eq!(run.kv_extract_bytes(), 96);
    assert_eq!(run.kv_extract_tensors(), 2);
    assert_eq!(run.logits_extract_bytes(), 10);
}

#[test]
fn summarizes_the_run() {
    let mut run = ProfileRun::new();
    run.record(Stage::PipelineTotal, 1_000);
    run.record(Stage::VisionOnnx, 100);
    run.record(Stage::EmbeddingOnnx, 50);
    run.record(Stage::DecoderOnnx, 300);
    run.record(Stage::GenerationTotal, 600);
    run.record(Stage::KvCacheUpdate, 20);
    run.record(Stage::LogitsExtraction, 10);
    run.record(Stage::Sampling, 40);
    run.record(Stage::PrefillDecoder, 200);
    run.record(Stage::AutoregressiveDecoder, 150);
    run.record(Stage::AutoregressiveDecoder, 150);

    let summary = run.summary();

    assert_eq!(summary.total_nanos, 1_000);
    assert_eq!(summary.onnx_nanos, 450);
    assert_eq!(summary.outside_onnx_nanos, 550);
    assert_eq!(summary.decoder_host_nanos, 30);
    assert_eq!(summary.kv_update_replace_nanos, 20);
    assert_eq!(summary.decoder_invocations, 3);
    assert_eq!(summary.accounted_nanos, 370);
    assert_eq!(summary.unaccounted_nanos, 230);
    assert_eq!(summary.decoder_inclusive_nanos, 500);
}

#[test]
fn unaccounted_time_never_goes_negative() {
    let mut run = ProfileRun::new();
    run.record(Stage::GenerationTotal, 10);
    run.record(Stage::DecoderOnnx, 25);

    let summary = run.summary();

    assert_eq!(summary.unaccounted_nanos, 0);
    assert_eq!(summary.outside_onnx_nanos, 0);
}

#[test]
fn reads_the_profiling_switch() {
    assert!(profile_switch_enabled("1"));
    assert!(profile_switch_enabled(" yes "));
    assert!(!profile_switch_enabled(""));
    assert!(!profile_switch_enabled("  "));
    assert!(!profile_switch_enabled("0"));
    assert!(!profile_switch_enabled("FALSE"));
    assert!(!profile_switch_enabled(" Off\n"));
    assert!(!profile_switch_enabled("no"));
    assert!(!switch_value_enabled("Off"));
    assert!(switch_value_enabled(" off"));
    assert!(switch_value_enabled("on"));
    assert!(eq_ignore_ascii_case("OnNx", "onnx"));
    assert!(!eq_ignore_ascii_case("onnx", "onn"));
}
