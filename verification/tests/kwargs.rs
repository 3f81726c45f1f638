use fast_lightonocr::model::GenerationConfig;
use fast_lightonocr::util::kwargs::{
    apply_generation_kwargs, apply_runtime_kwargs, options_from_args, ArgValue, SamplingUpdate,
};
use fast_lightonocr::util::{ExecutionProvider, RuntimeOptions};

fn text(value: &str) -> ArgValue<f32> {
    ArgValue { text: Some(value.to_owned()), count: None, small_count: None, flag: None, number: None }
}

fn integer(value: u32) -> ArgValue<f32> {
    ArgValue {
        text: None,
        count: Some(value as usize),
        small_count: Some(value),
        flag: None,
        number: Some(value as f32),
    }
}

fn negative_int() -> ArgValue<f32> {
    ArgValue { text: None, count: None, small_count: None, flag: None, number: Some(-1.0) }
}

fn boolean(value: bool) -> ArgValue<f32> {
    let n = u32::from(value);
    ArgValue {
        text: None,
        count: Some(n as usize),
        small_count: Some(n),
        flag: Some(value),
        number: Some(n as f32),
    }
}

fn float(value: f32) -> ArgValue<f32> {
    ArgValue { text: None, count: None, small_count: None, flag: None, number: Some(value) }
}

fn arg(key: &str, value: ArgValue<f32>) -> (String, ArgValue<f32>) {
    (key.to_owned(), value)
}

#[test]
fn presets_select_model_files() {
    let options = options_from_args("fp16", None, Some("custom/embed.onnx".to_owned()), None).unwrap();

    assert_eq!(options.vision_encoder, "onnx/vision_encoder_fp16.onnx");
    assert_eq!(options.embedding, "custom/embed.onnx");
    assert_eq!(options.decoder, "onnx/decoder_model_merged_fp16.onnx");
    assert_eq!(options_from_args("default", None, None, None).unwrap().decoder, "onnx/decoder_model_merged.onnx");
    assert_eq!(options_from_args("q4", None, None, None).unwrap().embedding, "onnx/embed_tokens_q4.onnx");
}

#[test]
fn unknown_presets_are_rejected() {
    assert_eq!(
        options_from_args("int8", None, None, None).unwrap_err(),
        "unknown model preset \"int8\"; expected 'default', 'fp16', or 'q4'"
    );
}

#[test]
fn no_runtime_kwargs_keep_the_options() {
    let options = RuntimeOptions::default().with_intra_threads(2);
    assert_eq!(apply_runtime_kwargs::<f32>(options, None).unwrap(), options);
}

#[test]
fn runtime_kwargs_override_the_options() {
    let kwargs = [
        arg("execution_provider", text("cuda")),
        arg("device_id", integer(1)),
        arg("intra_threads", integer(4)),
        arg("inter_threads", boolean(true)),
        arg("parallel_execution", boolean(true)),
    ];

    let options = apply_runtime_kwargs(RuntimeOptions::default(), Some(&kwargs)).unwrap();

    assert_eq!(options.execution_provider, ExecutionProvider::Cuda { device_id: 1 });
    assert_eq!(options.intra_threads, Some(4));
    assert_eq!(options.inter_threads, Some(1));
    assert!(options.parallel_execution);
}

#[test]
fn the_device_of_a_cuda_provider_is_kept() {
    let options = RuntimeOptions::default().with_execution_provider(ExecutionProvider::Cuda { device_id: 3 });

    let updated = apply_runtime_kwargs(options, Some(&[arg("intra_threads", integer(2))])).unwrap();

    assert_eq!(updated.execution_provider, ExecutionProvider::Cuda { device_id: 3 });
    let back_to_cpu = apply_runtime_kwargs(options, Some(&[arg("execution_provider", text("cpu"))]));
    assert_eq!(back_to_cpu.unwrap().execution_provider, ExecutionProvider::Cpu);
}

#[test]
fn invalid_runtime_kwargs_are_reported() {
    let run = |kwargs: &[(String, ArgValue<f32>)]| apply_runtime_kwargs(RuntimeOptions::default(), Some(kwargs)).unwrap_err();

    assert_eq!(
        run(&[arg("execution_provider", integer(0))]),
        "runtime_kwargs['execution_provider'] must be a string ('cpu' or 'cuda')"
    );
    assert_eq!(run(&[arg("device_id", negative_int())]), "runtime_kwargs['device_id'] must be a non-negative int");
    assert_eq!(run(&[arg("inter_threads", text("2"))]), "runtime_kwargs['inter_threads'] must be a non-negative int");
    assert_eq!(run(&[arg("parallel_execution", integer(1))]), "runtime_kwargs['parallel_execution'] must be a bool");
    assert_eq!(
        run(&[arg("threads", integer(1))]),
        "unsupported runtime_kwargs key \"threads\"; expected one of: execution_provider, device_id, intra_threads, inter_threads, parallel_execution"
    );
    assert_eq!(
        run(&[arg("execution_provider", text("rocm"))]),
        "unsupported execution_provider \"rocm\"; expected 'cpu' or 'cuda'"
    );
}

fn generation_config() -> GenerationConfig {
    GenerationConfig {
        max_new_tokens: 512,
        bos_token_id: 151_643,
        do_sample: false,
        eos_token_ids: vec![151_645],
        pad_token_id: 151_643,
        top_k: 0,
        transformers_version: None,
        trust_remote_code: false,
    }
}

#[test]
fn generation_kwargs_update_the_config() {
    let mut config = generation_config();
    let kwargs = [
        arg("do_sample", boolean(true)),
        arg("top_k", integer(20)),
        arg("temperature", float(0.7)),
        arg("top_p", integer(1)),
    ];

    let sampling = apply_generation_kwargs(&mut config, Some(&kwargs), Some(64)).unwrap();

    assert!(config.do_sample);
    assert_eq!(config.top_k, 20);
    assert_eq!(config.max_new_tokens, 64);
    assert_eq!(sampling, SamplingUpdate { temperature: Some(0.7), top_p: Some(1.0) });
}

#[test]
fn explicit_max_new_tokens_wins_over_the_alias() {
    let mut config = generation_config();

    apply_generation_kwargs(&mut config, Some(&[arg("max_new_tokens", integer(32))]), Some(64)).unwrap();
    assert_eq!(config.max_new_tokens, 32);

    let mut untouched = generation_config();
    let sampling = apply_generation_kwargs::<f32>(&mut untouched, None, None).unwrap();
    assert_eq!(untouched, generation_config());
    assert_eq!(sampling, SamplingUpdate { temperature: None, top_p: None });
}

#[test]
fn invalid_generation_kwargs_keep_earlier_settings() {
    let mut config = generation_config();
    let kwargs = [arg("top_k", integer(5)), arg("do_sample", integer(1)), arg("max_new_tokens", integer(9))];

    let error = apply_generation_kwargs(&mut config, Some(&kwargs), Some(64)).unwrap_err();

    assert_eq!(error, "generation_kwargs['do_sample'] must be a bool");
    assert_eq!(config.top_k, 5);
    assert_eq!(config.max_new_tokens, 512);

    let mut other = generation_config();
    assert_eq!(
        apply_generation_kwargs(&mut other, Some(&[arg("beam", integer(2))]), None).unwrap_err(),
        "unsupported generation_kwargs key \"beam\"; expected one of: max_new_tokens, do_sample, temperature, top_k, top_p"
    );
    assert_eq!(
        apply_generation_kwargs(&mut other, Some(&[arg("temperature", text("hot"))]), None).unwrap_err(),
        "generation_kwargs['temperature'] must be a float"
    );
}
