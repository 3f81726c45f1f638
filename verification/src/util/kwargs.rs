//! Option arguments of the Python interface: model presets and runtime
//! keyword arguments, read from plain values.

use vstd::prelude::*;

use crate::model::contract::text_eq;
use crate::model::decoder::config::GenerationConfig;
use crate::model::pipeline::LightOnOCROptions;
use crate::util::onnxruntime::{ExecutionProvider, RuntimeOptions};
use crate::util::text::with_text;

verus! {

/// A keyword argument value, given by what it converts to: as a string, as
/// a non-negative `usize`, as a `u32`, as a `bool` and as a floating-point
/// number `F` (`None` where the conversion fails).
#[derive(Debug, Clone, PartialEq)]
pub struct ArgValue<F> {
    /// The value as a string.
    pub text: Option<String>,
    /// The value as a `usize`.
    pub count: Option<usize>,
    /// The value as a `u32`.
    pub small_count: Option<u32>,
    /// The value as a `bool`.
    pub flag: Option<bool>,
    /// The value as a floating-point number.
    pub number: Option<F>,
}

/// `Debug` formatting of a string (std): the text in double quotes with
/// special characters escaped.
pub uninterp spec fn debug_quoted(text: Seq<char>) -> Seq<char>;

/// Formats `text` with `{:?}` (std's `Debug` for `str`). Trusted: the result
/// is `debug_quoted` of the text.
#[verifier::external_body]
pub(crate) fn quote(text: &str) -> (r: String)
    ensures
        r@ == debug_quoted(text@),
{
    format!("{text:?}")
}

/// Options of a model preset: `default`, `fp16` or `q4`.
pub open spec fn preset_files(preset: Seq<char>) -> Option<(Seq<char>, Seq<char>, Seq<char>)> {
    if preset == "default"@ {
        Some(("onnx/vision_encoder.onnx"@, "onnx/embed_tokens.onnx"@, "onnx/decoder_model_merged.onnx"@))
    } else if preset == "fp16"@ {
        Some(("onnx/vision_encoder_fp16.onnx"@, "onnx/embed_tokens_fp16.onnx"@, "onnx/decoder_model_merged_fp16.onnx"@))
    } else if preset == "q4"@ {
        Some(("onnx/vision_encoder_q4.onnx"@, "onnx/embed_tokens_q4.onnx"@, "onnx/decoder_model_merged_q4.onnx"@))
    } else {
        None
    }
}

/// `chosen` when given, else `preset`.
pub open spec fn file_override(chosen: Option<String>, preset: Seq<char>) -> Seq<char> {
    match chosen {
        Some(path) => path@,
        None => preset,
    }
}

/// Loading options from a preset name and optional model file overrides.
pub fn options_from_args(
    preset: &str,
    vision_encoder: Option<String>,
    embedding: Option<String>,
    decoder: Option<String>,
) -> (r: Result<LightOnOCROptions, String>)
    ensures
        match preset_files(preset@) {
            Some((v, e, d)) => r matches Ok(o) && {
                &&& o.vision_encoder@ == file_override(vision_encoder, v)
                &&& o.embedding@ == file_override(embedding, e)
                &&& o.decoder@ == file_override(decoder, d)
                &&& o.max_new_tokens is None
                &&& o.runtime.execution_provider is Cpu
                &&& o.runtime.intra_threads is None
                &&& o.runtime.inter_threads is None
                &&& !o.runtime.parallel_execution
            },
            None => r matches Err(message) && message@ == "unknown model preset "@ + debug_quoted(preset@)
                + "; expected 'default', 'fp16', or 'q4'"@,
        },
{
    let mut options = if text_eq(preset, "default") {
        LightOnOCROptions::default()
    } else if text_eq(preset, "fp16") {
        LightOnOCROptions::fp16()
    } else if text_eq(preset, "q4") {
        LightOnOCROptions::q4()
    } else {
        let quoted = quote(preset);
        return Err(with_text("unknown model preset ", quoted.as_str(), "; expected 'default', 'fp16', or 'q4'"));
    };
    if let Some(path) = vision_encoder {
        options.vision_encoder = path;
    }
    if let Some(path) = embedding {
        options.embedding = path;
    }
    if let Some(path) = decoder {
        options.decoder = path;
    }
    Ok(options)
}

/// Runtime settings while the keyword arguments are read.
pub struct RuntimeArgs {
    /// Options read so far.
    pub options: RuntimeOptions,
    /// Execution provider name read so far.
    pub provider: Seq<char>,
    /// CUDA device read so far.
    pub device_id: usize,
}

/// The message for a runtime argument that is not a non-negative integer.
pub open spec fn count_message(key: Seq<char>) -> Seq<char> {
    "runtime_kwargs['"@ + key + "'] must be a non-negative int"@
}

/// Reads one runtime keyword argument.
pub open spec fn runtime_arg_step<F>(state: RuntimeArgs, key: Seq<char>, value: ArgValue<F>) -> Result<RuntimeArgs, Seq<char>> {
    if key == "execution_provider"@ {
        match value.text {
            Some(text) => Ok(RuntimeArgs { provider: text@, ..state }),
            None => Err("runtime_kwargs['execution_provider'] must be a string ('cpu' or 'cuda')"@),
        }
    } else if key == "device_id"@ {
        match value.count {
            Some(n) => Ok(RuntimeArgs { device_id: n, ..state }),
            None => Err(count_message(key)),
        }
    } else if key == "intra_threads"@ {
        match value.count {
            Some(n) => Ok(RuntimeArgs { options: RuntimeOptions { intra_threads: Some(n), ..state.options }, ..state }),
            None => Err(count_message(key)),
        }
    } else if key == "inter_threads"@ {
        match value.count {
            Some(n) => Ok(RuntimeArgs { options: RuntimeOptions { inter_threads: Some(n), ..state.options }, ..state }),
            None => Err(count_message(key)),
        }
    } else if key == "parallel_execution"@ {
        match value.flag {
            Some(b) => Ok(RuntimeArgs { options: RuntimeOptions { parallel_execution: b, ..state.options }, ..state }),
            None => Err("runtime_kwargs['parallel_execution'] must be a bool"@),
        }
    } else {
        Err("unsupported runtime_kwargs key "@ + debug_quoted(key)
            + "; expected one of: execution_provider, device_id, intra_threads, inter_threads, parallel_execution"@)
    }
}

/// Reads the runtime keyword arguments in order, stopping at the first error.
pub open spec fn read_runtime_args<F>(kwargs: Seq<(String, ArgValue<F>)>, start: RuntimeArgs) -> Result<RuntimeArgs, Seq<char>>
    decreases kwargs.len(),
{
    if kwargs.len() == 0 {
        Ok(start)
    } else {
        match read_runtime_args(kwargs.drop_last(), start) {
            Ok(state) => runtime_arg_step(state, kwargs.last().0@, kwargs.last().1),
            Err(message) => Err(message),
        }
    }
}

proof fn lemma_error_persists<F>(kwargs: Seq<(String, ArgValue<F>)>, start: RuntimeArgs, j: int)
    requires
        0 <= j <= kwargs.len(),
        read_runtime_args(kwargs.take(j), start) is Err,
    ensures
        read_runtime_args(kwargs, start) == read_runtime_args(kwargs.take(j), start),
    decreases kwargs.len() - j,
{
    if j < kwargs.len() {
        let t = kwargs.take(j + 1);
        assert(t.drop_last() =~= kwargs.take(j));
        lemma_error_persists(kwargs, start, j + 1);
    } else {
        assert(kwargs.take(j) =~= kwargs);
    }
}

/// The settings the arguments start from.
pub open spec fn initial_runtime_args(options: RuntimeOptions) -> RuntimeArgs {
    RuntimeArgs {
        options,
        provider: match options.execution_provider {
            ExecutionProvider::Cpu => "cpu"@,
            ExecutionProvider::Cuda { .. } => "cuda"@,
        },
        device_id: match options.execution_provider {
            ExecutionProvider::Cuda { device_id } => device_id,
            ExecutionProvider::Cpu => 0,
        },
    }
}

/// The options once every argument is read and the provider chosen.
pub open spec fn runtime_kwargs_result<F>(options: RuntimeOptions, kwargs: Seq<(String, ArgValue<F>)>) -> Result<
    RuntimeOptions,
    Seq<char>,
> {
    match read_runtime_args(kwargs, initial_runtime_args(options)) {
        Err(message) => Err(message),
        Ok(state) => if state.provider == "cpu"@ {
            Ok(RuntimeOptions { execution_provider: ExecutionProvider::Cpu, ..state.options })
        } else if state.provider == "cuda"@ {
            Ok(RuntimeOptions { execution_provider: ExecutionProvider::Cuda { device_id: state.device_id }, ..state.options })
        } else {
            Err("unsupported execution_provider "@ + debug_quoted(state.provider) + "; expected 'cpu' or 'cuda'"@)
        },
    }
}

/// Applies runtime keyword arguments (`execution_provider`, `device_id`,
/// `intra_threads`, `inter_threads`, `parallel_execution`) to the options.
pub fn apply_runtime_kwargs<F>(options: RuntimeOptions, runtime_kwargs: Option<&[(String, ArgValue<F>)]>) -> (r: Result<
    RuntimeOptions,
    String,
>)
    ensures
        match runtime_kwargs {
            None => r == Ok::<RuntimeOptions, String>(options),
            Some(kwargs) => match runtime_kwargs_result(options, kwargs@) {
                Ok(o) => r == Ok::<RuntimeOptions, String>(o),
                Err(message) => r matches Err(m) && m@ == message,
            },
        },
{
    let kwargs = match runtime_kwargs {
        None => return Ok(options),
        Some(kwargs) => kwargs,
    };
    let mut current = options;
    let mut device_id: usize = match options.execution_provider {
        ExecutionProvider::Cuda { device_id } => device_id,
        ExecutionProvider::Cpu => 0,
    };
    let mut provider: String = match options.execution_provider {
        ExecutionProvider::Cpu => "cpu".to_owned(),
        ExecutionProvider::Cuda { .. } => "cuda".to_owned(),
    };
    let mut i: usize = 0;
    while i < kwargs.len()
        invariant
            i <= kwargs@.len(),
            runtime_kwargs == Some(kwargs),
            read_runtime_args(kwargs@.take(i as int), initial_runtime_args(options)) == Ok::<RuntimeArgs, Seq<char>>(
                RuntimeArgs { options: current, provider: provider@, device_id },
            ),
        decreases kwargs@.len() - i,
    {
        proof {
            let t = kwargs@.take(i + 1);
            assert(t.drop_last() =~= kwargs@.take(i as int));
            assert(t.last() == kwargs@[i as int]);
        }
        let (key, value) = (&kwargs[i].0, &kwargs[i].1);
        let k = key.as_str();
        if text_eq(k, "execution_provider") {
            match &value.text {
                Some(text) => {
                    provider = text.clone();
                },
                None => {
                    proof {
                        lemma_error_persists(kwargs@, initial_runtime_args(options), i + 1);
                    }
                    return Err("runtime_kwargs['execution_provider'] must be a string ('cpu' or 'cuda')".to_owned());
                },
            }
        } else if text_eq(k, "device_id") {
            match value.count {
                Some(n) => {
                    device_id = n;
                },
                None => {
                    proof {
                        lemma_error_persists(kwargs@, initial_runtime_args(options), i + 1);
                    }
                    return Err(with_text("runtime_kwargs['", k, "'] must be a non-negative int"));
                },
            }
        } else if text_eq(k, "intra_threads") {
            match value.count {
                Some(n) => {
                    current = RuntimeOptions { intra_threads: Some(n), ..current };
                },
                None => {
                    proof {
                        lemma_error_persists(kwargs@, initial_runtime_args(options), i + 1);
                    }
                    return Err(with_text("runtime_kwargs['", k, "'] must be a non-negative int"));
                },
            }
        } else if text_eq(k, "inter_threads") {
            match value.count {
                Some(n) => {
                    current = RuntimeOptions { inter_threads: Some(n), ..current };
                },
                None => {
                    proof {
                        lemma_error_persists(kwargs@, initial_runtime_args(options), i + 1);
                    }
                    return Err(with_text("runtime_kwargs['", k, "'] must be a non-negative int"));
                },
            }
        } else if text_eq(k, "parallel_execution") {
            match value.flag {
                Some(b) => {
                    current = RuntimeOptions { parallel_execution: b, ..current };
                },
                None => {
                    proof {
                        lemma_error_persists(kwargs@, initial_runtime_args(options), i + 1);
                    }
                    return Err("runtime_kwargs['parallel_execution'] must be a bool".to_owned());
                },
            }
        } else {
            let quoted = quote(k);
            proof {
                lemma_error_persists(kwargs@, initial_runtime_args(options), i + 1);
            }
            return Err(with_text(
                "unsupported runtime_kwargs key ",
                quoted.as_str(),
                "; expected one of: execution_provider, device_id, intra_threads, inter_threads, parallel_execution",
            ));
        }
        i += 1;
    }
    proof {
        assert(kwargs@.take(kwargs@.len() as int) =~= kwargs@);
    }
    if text_eq(provider.as_str(), "cpu") {
        Ok(RuntimeOptions { execution_provider: ExecutionProvider::Cpu, ..current })
    } else if text_eq(provider.as_str(), "cuda") {
        Ok(RuntimeOptions { execution_provider: ExecutionProvider::Cuda { device_id }, ..current })
    } else {
        let quoted = quote(provider.as_str());
        Err(with_text("unsupported execution_provider ", quoted.as_str(), "; expected 'cpu' or 'cuda'"))
    }
}

/// Sampling settings given as floating-point keyword arguments, applied by
/// the caller.
#[derive(Debug, Clone, Copy, PartialEq)]
pub struct SamplingUpdate<F> {
    /// New sampling temperature.
    pub temperature: Option<F>,
    /// New nucleus probability threshold.
    pub top_p: Option<F>,
}

/// Generation settings while the keyword arguments are read.
pub struct GenerationArgs<F> {
    /// The configuration so far.
    pub config: GenerationConfig,
    /// Floating-point settings so far.
    pub sampling: SamplingUpdate<F>,
    /// Whether `max_new_tokens` was given.
    pub applied_max_new_tokens: bool,
}

/// Reads one generation keyword argument.
pub open spec fn generation_arg_step<F>(state: GenerationArgs<F>, key: Seq<char>, value: ArgValue<F>) -> Result<
    GenerationArgs<F>,
    Seq<char>,
> {
    if key == "max_new_tokens"@ {
        match value.count {
            Some(n) => Ok(GenerationArgs {
                config: GenerationConfig { max_new_tokens: n, ..state.config },
                applied_max_new_tokens: true,
                ..state
            }),
            None => Err("generation_kwargs['max_new_tokens'] must be a non-negative int"@),
        }
    } else if key == "do_sample"@ {
        match value.flag {
            Some(b) => Ok(GenerationArgs { config: GenerationConfig { do_sample: b, ..state.config }, ..state }),
            None => Err("generation_kwargs['do_sample'] must be a bool"@),
        }
    } else if key == "temperature"@ {
        match value.number {
            Some(x) => Ok(GenerationArgs { sampling: SamplingUpdate { temperature: Some(x), ..state.sampling }, ..state }),
            None => Err("generation_kwargs['temperature'] must be a float"@),
        }
    } else if key == "top_k"@ {
        match value.small_count {
            Some(k) => Ok(GenerationArgs { config: GenerationConfig { top_k: k, ..state.config }, ..state }),
            None => Err("generation_kwargs['top_k'] must be a non-negative int"@),
        }
    } else if key == "top_p"@ {
        match value.number {
            Some(x) => Ok(GenerationArgs { sampling: SamplingUpdate { top_p: Some(x), ..state.sampling }, ..state }),
            None => Err("generation_kwargs['top_p'] must be a float"@),
        }
    } else {
        Err("unsupported generation_kwargs key "@ + debug_quoted(key)
            + "; expected one of: max_new_tokens, do_sample, temperature, top_k, top_p"@)
    }
}

/// Reads the generation keyword arguments in order: the settings after the
/// arguments read before the first error, and that error.
pub open spec fn read_generation_args<F>(kwargs: Seq<(String, ArgValue<F>)>, start: GenerationArgs<F>) -> (
    GenerationArgs<F>,
    Option<Seq<char>>,
)
    decreases kwargs.len(),
{
    if kwargs.len() == 0 {
        (start, None)
    } else {
        let (state, error) = read_generation_args(kwargs.drop_last(), start);
        if error is Some {
            (state, error)
        } else {
            match generation_arg_step(state, kwargs.last().0@, kwargs.last().1) {
                Ok(next) => (next, None),
                Err(message) => (state, Some(message)),
            }
        }
    }
}

proof fn lemma_generation_error_persists<F>(kwargs: Seq<(String, ArgValue<F>)>, start: GenerationArgs<F>, j: int)
    requires
        0 <= j <= kwargs.len(),
        read_generation_args(kwargs.take(j), start).1 is Some,
    ensures
        read_generation_args(kwargs, start) == read_generation_args(kwargs.take(j), start),
    decreases kwargs.len() - j,
{
    if j < kwargs.len() {
        let t = kwargs.take(j + 1);
        assert(t.drop_last() =~= kwargs.take(j));
        lemma_generation_error_persists(kwargs, start, j + 1);
    } else {
        assert(kwargs.take(j) =~= kwargs);
    }
}

/// Applies generation keyword arguments (`max_new_tokens`, `do_sample`,
/// `temperature`, `top_k`, `top_p`). The integer and boolean settings change
/// `config`; the floating-point ones are returned. `max_new_tokens_alias`
/// sets the limit when the arguments do not. After an invalid argument the
/// settings read before it stay applied.
pub fn apply_generation_kwargs<F: Copy>(
    config: &mut GenerationConfig,
    generation_kwargs: Option<&[(String, ArgValue<F>)]>,
    max_new_tokens_alias: Option<usize>,
) -> (r: Result<SamplingUpdate<F>, String>)
    ensures
        ({
            let start = GenerationArgs {
                config: *old(config),
                sampling: SamplingUpdate { temperature: None, top_p: None },
                applied_max_new_tokens: false,
            };
            let (state, error) = match generation_kwargs {
                Some(kwargs) => read_generation_args(kwargs@, start),
                None => (start, None),
            };
            match error {
                Some(message) => {
                    &&& *final(config) == state.config
                    &&& r matches Err(m) && m@ == message
                },
                None => {
                    &&& r == Ok::<SamplingUpdate<F>, String>(state.sampling)
                    &&& *final(config) == (match max_new_tokens_alias {
                        Some(n) => if state.applied_max_new_tokens {
                            state.config
                        } else {
                            GenerationConfig { max_new_tokens: n, ..state.config }
                        },
                        None => state.config,
                    })
                },
            }
        }),
{
    let ghost start = GenerationArgs {
        config: *config,
        sampling: SamplingUpdate { temperature: None, top_p: None },
        applied_max_new_tokens: false,
    };
    let mut sampling: SamplingUpdate<F> = SamplingUpdate { temperature: None, top_p: None };
    let mut applied_max_new_tokens = false;
    match generation_kwargs {
        None => {},
        Some(kwargs) => {
            let mut i: usize = 0;
            while i < kwargs.len()
                invariant
                    i <= kwargs@.len(),
                    generation_kwargs == Some(kwargs),
                    start.config == *old(config),
                    start.sampling == (SamplingUpdate::<F> { temperature: None, top_p: None }),
                    !start.applied_max_new_tokens,
                    read_generation_args(kwargs@.take(i as int), start) == (
                        GenerationArgs { config: *config, sampling, applied_max_new_tokens },
                        None::<Seq<char>>,
                    ),
                decreases kwargs@.len() - i,
            {
                proof {
                    let t = kwargs@.take(i + 1);
                    assert(t.drop_last() =~= kwargs@.take(i as int));
                    assert(t.last() == kwargs@[i as int]);
                }
                let (key, value) = (&kwargs[i].0, &kwargs[i].1);
                let k = key.as_str();
                let failure: Option<String> = if text_eq(k, "max_new_tokens") {
                    match value.count {
                        Some(n) => {
                            config.max_new_tokens = n;
                            applied_max_new_tokens = true;
                            None
                        },
                        None => Some("generation_kwargs['max_new_tokens'] must be a non-negative int".to_owned()),
                    }
                } else if text_eq(k, "do_sample") {
                    match value.flag {
                        Some(b) => {
                            config.do_sample = b;
                            None
                        },
                        None => Some("generation_kwargs['do_sample'] must be a bool".to_owned()),
                    }
                } else if text_eq(k, "temperature") {
                    match value.number {
                        Some(x) => {
                            sampling = SamplingUpdate { temperature: Some(x), ..sampling };
                            None
                        },
                        None => Some("generation_kwargs['temperature'] must be a float".to_owned()),
                    }
                } else if text_eq(k, "top_k") {
                    match value.small_count {
                        Some(n) => {
                            config.top_k = n;
                            None
                        },
                        None => Some("generation_kwargs['top_k'] must be a non-negative int".to_owned()),
                    }
                } else if text_eq(k, "top_p") {
                    match value.number {
                        Some(x) => {
                            sampling = SamplingUpdate { top_p: Some(x), ..sampling };
                            None
                        },
                        None => Some("generation_kwargs['top_p'] must be a float".to_owned()),
                    }
                } else {
                    let quoted = quote(k);
                    Some(with_text(
                        "unsupported generation_kwargs key ",
                        quoted.as_str(),
                        "; expected one of: max_new_tokens, do_sample, temperature, top_k, top_p",
                    ))
                };
                if let Some(message) = failure {
                    proof {
                        lemma_generation_error_persists(kwargs@, start, i + 1);
                    }
                    return Err(message);
                }
                i += 1;
            }
            proof {
                assert(kwargs@.take(kwargs@.len() as int) =~= kwargs@);
            }
        },
    }
    if !applied_max_new_tokens {
        if let Some(n) = max_new_tokens_alias {
            config.max_new_tokens = n;
        }
    }
    Ok(sampling)
}

} // verus!
