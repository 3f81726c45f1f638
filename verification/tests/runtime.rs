use fast_lightonocr::util::onnxruntime::{parse_version, validate_execution_provider, validate_runtime, RuntimeDetails};
use fast_lightonocr::util::{ExecutionProvider, RuntimeOptions};
use fast_lightonocr::Error;

#[test]
fn rejects_unwired_cuda_execution_provider() {
    let options = RuntimeOptions::default().with_execution_provider(ExecutionProvider::Cuda { device_id: 0 });

    let error = validate_execution_provider(options.execution_provider)
        .expect_err("CUDA EP should be rejected until wired");

    match error {
        Error::OnnxRuntimeCompatibility { reason } => {
            assert!(reason.contains("CUDA"));
            assert!(reason.contains("not wired"));
        }
        other => panic!("unexpected error: {other:?}"),
    }
}

#[test]
fn resolves_default_thread_counts() {
    let options = RuntimeOptions::default();
    assert!(options.resolved_intra_threads(4) >= 1);
    assert_eq!(options.resolved_inter_threads(), 1);
    assert!(!options.parallel_execution);
}

#[test]
fn explicit_thread_counts_win() {
    let options = RuntimeOptions::default().with_intra_threads(3).with_inter_threads(2).with_parallel_execution(true);
    assert_eq!(options.resolved_intra_threads(16), 3);
    assert_eq!(options.resolved_inter_threads(), 2);
    assert!(options.parallel_execution);
    assert!(validate_execution_provider(ExecutionProvider::Cpu).is_ok());
}

#[test]
fn parses_runtime_versions() {
    assert_eq!(parse_version("1.28.0").unwrap(), (1, 28, 0));
    assert_eq!(parse_version("1.28").unwrap(), (1, 28, 0));
    assert_eq!(parse_version("1.29.1-rc2").unwrap(), (1, 29, 1));
    assert!(matches!(parse_version("one.28"), Err(Error::OnnxRuntimeCompatibility { .. })));
    assert!(matches!(parse_version("1"), Err(Error::OnnxRuntimeCompatibility { .. })));
}

fn details(version: &str, has_required_api: bool) -> RuntimeDetails {
    RuntimeDetails {
        version: version.to_owned(),
        required_api_level: 24,
        has_required_api,
        location: "libonnxruntime.so".to_owned(),
    }
}

#[test]
fn checks_runtime_compatibility() {
    assert!(validate_runtime(&details("1.28.1", true)).is_ok());
    assert!(validate_runtime(&details("1.22.0", true)).is_err());
    assert!(validate_runtime(&details("2.0.0", true)).is_err());
    assert!(validate_runtime(&details("1.28.1", false)).is_err());
}
