//! ONNX Runtime session options and version compatibility.
//!
//! Querying the runtime library and building sessions happen outside the
//! library; this module holds the options, decides which execution providers
//! are usable and parses and checks the reported runtime version.

use vstd::prelude::*;

use crate::util::kwargs::{debug_quoted, quote};
use crate::util::text::{chars_of, decimal, with_number, with_text};
use crate::Error;

verus! {

/// Major version of ONNX Runtime this crate is built against.
pub const REQUIRED_ORT_MAJOR: u32 = 1;

/// Lowest supported minor version of ONNX Runtime.
pub const REQUIRED_ORT_MINOR: u32 = 28;

/// ONNX Runtime execution provider.
#[derive(Debug, Clone, Copy, PartialEq, Eq)]
pub enum ExecutionProvider {
    /// CPU execution provider.
    Cpu,
    /// CUDA execution provider; not wired yet, selecting it is rejected when a
    /// session is configured.
    Cuda {
        /// CUDA device index.
        device_id: usize,
    },
}

impl Default for ExecutionProvider {
    fn default() -> (p: Self)
        ensures
            p == ExecutionProvider::Cpu,
    {
        ExecutionProvider::Cpu
    }
}

/// Runtime configuration applied when creating ONNX Runtime sessions.
#[derive(Debug, Clone, Copy, PartialEq, Eq)]
pub struct RuntimeOptions {
    /// ONNX Runtime execution provider.
    pub execution_provider: ExecutionProvider,
    /// Intra-op thread count; `None` means the host's available parallelism.
    pub intra_threads: Option<usize>,
    /// Inter-op thread count; `None` means one thread.
    pub inter_threads: Option<usize>,
    /// Whether independent graph nodes run in parallel.
    pub parallel_execution: bool,
}

impl Default for RuntimeOptions {
    fn default() -> (o: Self)
        ensures
            o.execution_provider == ExecutionProvider::Cpu,
            o.intra_threads is None,
            o.inter_threads is None,
            !o.parallel_execution,
    {
        RuntimeOptions {
            execution_provider: ExecutionProvider::Cpu,
            intra_threads: None,
            inter_threads: None,
            parallel_execution: false,
        }
    }
}

impl RuntimeOptions {
    /// Returns a copy with the given execution provider.
    pub fn with_execution_provider(self, execution_provider: ExecutionProvider) -> (o: Self)
        ensures
            o == (RuntimeOptions { execution_provider, ..self }),
    {
        RuntimeOptions { execution_provider, ..self }
    }

    /// Returns a copy with an explicit intra-op thread count.
    pub fn with_intra_threads(self, intra_threads: usize) -> (o: Self)
        ensures
            o == (RuntimeOptions { intra_threads: Some(intra_threads), ..self }),
    {
        RuntimeOptions { intra_threads: Some(intra_threads), ..self }
    }

    /// Returns a copy with an explicit inter-op thread count.
    pub fn with_inter_threads(self, inter_threads: usize) -> (o: Self)
        ensures
            o == (RuntimeOptions { inter_threads: Some(inter_threads), ..self }),
    {
        RuntimeOptions { inter_threads: Some(inter_threads), ..self }
    }

    /// Returns a copy with parallel execution mode enabled or disabled.
    pub fn with_parallel_execution(self, parallel_execution: bool) -> (o: Self)
        ensures
            o == (RuntimeOptions { parallel_execution, ..self }),
    {
        RuntimeOptions { parallel_execution, ..self }
    }

    /// The intra-op thread count a session uses, given the host's available
    /// parallelism.
    pub fn resolved_intra_threads(self, available_parallelism: usize) -> (n: usize)
        ensures
            n == match self.intra_threads {
                Some(t) => t,
                None => available_parallelism,
            },
    {
        match self.intra_threads {
            Some(t) => t,
            None => available_parallelism,
        }
    }

    /// The inter-op thread count a session uses.
    pub fn resolved_inter_threads(self) -> (n: usize)
        ensures
            n == match self.inter_threads {
                Some(t) => t,
                None => 1,
            },
    {
        match self.inter_threads {
            Some(t) => t,
            None => 1,
        }
    }
}

/// Accepts the CPU provider and rejects the CUDA provider, which is not wired.
pub fn validate_execution_provider(execution_provider: ExecutionProvider) -> (r: Result<(), Error>)
    ensures
        r is Ok <==> execution_provider is Cpu,
        r matches Err(e) ==> e matches Error::OnnxRuntimeCompatibility { reason } && reason@ == (
        "CUDA execution provider (device_id="@ + decimal(execution_provider->device_id as nat)
            + ") is not wired yet; use ExecutionProvider::Cpu"@),
{
    match execution_provider {
        ExecutionProvider::Cpu => Ok(()),
        ExecutionProvider::Cuda { device_id } => Err(Error::OnnxRuntimeCompatibility {
            reason: with_number(
                "CUDA execution provider (device_id=",
                device_id as u64,
                ") is not wired yet; use ExecutionProvider::Cpu",
            ),
        }),
    }
}

// ---------------------------------------------------------------------------
// Version strings
// ---------------------------------------------------------------------------

/// Whether `c` is an ASCII decimal digit.
pub open spec fn is_digit(c: char) -> bool {
    '0' <= c && c <= '9'
}

/// Whether every character of `s` is an ASCII decimal digit.
pub open spec fn all_digits(s: Seq<char>) -> bool {
    forall|i: int| 0 <= i < s.len() ==> is_digit(#[trigger] s[i])
}

/// The value of a string of decimal digits.
pub open spec fn digits_value(s: Seq<char>) -> nat
    decreases s.len(),
{
    if s.len() == 0 {
        0
    } else {
        digits_value(s.drop_last()) * 10 + ((s.last() as int - 48) as nat)
    }
}

/// What `str::parse::<u32>` gives for `s`: an optional `+` followed by one or
/// more digits whose value fits in `u32`.
pub open spec fn parse_u32(s: Seq<char>) -> Option<u32> {
    let digits = if s.len() > 0 && s[0] == '+' {
        s.drop_first()
    } else {
        s
    };
    parse_unsigned_digits(digits)
}

/// The value of one or more digits, when it fits in `u32`.
pub open spec fn parse_unsigned_digits(digits: Seq<char>) -> Option<u32> {
    if digits.len() > 0 && all_digits(digits) && digits_value(digits) <= u32::MAX {
        Some(digits_value(digits) as u32)
    } else {
        None
    }
}

/// Length of the piece of `s` before its first `.` (all of `s` when there is none).
pub open spec fn piece_end(s: Seq<char>) -> nat
    decreases s.len(),
{
    if s.len() == 0 {
        0
    } else if s[0] == '.' {
        0
    } else {
        1 + piece_end(s.drop_first())
    }
}

/// Length of the run of digits at the start of `s`.
pub open spec fn digit_run(s: Seq<char>) -> nat
    decreases s.len(),
{
    if s.len() == 0 {
        0
    } else if !is_digit(s[0]) {
        0
    } else {
        1 + digit_run(s.drop_first())
    }
}

/// The `(major, minor, patch)` triple of a version string: the dot-separated
/// major and minor pieces parse as `u32`; the patch is `0` when there is no third
/// piece and otherwise the value of the digits it starts with, which must exist.
pub open spec fn version_triple(v: Seq<char>) -> Option<(u32, u32, u32)> {
    let e0 = piece_end(v) as int;
    if e0 == v.len() {
        None
    } else {
        let r1 = v.skip(e0 + 1);
        let e1 = piece_end(r1) as int;
        let major = parse_u32(v.take(e0));
        let minor = parse_u32(r1.take(e1));
        let patch = if e1 == r1.len() {
            Some(0u32)
        } else {
            let r2 = r1.skip(e1 + 1);
            let p = r2.take(piece_end(r2) as int);
            parse_u32(p.take(digit_run(p) as int))
        };
        match (major, minor, patch) {
            (Some(a), Some(b), Some(c)) => Some((a, b, c)),
            _ => None,
        }
    }
}

proof fn lemma_piece_end_unique(s: Seq<char>, k: int)
    requires
        0 <= k <= s.len(),
        forall|i: int| 0 <= i < k ==> s[i] != '.',
        k < s.len() ==> s[k] == '.',
    ensures
        piece_end(s) == k,
    decreases s.len(),
{
    if s.len() > 0 && s[0] != '.' {
        let t = s.drop_first();
        assert forall|i: int| 0 <= i < k - 1 implies t[i] != '.' by {
            assert(s[i + 1] != '.');
        }
        lemma_piece_end_unique(t, k - 1);
    }
}

proof fn lemma_digit_run_unique(s: Seq<char>, k: int)
    requires
        0 <= k <= s.len(),
        forall|i: int| 0 <= i < k ==> is_digit(s[i]),
        k < s.len() ==> !is_digit(s[k]),
    ensures
        digit_run(s) == k,
    decreases s.len(),
{
    if s.len() > 0 && is_digit(s[0]) {
        let t = s.drop_first();
        assert forall|i: int| 0 <= i < k - 1 implies is_digit(t[i]) by {
            assert(is_digit(s[i + 1]));
        }
        lemma_digit_run_unique(t, k - 1);
    }
}

proof fn lemma_digits_value_monotone(s: Seq<char>, k: int)
    requires
        0 <= k <= s.len(),
    ensures
        digits_value(s.take(k)) <= digits_value(s),
    decreases s.len(),
{
    if k < s.len() {
        assert(s.drop_last().take(k) =~= s.take(k));
        lemma_digits_value_monotone(s.drop_last(), k);
    } else {
        assert(s.take(k) =~= s);
    }
}

/// Index of the first `.` in `v[start..]`, or `v.len()` when there is none.
fn find_dot(v: &Vec<char>, start: usize) -> (k: usize)
    requires
        start <= v@.len(),
    ensures
        start <= k <= v@.len(),
        k - start == piece_end(v@.skip(start as int)),
{
    let mut k = start;
    while k < v.len() && v[k] != '.'
        invariant
            start <= k <= v@.len(),
            forall|i: int| start <= i < k ==> v@[i] != '.',
        decreases v@.len() - k,
    {
        k += 1;
    }
    proof {
        let s = v@.skip(start as int);
        assert forall|i: int| 0 <= i < k - start implies s[i] != '.' by {
            assert(s[i] == v@[start + i]);
        }
        lemma_piece_end_unique(s, k - start);
    }
    k
}

/// Index just past the run of digits starting at `start`, staying below `end`.
fn find_digit_run(v: &Vec<char>, start: usize, end: usize) -> (k: usize)
    requires
        start <= end <= v@.len(),
    ensures
        start <= k <= end,
        k - start == digit_run(v@.subrange(start as int, end as int)),
{
    let mut k = start;
    while k < end && '0' <= v[k] && v[k] <= '9'
        invariant
            start <= k <= end,
            end <= v@.len(),
            forall|i: int| start <= i < k ==> is_digit(v@[i]),
        decreases end - k,
    {
        k += 1;
    }
    proof {
        let s = v@.subrange(start as int, end as int);
        assert forall|i: int| 0 <= i < k - start implies is_digit(s[i]) by {
            assert(s[i] == v@[start + i]);
        }
        lemma_digit_run_unique(s, k - start);
    }
    k
}

/// Parses `v[start..end]` as `str::parse::<u32>` would.
fn parse_u32_range(v: &Vec<char>, start: usize, end: usize) -> (r: Option<u32>)
    requires
        start <= end <= v@.len(),
    ensures
        r == parse_u32(v@.subrange(start as int, end as int)),
{
    let ghost s = v@.subrange(start as int, end as int);
    let mut i = start;
    if i < end && v[i] == '+' {
        i += 1;
    }
    let ghost digits = v@.subrange(i as int, end as int);
    assert(digits =~= (if s.len() > 0 && s[0] == '+' { s.drop_first() } else { s }));
    if i == end {
        return None;
    }
    let first = i;
    let mut acc: u64 = 0;
    while i < end
        invariant
            first <= i <= end,
            end <= v@.len(),
            digits == v@.subrange(first as int, end as int),
            digits.len() > 0,
            s == v@.subrange(start as int, end as int),
            parse_u32(s) == parse_unsigned_digits(digits),
            acc <= u32::MAX,
            all_digits(v@.subrange(first as int, i as int)),
            acc == digits_value(v@.subrange(first as int, i as int)),
        decreases end - i,
    {
        let c = v[i];
        if !('0' <= c && c <= '9') {
            assert(!all_digits(digits)) by {
                assert(digits[i - first] == c);
            }
            return None;
        }
        let d = (c as u32 - '0' as u32) as u64;
        let next = acc * 10 + d;
        proof {
            let p = v@.subrange(first as int, i + 1);
            assert(p.drop_last() =~= v@.subrange(first as int, i as int));
            assert(p.last() == c);
            assert(all_digits(p)) by {
                assert forall|j: int| 0 <= j < p.len() implies is_digit(#[trigger] p[j]) by {
                    if j < p.len() - 1 {
                        assert(p[j] == v@.subrange(first as int, i as int)[j]);
                    }
                }
            }
        }
        if next > u32::MAX as u64 {
            proof {
                let k = (i + 1 - first) as int;
                assert(digits.take(k) =~= v@.subrange(first as int, i + 1));
                lemma_digits_value_monotone(digits, k);
            }
            return None;
        }
        acc = next;
        i += 1;
    }
    Some(acc as u32)
}

/// The message given for a version string without a valid triple: it names
/// the first piece that does not parse.
pub open spec fn version_failure(v: Seq<char>) -> Seq<char> {
    let e0 = piece_end(v) as int;
    if parse_u32(v.take(e0)) is None {
        "could not parse ONNX Runtime major version from "@ + debug_quoted(v)
    } else if e0 == v.len() || parse_u32(v.skip(e0 + 1).take(piece_end(v.skip(e0 + 1)) as int)) is None {
        "could not parse ONNX Runtime minor version from "@ + debug_quoted(v)
    } else {
        "could not parse ONNX Runtime version "@ + debug_quoted(v)
    }
}

/// `prefix`, then `text` formatted with `{:?}`.
fn with_quoted(prefix: &str, text: &str) -> (s: String)
    ensures
        s@ == prefix@ + debug_quoted(text@),
{
    let mut s = prefix.to_owned();
    s.append(quote(text).as_str());
    s
}

/// Splits an ONNX Runtime version string into `(major, minor, patch)`.
pub fn parse_version(version: &str) -> (r: Result<(u32, u32, u32), Error>)
    ensures
        r is Ok <==> version_triple(version@) is Some,
        r matches Ok(t) ==> version_triple(version@) == Some(t),
        r matches Err(e) ==> e matches Error::OnnxRuntimeCompatibility { reason }
            && reason@ == version_failure(version@),
{
    let v = chars_of(version);
    let ghost s = v@;
    let e0 = find_dot(&v, 0);
    assert(s.skip(0) =~= s);
    assert(s.subrange(0, e0 as int) =~= s.take(e0 as int));
    let major = parse_u32_range(&v, 0, e0);
    let major = match major {
        Some(m) => m,
        None => {
            return Err(Error::OnnxRuntimeCompatibility {
                reason: with_quoted("could not parse ONNX Runtime major version from ", version),
            });
        },
    };
    if e0 == v.len() {
        return Err(Error::OnnxRuntimeCompatibility {
            reason: with_quoted("could not parse ONNX Runtime minor version from ", version),
        });
    }
    let s1 = e0 + 1;
    let ghost r1 = s.skip(s1 as int);
    let e1 = find_dot(&v, s1);
    assert(s.subrange(s1 as int, e1 as int) =~= r1.take(e1 - s1));
    let minor = match parse_u32_range(&v, s1, e1) {
        Some(m) => m,
        None => {
            return Err(Error::OnnxRuntimeCompatibility {
                reason: with_quoted("could not parse ONNX Runtime minor version from ", version),
            });
        },
    };
    if e1 == v.len() {
        return Ok((major, minor, 0));
    }
    let s2 = e1 + 1;
    let ghost r2 = r1.skip(e1 - s1 + 1);
    assert(r2 =~= s.skip(s2 as int));
    let e2 = find_dot(&v, s2);
    let ghost p = r2.take(e2 - s2);
    assert(p =~= s.subrange(s2 as int, e2 as int));
    let d = find_digit_run(&v, s2, e2);
    assert(p.take(d - s2) =~= s.subrange(s2 as int, d as int));
    match parse_u32_range(&v, s2, d) {
        Some(patch) => Ok((major, minor, patch)),
        None => Err(Error::OnnxRuntimeCompatibility {
            reason: with_quoted("could not parse ONNX Runtime version ", version),
        }),
    }
}

/// What the loaded ONNX Runtime library reports about itself.
#[derive(Debug, Clone, PartialEq, Eq)]
pub struct RuntimeDetails {
    /// Version string reported by the runtime.
    pub version: String,
    /// The C API level requested from the runtime.
    pub required_api_level: u32,
    /// Whether the runtime exposes the C API level this crate needs.
    pub has_required_api: bool,
    /// Where the runtime was found, for diagnostics.
    pub location: String,
}

/// Whether a runtime of this version and API support is usable.
pub open spec fn runtime_supported(details: RuntimeDetails) -> bool {
    match version_triple(details.version@) {
        Some((major, minor, _)) => major == REQUIRED_ORT_MAJOR && minor >= REQUIRED_ORT_MINOR
            && details.has_required_api,
        None => false,
    }
}

/// Which runtimes are usable: a version that parses into a triple is accepted
/// exactly when its major version is 1, its minor version is at least 28 and
/// the runtime exposes the required C API level, so every later 1.x release is
/// accepted as well as 1.28; a version that does not parse is rejected.
pub proof fn lemma_supported_runtimes(details: RuntimeDetails)
    ensures
        version_triple(details.version@) matches Some((major, minor, _)) ==> (runtime_supported(details) <==> (
        major == 1 && minor >= 28 && details.has_required_api)),
        version_triple(details.version@) is None ==> !runtime_supported(details),
{
}

/// A runtime that is usable stays usable under a later minor version of the
/// same major version with the same API support.
pub proof fn lemma_later_minor_stays_supported(older: RuntimeDetails, newer: RuntimeDetails)
    requires
        runtime_supported(older),
        version_triple(older.version@) matches Some((major, minor, _)) && version_triple(newer.version@) matches Some(
            (newer_major, newer_minor, _),
        ) && newer_major == major && newer_minor >= minor,
        newer.has_required_api,
    ensures
        runtime_supported(newer),
{
}

/// The message given for a runtime that is not usable.
pub open spec fn runtime_failure(details: RuntimeDetails) -> Seq<char> {
    match version_triple(details.version@) {
        None => version_failure(details.version@),
        Some((major, minor, _)) => if major != REQUIRED_ORT_MAJOR || minor < REQUIRED_ORT_MINOR {
            ""@ + details.location@ + " reports ONNX Runtime "@ + details.version@
                + ", but fast-lightonocr expects ONNX Runtime 1.28.x or a later 1.x release exposing C API level "@
                + decimal(details.required_api_level as nat) + ""@
        } else {
            ""@ + details.location@ + " reports ONNX Runtime "@ + details.version@
                + ", but does not expose required C API level "@
                + decimal(details.required_api_level as nat) + ""@
        },
    }
}

/// Accepts ONNX Runtime 1.x with x at least the required minor version that
/// exposes the required C API level.
pub fn validate_runtime(details: &RuntimeDetails) -> (r: Result<(), Error>)
    ensures
        r is Ok <==> runtime_supported(*details),
        r matches Err(e) ==> e matches Error::OnnxRuntimeCompatibility { reason }
            && reason@ == runtime_failure(*details),
{
    let (major, minor, _patch) = match parse_version(details.version.as_str()) {
        Ok(t) => t,
        Err(e) => {
            return Err(e);
        },
    };
    if major != REQUIRED_ORT_MAJOR || minor < REQUIRED_ORT_MINOR {
        let mut reason = with_text("", details.location.as_str(), " reports ONNX Runtime ");
        reason.append(details.version.as_str());
        reason.append(with_number(
            ", but fast-lightonocr expects ONNX Runtime 1.28.x or a later 1.x release exposing C API level ",
            details.required_api_level as u64,
            "",
        ).as_str());
        return Err(Error::OnnxRuntimeCompatibility { reason });
    }
    if !details.has_required_api {
        let mut reason = with_text("", details.location.as_str(), " reports ONNX Runtime ");
        reason.append(details.version.as_str());
        reason.append(with_number(", but does not expose required C API level ", details.required_api_level as u64, "").as_str());
        return Err(Error::OnnxRuntimeCompatibility { reason });
    }
    Ok(())
}

} // verus!
