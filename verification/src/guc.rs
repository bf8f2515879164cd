//! Extension configuration: the raw values of the `authz.*` settings and the
//! getters that turn them into the values the rest of the extension uses.

use vstd::prelude::*;
use vstd::string::StringExecFns;

verus! {

/// Default of `authz.model_cache_ttl_secs` (0 = cache disabled).
pub const DEFAULT_MODEL_CACHE_TTL_SECS: i32 = 0;

/// Default of `authz.result_cache_ttl_secs` (0 = cache disabled).
pub const DEFAULT_RESULT_CACHE_TTL_SECS: i32 = 0;

/// Default of `authz.tuple_cache_ttl_secs` (0 = cache disabled).
pub const DEFAULT_TUPLE_CACHE_TTL_SECS: i32 = 0;

/// Default of `authz.cache_max_capacity`.
pub const DEFAULT_CACHE_MAX_CAPACITY: i32 = 10000;

/// Default of `authz.revision_quantization_secs`.
pub const DEFAULT_REVISION_QUANTIZATION_SECS: i32 = 5;

/// Default of `authz.otel_trace_sampling_ratio` (a percentage).
pub const DEFAULT_OTEL_TRACE_SAMPLING_RATIO: i32 = 100;

/// Smallest accepted value of `authz.cache_max_capacity`.
pub const MIN_CACHE_MAX_CAPACITY: i32 = 1;

/// Largest accepted value of `authz.revision_quantization_secs`.
pub const MAX_REVISION_QUANTIZATION_SECS: i32 = 3600;

/// Largest accepted value of `authz.otel_trace_sampling_ratio`.
pub const MAX_OTEL_TRACE_SAMPLING_RATIO: i32 = 100;

/// Check optimization strategy.
#[derive(Debug, Clone, Copy, PartialEq, Eq, Structural)]
pub enum CheckStrategy {
    /// Batch queries together (default, best for most cases)
    Batch,
    /// Parallel evaluation (useful for high-latency datastores)
    Parallel,
}

impl Default for CheckStrategy {
    fn default() -> (r: Self)
        ensures
            r == CheckStrategy::Batch,
    {
        CheckStrategy::Batch
    }
}

/// The raw values of all `authz.*` settings, as the server holds them.
pub struct GucSettings {
    /// `authz.check_strategy` (unset = `None`).
    pub check_strategy: Option<String>,
    /// `authz.tracing_level` (unset = `None`).
    pub tracing_level: Option<String>,
    /// `authz.model_cache_ttl_secs`.
    pub model_cache_ttl_secs: i32,
    /// `authz.result_cache_ttl_secs`.
    pub result_cache_ttl_secs: i32,
    /// `authz.tuple_cache_ttl_secs`.
    pub tuple_cache_ttl_secs: i32,
    /// `authz.cache_max_capacity`.
    pub cache_max_capacity: i32,
    /// `authz.revision_quantization_secs`.
    pub revision_quantization_secs: i32,
    /// `authz.otel_enabled`.
    pub otel_enabled: bool,
    /// `authz.otel_endpoint` (unset = `None`).
    pub otel_endpoint: Option<String>,
    /// `authz.otel_service_name` (unset = `None`).
    pub otel_service_name: Option<String>,
    /// `authz.otel_trace_sampling_ratio` (a percentage).
    pub otel_trace_sampling_ratio: i32,
}

impl GucSettings {
    /// The ranges the server enforces when a setting is assigned.
    pub open spec fn within_registered_ranges(&self) -> bool {
        &&& 0 <= self.model_cache_ttl_secs
        &&& 0 <= self.result_cache_ttl_secs
        &&& 0 <= self.tuple_cache_ttl_secs
        &&& MIN_CACHE_MAX_CAPACITY <= self.cache_max_capacity
        &&& 0 <= self.revision_quantization_secs <= MAX_REVISION_QUANTIZATION_SECS
        &&& 0 <= self.otel_trace_sampling_ratio <= MAX_OTEL_TRACE_SAMPLING_RATIO
    }

    /// The settings as they stand before anything is assigned.
    pub fn new() -> (s: Self)
        ensures
            s.check_strategy is None,
            s.tracing_level is None,
            s.model_cache_ttl_secs == DEFAULT_MODEL_CACHE_TTL_SECS,
            s.result_cache_ttl_secs == DEFAULT_RESULT_CACHE_TTL_SECS,
            s.tuple_cache_ttl_secs == DEFAULT_TUPLE_CACHE_TTL_SECS,
            s.cache_max_capacity == DEFAULT_CACHE_MAX_CAPACITY,
            s.revision_quantization_secs == DEFAULT_REVISION_QUANTIZATION_SECS,
            !s.otel_enabled,
            s.otel_endpoint is None,
            s.otel_service_name is None,
            s.otel_trace_sampling_ratio == DEFAULT_OTEL_TRACE_SAMPLING_RATIO,
            s.within_registered_ranges(),
    {
        GucSettings {
            check_strategy: None,
            tracing_level: None,
            model_cache_ttl_secs: DEFAULT_MODEL_CACHE_TTL_SECS,
            result_cache_ttl_secs: DEFAULT_RESULT_CACHE_TTL_SECS,
            tuple_cache_ttl_secs: DEFAULT_TUPLE_CACHE_TTL_SECS,
            cache_max_capacity: DEFAULT_CACHE_MAX_CAPACITY,
            revision_quantization_secs: DEFAULT_REVISION_QUANTIZATION_SECS,
            otel_enabled: false,
            otel_endpoint: None,
            otel_service_name: None,
            otel_trace_sampling_ratio: DEFAULT_OTEL_TRACE_SAMPLING_RATIO,
        }
    }
}

/// `max(v, lo)` as an unsigned value, for `lo >= 0`.
pub open spec fn clamp_below(v: i32, lo: int) -> int {
    if v < lo {
        lo
    } else {
        v as int
    }
}

/// The Unicode lowercase mapping of a string, as `str::to_lowercase` computes it.
pub uninterp spec fn lowercase(s: Seq<char>) -> Seq<char>;

/// Calls `str::to_lowercase`; the result is the string's Unicode lowercase
/// mapping, a function of the string alone.
#[verifier::external_body]
fn to_lowercase(s: &str) -> (r: String)
    ensures
        r@ == lowercase(s@),
{
    s.to_lowercase()
}

/// The strategy a raw `authz.check_strategy` value selects.
pub open spec fn strategy_of(raw: Option<Seq<char>>) -> CheckStrategy {
    match raw {
        Some(s) => if lowercase(s) == "parallel"@ {
            CheckStrategy::Parallel
        } else {
            CheckStrategy::Batch
        },
        None => CheckStrategy::Batch,
    }
}

/// The view of an optional string.
pub open spec fn opt_view(o: Option<String>) -> Option<Seq<char>> {
    match o {
        Some(s) => Some(s@),
        None => None,
    }
}

/// Get authz.otel_enabled.
pub fn get_otel_enabled(settings: &GucSettings) -> (r: bool)
    ensures
        r == settings.otel_enabled,
{
    settings.otel_enabled
}

/// Get authz.otel_endpoint, defaulting to "http://localhost:4317".
pub fn get_otel_endpoint(settings: &GucSettings) -> (r: String)
    ensures
        r@ == (match settings.otel_endpoint {
            Some(s) => s@,
            None => "http://localhost:4317"@,
        }),
{
    match &settings.otel_endpoint {
        Some(s) => s.clone(),
        None => String::from_str("http://localhost:4317"),
    }
}

/// Get authz.otel_service_name, defaulting to "pgauthz".
pub fn get_otel_service_name(settings: &GucSettings) -> (r: String)
    ensures
        r@ == (match settings.otel_service_name {
            Some(s) => s@,
            None => "pgauthz"@,
        }),
{
    match &settings.otel_service_name {
        Some(s) => s.clone(),
        None => String::from_str("pgauthz"),
    }
}

/// Get authz.otel_trace_sampling_ratio as a percentage clamped to `0..=100`
/// (the sampler divides it by 100).
pub fn get_otel_trace_sampling_percent(settings: &GucSettings) -> (r: u32)
    ensures
        r == (if settings.otel_trace_sampling_ratio < 0 {
            0
        } else if settings.otel_trace_sampling_ratio > 100 {
            100
        } else {
            settings.otel_trace_sampling_ratio as int
        }),
        r <= 100,
{
    let p = settings.otel_trace_sampling_ratio;
    if p < 0 {
        0
    } else if p > 100 {
        100
    } else {
        p as u32
    }
}

/// Get authz.check_strategy: `Parallel` when the value lowercases to
/// "parallel", `Batch` otherwise (including when it is unset).
pub fn get_check_strategy(settings: &GucSettings) -> (r: CheckStrategy)
    ensures
        r == strategy_of(opt_view(settings.check_strategy)),
{
    match &settings.check_strategy {
        Some(s) => {
            let lowered = to_lowercase(s.as_str());
            if lowered == String::from_str("parallel") {
                CheckStrategy::Parallel
            } else if lowered == String::from_str("batch") {
                CheckStrategy::Batch
            } else {
                CheckStrategy::default()
            }
        },
        None => CheckStrategy::default(),
    }
}

/// Get authz.model_cache_ttl_secs (0 = disabled).
pub fn get_model_cache_ttl(settings: &GucSettings) -> (r: u64)
    ensures
        r == clamp_below(settings.model_cache_ttl_secs, 0),
{
    let v = settings.model_cache_ttl_secs;
    if v < 0 {
        0
    } else {
        v as u64
    }
}

/// Get authz.result_cache_ttl_secs (0 = disabled).
pub fn get_result_cache_ttl(settings: &GucSettings) -> (r: u64)
    ensures
        r == clamp_below(settings.result_cache_ttl_secs, 0),
{
    let v = settings.result_cache_ttl_secs;
    if v < 0 {
        0
    } else {
        v as u64
    }
}

/// Get authz.tuple_cache_ttl_secs (0 = disabled).
pub fn get_tuple_cache_ttl(settings: &GucSettings) -> (r: u64)
    ensures
        r == clamp_below(settings.tuple_cache_ttl_secs, 0),
{
    let v = settings.tuple_cache_ttl_secs;
    if v < 0 {
        0
    } else {
        v as u64
    }
}

/// Get authz.cache_max_capacity (at least 1).
pub fn get_cache_max_capacity(settings: &GucSettings) -> (r: u64)
    ensures
        r == clamp_below(settings.cache_max_capacity, 1),
        r >= 1,
{
    let v = settings.cache_max_capacity;
    if v < 1 {
        1
    } else {
        v as u64
    }
}

/// Get authz.revision_quantization_secs (0 = disabled).
pub fn get_revision_quantization_secs(settings: &GucSettings) -> (r: u64)
    ensures
        r == clamp_below(settings.revision_quantization_secs, 0),
{
    let v = settings.revision_quantization_secs;
    if v < 0 {
        0
    } else {
        v as u64
    }
}

/// The levels `authz.tracing_level` accepts.
pub open spec fn is_tracing_level(s: Seq<char>) -> bool {
    s == "error"@ || s == "warn"@ || s == "info"@ || s == "debug"@ || s == "trace"@
}

/// The tracing level a raw `authz.tracing_level` value selects.
pub open spec fn tracing_level_of(raw: Option<Seq<char>>) -> Seq<char> {
    match raw {
        Some(s) => if is_tracing_level(lowercase(s)) {
            lowercase(s)
        } else {
            "info"@
        },
        None => "info"@,
    }
}

/// Get authz.tracing_level lowercased; "info" when unset or not one of
/// error, warn, info, debug, trace.
pub fn get_tracing_level(settings: &GucSettings) -> (r: String)
    ensures
        r@ == tracing_level_of(opt_view(settings.tracing_level)),
{
    match &settings.tracing_level {
        Some(s) => {
            let lowered = to_lowercase(s.as_str());
            if lowered == String::from_str("error") || lowered == String::from_str("warn")
                || lowered == String::from_str("info") || lowered == String::from_str("debug")
                || lowered == String::from_str("trace") {
                lowered
            } else {
                String::from_str("info")
            }
        },
        None => String::from_str("info"),
    }
}

} // verus!
