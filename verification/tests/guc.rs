use pgauthz::guc::{
    get_cache_max_capacity, get_check_strategy, get_model_cache_ttl, get_otel_enabled,
    get_otel_endpoint, get_otel_service_name, get_otel_trace_sampling_percent,
    get_result_cache_ttl, get_revision_quantization_secs, get_tracing_level,
    get_tuple_cache_ttl, CheckStrategy, GucSettings,
};

#[test]
fn defaults_match_the_documented_configuration() {
    let s = GucSettings::new();
    assert_eq!(get_check_strategy(&s), CheckStrategy::Batch);
    assert_eq!(get_tracing_level(&s), "info");
    assert_eq!(get_model_cache_ttl(&s), 0);
    assert_eq!(get_result_cache_ttl(&s), 0);
    assert_eq!(get_tuple_cache_ttl(&s), 0);
    assert_eq!(get_cache_max_capacity(&s), 10000);
    assert_eq!(get_revision_quantization_secs(&s), 5);
    assert!(!get_otel_enabled(&s));
    assert_eq!(get_otel_endpoint(&s), "http://localhost:4317");
    assert_eq!(get_otel_service_name(&s), "pgauthz");
    assert_eq!(get_otel_trace_sampling_percent(&s), 100);
}

#[test]
fn check_strategy_is_case_insensitive_and_falls_back_to_batch() {
    let mut s = GucSettings::new();
    s.check_strategy = Some("PaRaLLeL".to_string());
    assert_eq!(get_check_strategy(&s), CheckStrategy::Parallel);
    s.check_strategy = Some("batch".to_string());
    assert_eq!(get_check_strategy(&s), CheckStrategy::Batch);
    s.check_strategy = Some("fastest".to_string());
    assert_eq!(get_check_strategy(&s), CheckStrategy::Batch);
    assert_eq!(CheckStrategy::default(), CheckStrategy::Batch);
}

#[test]
fn tracing_level_is_lowercased_and_filtered() {
    let mut s = GucSettings::new();
    s.tracing_level = Some("DEBUG".to_string());
    assert_eq!(get_tracing_level(&s), "debug");
    s.tracing_level = Some("verbose".to_string());
    assert_eq!(get_tracing_level(&s), "info");
    s.tracing_level = Some("Trace".to_string());
    assert_eq!(get_tracing_level(&s), "trace");
}

#[test]
fn integer_settings_are_clamped() {
    let mut s = GucSettings::new();
    s.model_cache_ttl_secs = -5;
    s.result_cache_ttl_secs = 60;
    s.tuple_cache_ttl_secs = i32::MAX;
    s.cache_max_capacity = 0;
    s.revision_quantization_secs = -1;
    s.otel_trace_sampling_ratio = 250;
    assert_eq!(get_model_cache_ttl(&s), 0);
    assert_eq!(get_result_cache_ttl(&s), 60);
    assert_eq!(get_tuple_cache_ttl(&s), 2147483647);
    assert_eq!(get_cache_max_capacity(&s), 1);
    assert_eq!(get_revision_quantization_secs(&s), 0);
    assert_eq!(get_otel_trace_sampling_percent(&s), 100);
    s.otel_trace_sampling_ratio = -3;
    assert_eq!(get_otel_trace_sampling_percent(&s), 0);
    s.otel_trace_sampling_ratio = 10;
    assert_eq!(get_otel_trace_sampling_percent(&s), 10);
}

#[test]
fn string_settings_override_defaults() {
    let mut s = GucSettings::new();
    s.otel_enabled = true;
    s.otel_endpoint = Some("http://otel-collector:4317".to_string());
    s.otel_service_name = Some("my-app-authz".to_string());
    assert!(get_otel_enabled(&s));
    assert_eq!(get_otel_endpoint(&s), "http://otel-collector:4317");
    assert_eq!(get_otel_service_name(&s), "my-app-authz");
}
