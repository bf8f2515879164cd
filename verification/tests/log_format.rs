use pgauthz::log_format::{
    cache_hit_level, env_filter_directive, format_log_line, server_log_level, EventFields,
    EventLevel, ServerLogLevel,
};

#[test]
fn filter_directive_names_both_crates() {
    assert_eq!(env_filter_directive("debug"), "authz_core=debug,pgauthz=debug");
}

#[test]
fn fields_are_collected() {
    let mut f = EventFields::new();
    f.record("message", "cache_hit");
    f.record("cache_level", "\"L2\"");
    f.record("key", "\"doc1\"");
    f.record("depth", "3");
    assert_eq!(f.message, "cache_hit");
    assert_eq!(f.fields, "key=\"doc1\", depth=3");
    assert_eq!(cache_hit_level(&f), Some("\"L2\"".to_string()));

    let mut g = EventFields::new();
    g.record("message", "cache_miss");
    g.record("cache_level", "L1");
    assert_eq!(cache_hit_level(&g), None);
}

#[test]
fn log_lines() {
    assert_eq!(format_log_line("authz_core", "authz_core::resolver", "hit", "k=1"), "[authz_core] authz_core::resolver: hit k=1");
    assert_eq!(format_log_line("t", "m", "hit", ""), "[t] m: hit");
    assert_eq!(format_log_line("t", "m", "", "k=1"), "[t] m k=1");
    assert_eq!(format_log_line("t", "m", "", ""), "[t] m");
}

#[test]
fn levels() {
    assert_eq!(server_log_level(EventLevel::Error), ServerLogLevel::Error);
    assert_eq!(server_log_level(EventLevel::Warn), ServerLogLevel::Warning);
    assert_eq!(server_log_level(EventLevel::Info), ServerLogLevel::Info);
    assert_eq!(server_log_level(EventLevel::Debug), ServerLogLevel::Notice);
    assert_eq!(server_log_level(EventLevel::Trace), ServerLogLevel::Notice);
}
