use pgauthz::guc::GucSettings;
use pgauthz::revision::{
    cache_metrics_counts, model_cache_key, model_cache_layer, quantize_revision,
    quantize_timestamp_ms, quantized_revision_key, result_cache_layer, tuple_cache_layer,
    CacheLayer,
};

#[test]
fn quantizes_a_ulid_to_the_window_start() {
    // 01ARZ3NDEK... carries the timestamp 1469922850259 ms.
    assert_eq!(
        quantize_revision("01ARZ3NDEKTSV4RRFFQ69G5FAV", 5),
        "q1469922850000"
    );
    assert_eq!(
        quantize_revision("01arz3ndektsv4rrffq69g5fav", 1),
        "q1469922850000"
    );
    assert_eq!(
        quantize_revision("01ARZ3NDEKTSV4RRFFQ69G5FAV", 60),
        "q1469922840000"
    );
}

#[test]
fn same_window_shares_a_key() {
    assert_eq!(
        quantize_revision("01ARZ3NDEKTSV4RRFFQ69G5FAV", 5),
        quantize_revision("01ARZ3NDEKZZZZZZZZZZZZZZZZ", 5)
    );
}

#[test]
fn unquantized_revisions_are_kept() {
    assert_eq!(quantize_revision("01ARZ3NDEKTSV4RRFFQ69G5FAV", 0), "01ARZ3NDEKTSV4RRFFQ69G5FAV");
    assert_eq!(quantize_revision("0", 5), "0");
    assert_eq!(quantize_revision("not-a-ulid", 5), "not-a-ulid");
    assert_eq!(quantize_revision("01ARZ3NDEKTSV4RRFFQ69G5FAU!", 5), "01ARZ3NDEKTSV4RRFFQ69G5FAU!");
}

#[test]
fn key_from_decoded_value() {
    let value: u128 = 1777027686520646174104517696511196507;
    assert_eq!(quantized_revision_key(value, 5), "q1469922850000");
    assert_eq!(quantized_revision_key(0, 5), "q0");
    assert_eq!(quantize_timestamp_ms(1469922850259, 5000), 1469922850000);
    assert_eq!(quantize_timestamp_ms(4999, 5000), 0);
    assert_eq!(quantize_timestamp_ms(5000, 5000), 5000);
}

#[test]
fn model_cache_key_follows_settings() {
    let mut s = GucSettings::new();
    assert_eq!(model_cache_key(&s, "01ARZ3NDEKTSV4RRFFQ69G5FAV", "P1"), None);
    s.model_cache_ttl_secs = 300;
    assert_eq!(
        model_cache_key(&s, "01ARZ3NDEKTSV4RRFFQ69G5FAV", "P1"),
        Some("q1469922850000:P1".to_string())
    );
    // a newly defined policy gets a key of its own at the same revision
    assert_ne!(
        model_cache_key(&s, "01ARZ3NDEKTSV4RRFFQ69G5FAV", "P1"),
        model_cache_key(&s, "01ARZ3NDEKTSV4RRFFQ69G5FAV", "P2")
    );
    s.revision_quantization_secs = 0;
    assert_eq!(
        model_cache_key(&s, "01ARZ3NDEKTSV4RRFFQ69G5FAV", "P1"),
        Some("01ARZ3NDEKTSV4RRFFQ69G5FAV:P1".to_string())
    );
    assert_eq!(model_cache_key(&s, "0", "P1"), Some("0:P1".to_string()));
}

#[test]
fn cache_layers_are_disabled_by_zero_ttl() {
    let mut s = GucSettings::new();
    assert_eq!(model_cache_layer(&s), CacheLayer::Disabled);
    assert_eq!(result_cache_layer(&s), CacheLayer::Disabled);
    assert_eq!(tuple_cache_layer(&s), CacheLayer::Disabled);
    s.result_cache_ttl_secs = 60;
    s.tuple_cache_ttl_secs = 30;
    s.model_cache_ttl_secs = -1;
    s.cache_max_capacity = 50000;
    assert_eq!(
        result_cache_layer(&s),
        CacheLayer::Enabled { max_capacity: 50000, ttl_secs: 60 }
    );
    assert_eq!(
        tuple_cache_layer(&s),
        CacheLayer::Enabled { max_capacity: 50000, ttl_secs: 30 }
    );
    assert_eq!(model_cache_layer(&s), CacheLayer::Disabled);
}

#[test]
fn cache_metrics_counts_saturate() {
    assert_eq!(cache_metrics_counts(10, 25), (10, 15));
    assert_eq!(cache_metrics_counts(10, 4), (10, 0));
}

#[test]
fn decoding_follows_the_crockford_alphabet() {
    // I, L, O and U are not part of the alphabet
    for bad in ["0000000000000000000000000I", "0000000000000000000000000L", "0000000000000000000000000O", "0000000000000000000000000u"] {
        assert_eq!(quantize_revision(bad, 5), bad);
    }
    // 26 digits carry 130 bits: the top two bits fall off the 128-bit value
    assert_eq!(quantize_revision("80000000000000000000000000", 5), "q0");
    assert_eq!(quantize_revision("00000004W80000000000000000", 5), "q5000");
    assert_eq!(quantize_revision("00000004W70000000000000000", 5), "q0");
}

#[test]
fn different_windows_get_different_keys_and_keys_are_stable() {
    // timestamps 5000 ms and 10000 ms lie in different 5 s windows
    let a = "00000004W80000000000000000";
    let b = "00000009RG0000000000000000";
    assert_ne!(quantize_revision(a, 5), quantize_revision(b, 5));
    assert_eq!(quantize_revision(b, 5), "q10000");
    for r in [a, b, "01ARZ3NDEKTSV4RRFFQ69G5FAV", "0", "not-a-ulid"] {
        let once = quantize_revision(r, 5);
        assert_eq!(quantize_revision(&once, 5), once);
    }
}
