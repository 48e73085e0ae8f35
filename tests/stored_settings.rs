use fd_client::settings::Settings;
use fd_client::text::parse_unsigned;

#[test]
fn parsing_numbers_like_std() {
    for s in ["0", "42", "+7", "65535", "65536", "", "+", "-1", "1a", " 1", "007", "99999999999999999999999"] {
        assert_eq!(parse_unsigned(s, u16::MAX as u64), s.parse::<u16>().ok().map(|n| n as u64), "{}", s);
        assert_eq!(parse_unsigned(s, u64::MAX), s.parse::<u64>().ok(), "{}", s);
    }
}

#[test]
fn stored_values_are_read_back() {
    let mut s = Settings::default();
    s.apply_stored("mq_port", "5673".to_string());
    assert_eq!(s.mq_port, 5673);
    s.apply_stored("mq_port", "not a port".to_string());
    assert_eq!(s.mq_port, 5672);
    s.apply_stored("mq_batch_size", "12".to_string());
    assert_eq!(s.mq_batch_size, 12);
    s.apply_stored("mq_batch_size", "-3".to_string());
    assert_eq!(s.mq_batch_size, 5);
    s.apply_stored("mq_consumer_enabled", "true".to_string());
    assert!(s.mq_consumer_enabled);
    s.apply_stored("mq_consumer_enabled", "yes".to_string());
    assert!(!s.mq_consumer_enabled);
    s.apply_stored("mq_host", "broker".to_string());
    assert_eq!(s.mq_host, "broker");
    s.apply_stored("unknown_key", "x".to_string());
    assert_eq!(s.mq_host, "broker");
}

#[test]
fn saved_pairs_load_back_the_same_settings() {
    let mut s = Settings::default();
    s.api_key = "key".to_string();
    s.mq_port = 1234;
    s.mq_consumer_enabled = true;
    s.mq_batch_size = 8;
    let pairs = s.stored_pairs();
    assert_eq!(pairs.len(), 10);
    assert_eq!(pairs[4], ("mq_port".to_string(), "1234".to_string()));
    assert_eq!(pairs[7], ("mq_consumer_enabled".to_string(), "true".to_string()));
    let mut loaded = Settings::default();
    for (k, v) in pairs {
        loaded.apply_stored(&k, v);
    }
    assert_eq!(loaded.api_key, "key");
    assert_eq!(loaded.mq_port, 1234);
    assert!(loaded.mq_consumer_enabled);
    assert_eq!(loaded.mq_batch_size, 8);
    assert_eq!(loaded.translation_lang, "cn");
}
