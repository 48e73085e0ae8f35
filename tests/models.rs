use fd_client::models::TicketStatus;
use fd_client::settings::Settings;

#[test]
fn status_texts() {
    assert_eq!(TicketStatus::PendingTrans.as_text(), "PENDING_TRANS");
    assert_eq!(TicketStatus::PendingReply.as_text(), "PENDING_REPLY");
    assert_eq!(TicketStatus::PendingAudit.as_text(), "PENDING_AUDIT");
    assert_eq!(TicketStatus::Completed.as_text(), "COMPLETED");
    assert_eq!(TicketStatus::Unknown("\"X\"".to_string()).as_text(), "\"X\"");
    assert!(matches!(TicketStatus::default(), TicketStatus::PendingTrans));
    assert_eq!(TicketStatus::Unknown("3".to_string()).code(), 3);
    assert_eq!(TicketStatus::Unknown("7".to_string()).code(), 0);
    assert_eq!(TicketStatus::Completed.code(), 0);
}

#[test]
fn default_settings() {
    let s = Settings::default();
    assert_eq!(s.api_key, "");
    assert_eq!(s.output_dir, "data");
    assert_eq!(s.sync_start_date, "2025-01");
    assert_eq!(s.mq_host, "localhost");
    assert_eq!(s.mq_port, 5672);
    assert_eq!(s.mq_username, "guest");
    assert_eq!(s.mq_password, "guest");
    assert!(!s.mq_consumer_enabled);
    assert_eq!(s.mq_batch_size, 5);
    assert_eq!(s.translation_lang, "cn");
}

#[test]
fn form_keeps_consumer_settings() {
    let mut existing = Settings::default();
    existing.mq_consumer_enabled = true;
    existing.mq_batch_size = 9;
    let s = Settings::from_form(
        &existing,
        "k".to_string(),
        "out".to_string(),
        "2024-06".to_string(),
        "h".to_string(),
        1,
        "u".to_string(),
        "p".to_string(),
        "en".to_string(),
    );
    assert!(s.mq_consumer_enabled);
    assert_eq!(s.mq_batch_size, 9);
    assert_eq!(s.api_key, "k");
    assert_eq!(s.mq_port, 1);
    assert_eq!(s.translation_lang, "en");
}
