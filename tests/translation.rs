use fd_client::models::{Conversation, Ticket, TicketStatus};
use fd_client::translation::{
    blank, white_char, ConversationTranslation, GeminiClient, SpanError, TranslationResult,
};

fn conv(id: u64, body: &str) -> Conversation {
    Conversation {
        id,
        body_text: body.to_string(),
        user_id: Some(9),
        created_at: Some("2025-01-02T03:04:05Z".to_string()),
        updated_at: None,
        incoming: true,
        private: false,
        source: Some(2),
    }
}

fn ticket() -> Ticket {
    Ticket {
        id: 12,
        external_id: Some("FD-12".to_string()),
        subject: Some("Printer broken".to_string()),
        description_text: Some("It does not print".to_string()),
        content: None,
        status: TicketStatus::PendingTrans,
        priority: 2,
        created_at: None,
        updated_at: None,
        requester_id: None,
        responder_id: None,
        cc_emails: vec![],
        conversations: vec![conv(1, "Hello"), conv(2, "Any news?")],
        available_langs: vec![],
    }
}

#[test]
fn language_names() {
    assert_eq!(GeminiClient::lang_name("cn"), "Simplified Chinese");
    assert_eq!(GeminiClient::lang_name("zh-CN"), "Simplified Chinese");
    assert_eq!(GeminiClient::lang_name("en"), "English");
    assert_eq!(GeminiClient::lang_name("jp"), "Japanese");
    assert_eq!(GeminiClient::lang_name("de"), "de");
}

#[test]
fn prompt_lists_subject_description_and_messages() {
    let p = GeminiClient::prompt(&ticket(), "en");
    assert!(p.starts_with(
        "You are a professional customer support translator. Translate the following support ticket into English. CRITICAL INSTRUCTIONS:1. Response"
    ));
    assert!(p.contains("5. Ensure the content is ONLY in English - DO NOT output in English if the target is English.6. JSON Structure Example:{\n  \"subject\": \"翻译后的标题\""));
    assert!(p.ends_with(
        "}\n\n--- TICKET TO TRANSLATE ---\nSUBJECT: Printer broken\nDESCRIPTION: It does not print\nCONVERSATIONS:\nMSG_ID 1: Hello\nMSG_ID 2: Any news?\n"
    ));
}

#[test]
fn prompt_without_description_or_messages() {
    let mut t = ticket();
    t.subject = None;
    t.description_text = None;
    t.conversations = vec![];
    let p = GeminiClient::prompt(&t, "cn");
    assert!(p.ends_with("--- TICKET TO TRANSLATE ---\nSUBJECT: \n"));
    assert!(p.contains("into Simplified Chinese."));
}

#[test]
fn json_span_cuts_the_object() {
    let out = "Sure! ```json\n{\"subject\": \"x\", \"a\": {\"b\": 1}}\n``` done";
    assert_eq!(
        GeminiClient::json_span(out).unwrap(),
        "{\"subject\": \"x\", \"a\": {\"b\": 1}}"
    );
    assert_eq!(GeminiClient::json_span("no json"), Err(SpanError::MissingStart));
    assert_eq!(GeminiClient::json_span("{ open"), Err(SpanError::MissingEnd));
    assert_eq!(GeminiClient::json_span("} then {"), Err(SpanError::Reversed));
    assert_eq!(GeminiClient::json_span("é{ü}é").unwrap(), "{ü}");
}

#[test]
fn merge_replaces_translated_fields() {
    let tr = TranslationResult {
        subject: "打印机坏了".to_string(),
        description_text: Some("不能打印".to_string()),
        conversations: vec![
            ConversationTranslation { id: 2, body_text: "有消息吗？".to_string() },
            ConversationTranslation { id: 2, body_text: "second".to_string() },
            ConversationTranslation { id: 5, body_text: "unused".to_string() },
        ],
    };
    let t = GeminiClient::merge_translation(&ticket(), &tr);
    assert_eq!(t.subject.as_deref(), Some("打印机坏了"));
    assert_eq!(t.description_text.as_deref(), Some("不能打印"));
    assert_eq!(t.conversations[0].body_text, "Hello");
    assert_eq!(t.conversations[1].body_text, "有消息吗？");
    assert_eq!(t.conversations[1].user_id, Some(9));
    assert_eq!(t.id, 12);
    assert_eq!(t.external_id.as_deref(), Some("FD-12"));
}

#[test]
fn merge_keeps_source_text_for_blank_translations() {
    let tr = TranslationResult {
        subject: "  \t\n".to_string(),
        description_text: Some("\u{3000}".to_string()),
        conversations: vec![],
    };
    let t = GeminiClient::merge_translation(&ticket(), &tr);
    assert_eq!(t.subject.as_deref(), Some("Printer broken"));
    assert_eq!(t.description_text.as_deref(), Some("It does not print"));
    let tr = TranslationResult { subject: "S".to_string(), description_text: None, conversations: vec![] };
    let t = GeminiClient::merge_translation(&ticket(), &tr);
    assert_eq!(t.subject.as_deref(), Some("S"));
    assert_eq!(t.description_text.as_deref(), Some("It does not print"));
}

#[test]
fn white_space_matches_std() {
    for c in ['\t', '\n', ' ', '\u{85}', '\u{a0}', '\u{2000}', '\u{3000}', 'a', '\u{200b}', '_'] {
        assert_eq!(white_char(c), c.is_whitespace());
    }
    assert!(blank(""));
    assert!(blank(" \u{2028} "));
    assert!(!blank(" x "));
}
