use fd_client::models::{Conversation, Ticket, TicketStatus};
use fd_client::payloads::{
    bearer, reply_request, submission_body, submission_result, ticket_from_response,
    ticket_url, translated_content, translation_url, RustApiResponse,
};
use fd_client::registry::TaskError;

fn ticket() -> Ticket {
    Ticket {
        id: 12,
        external_id: Some("FD-12".to_string()),
        subject: Some("Say \"hi\"".to_string()),
        description_text: Some("line1\nline2\u{1}".to_string()),
        content: None,
        status: TicketStatus::Completed,
        priority: 1,
        created_at: None,
        updated_at: None,
        requester_id: None,
        responder_id: None,
        cc_emails: vec![],
        conversations: vec![Conversation {
            id: 3,
            body_text: "a\\b".to_string(),
            user_id: None,
            created_at: Some("2025-01-01".to_string()),
            updated_at: None,
            incoming: false,
            private: true,
            source: Some(-1),
        }],
        available_langs: vec![],
    }
}

#[test]
fn translated_content_is_sorted_json() {
    assert_eq!(
        translated_content(&ticket()),
        "{\"conversations\":[{\"bodyText\":\"a\\\\b\",\"createdAt\":\"2025-01-01\",\"id\":3,\"incoming\":false,\"isPrivate\":true,\"userId\":null}],\"description\":\"line1\\nline2\\u0001\"}"
    );
}

#[test]
fn submission_body_nests_the_content() {
    let mut t = ticket();
    t.conversations = vec![];
    t.description_text = None;
    assert_eq!(
        submission_body("cn", &t),
        "{\"targetLang\":\"cn\",\"translatedContent\":\"{\\\"conversations\\\":[],\\\"description\\\":null}\",\"translatedTitle\":\"Say \\\"hi\\\"\"}"
    );
    t.subject = None;
    assert!(submission_body("cn", &t).ends_with(",\"translatedTitle\":\"\"}"));
}

#[test]
fn reply_request_carries_ticket_and_token() {
    let r = reply_request(-5, &ticket(), "tok");
    assert_eq!(
        r,
        "{\"authToken\":\"tok\",\"conversations\":[{\"body_text\":\"a\\\\b\",\"created_at\":\"2025-01-01\",\"id\":3,\"incoming\":false,\"private\":true,\"source\":-1,\"updated_at\":null,\"user_id\":null}],\"description\":\"line1\\nline2\\u0001\",\"externalId\":\"FD-12\",\"subject\":\"Say \\\"hi\\\"\",\"ticketId\":-5}"
    );
}

#[test]
fn two_messages_are_comma_separated() {
    let mut t = ticket();
    let c = t.conversations[0].clone();
    t.conversations.push(Conversation { id: 4, user_id: Some(8), ..c });
    let s = translated_content(&t);
    assert!(s.contains("\"userId\":null},{\"bodyText\""));
    assert!(s.contains("\"id\":4"));
    assert!(s.contains("\"userId\":8}"));
}

#[test]
fn fetch_answer_without_ticket_fails() {
    let resp: RustApiResponse<Ticket> =
        RustApiResponse { success: false, data: None, message: Some("nope".to_string()) };
    match ticket_from_response(resp, 42) {
        Err(TaskError::UpstreamFetch(m)) => assert_eq!(m, "Ticket #42 not found on server"),
        _ => panic!("expected a fetch error"),
    }
    let resp = RustApiResponse { success: true, data: Some(ticket()), message: None };
    assert_eq!(ticket_from_response(resp, 12).unwrap().id, 12);
}

#[test]
fn submission_status() {
    assert!(submission_result(200, "200 OK", "").is_ok());
    assert!(submission_result(204, "204 No Content", "").is_ok());
    match submission_result(500, "500 Internal Server Error", "boom") {
        Err(TaskError::Submission(m)) => assert_eq!(
            m,
            "Server returned error during translation submission (500 Internal Server Error): boom"
        ),
        _ => panic!("expected a submission error"),
    }
    assert!(submission_result(302, "302 Found", "").is_err());
}

#[test]
fn urls_and_headers() {
    assert_eq!(ticket_url("http://h/api/v1", 42), "http://h/api/v1/tickets/42");
    assert_eq!(translation_url("http://h/api/v1", 42), "http://h/api/v1/tickets/42/translation");
    assert_eq!(bearer("abc"), "Bearer abc");
}
