use fd_client::models::{Ticket, TicketStatus};
use fd_client::storage::{split_text, Storage};

fn ticket(id: u64, status: TicketStatus) -> Ticket {
    Ticket {
        id,
        external_id: None,
        subject: None,
        description_text: None,
        content: None,
        status,
        priority: 0,
        created_at: None,
        updated_at: None,
        requester_id: None,
        responder_id: None,
        cc_emails: vec![],
        conversations: vec![],
        available_langs: vec![],
    }
}

#[test]
fn status_names() {
    assert_eq!(Storage::status_name(2), "open");
    assert_eq!(Storage::status_name(3), "pending");
    assert_eq!(Storage::status_name(4), "resolved");
    assert_eq!(Storage::status_name(5), "closed");
    assert_eq!(Storage::status_name(1), "unknown");
    assert_eq!(Storage::status_name(-3), "unknown");
}

#[test]
fn file_names() {
    let t = ticket(77, TicketStatus::Unknown("4".to_string()));
    assert_eq!(Storage::ticket_filename(&t, None), "77_resolved.json");
    assert_eq!(Storage::ticket_filename(&t, Some("cn")), "77_resolved_cn.json");
    let t = ticket(8, TicketStatus::PendingReply);
    assert_eq!(Storage::ticket_filename(&t, None), "8_unknown.json");
}

#[test]
fn splitting() {
    assert_eq!(split_text("1_open_cn", '_'), vec!["1", "open", "cn"]);
    assert_eq!(split_text("", '_'), vec![""]);
    assert_eq!(split_text("_a_", '_'), vec!["", "a", ""]);
    assert_eq!(split_text("über_x", '_'), vec!["über", "x"]);
}

#[test]
fn stems_of_a_ticket() {
    assert!(Storage::stem_matches("12_open", 12, None));
    assert!(Storage::stem_matches("12_open_cn", 12, Some("cn")));
    assert!(!Storage::stem_matches("12_open_cn", 12, None));
    assert!(!Storage::stem_matches("12_open", 12, Some("cn")));
    assert!(!Storage::stem_matches("123_open", 12, None));
    assert!(!Storage::stem_matches("12", 12, None));
    assert_eq!(Storage::file_lang("1_open_en"), Some("en".to_string()));
    assert_eq!(Storage::file_lang("1_open"), None);
}

#[test]
fn old_files() {
    assert!(Storage::is_old_file("12_pending", 12, None));
    assert!(Storage::is_old_file("12_closed_cn", 12, Some("cn")));
    assert!(!Storage::is_old_file("12_closed_cn", 12, None));
    assert!(!Storage::is_old_file("123_closed", 12, None));
    assert!(!Storage::is_old_file("1", 12, None));
}

#[test]
fn renames() {
    assert!(Storage::needs_rename("5_open.json", "5_closed.json"));
    assert!(!Storage::needs_rename("5_closed.json", "5_closed.json"));
    assert!(!Storage::needs_rename("5_open_cn.json", "5_closed.json"));
}

#[test]
fn storage_directory() {
    let s = Storage::new("data");
    assert_eq!(s.data_dir(), "data");
}

fn file(id: u64, lang: Option<&str>, subject: &str) -> fd_client::storage::ListedFile {
    let mut t = ticket(id, TicketStatus::Completed);
    t.subject = Some(subject.to_string());
    fd_client::storage::ListedFile { lang: lang.map(|l| l.to_string()), ticket: t }
}

#[test]
fn listing_untranslated() {
    let files = vec![
        file(1, None, "one"),
        file(3, Some("cn"), "three cn"),
        file(3, None, "three"),
        file(2, Some("en"), "two en"),
    ];
    let r = Storage::assemble_listing(&files, None);
    let ids: Vec<u64> = r.iter().map(|t| t.id).collect();
    assert_eq!(ids, vec![3, 1]);
    assert_eq!(r[0].subject.as_deref(), Some("three"));
    assert_eq!(r[0].available_langs, vec!["cn".to_string()]);
    assert!(r[1].available_langs.is_empty());
}

#[test]
fn listing_in_a_language() {
    let files = vec![
        file(1, None, "one"),
        file(3, None, "three"),
        file(3, Some("cn"), "three cn"),
        file(2, Some("cn"), "two cn"),
        file(2, Some("en"), "two en"),
    ];
    let r = Storage::assemble_listing(&files, Some("cn"));
    let ids: Vec<u64> = r.iter().map(|t| t.id).collect();
    assert_eq!(ids, vec![3, 2]);
    assert_eq!(r[0].subject.as_deref(), Some("three cn"));
    assert_eq!(r[1].subject.as_deref(), Some("two cn"));
    assert_eq!(r[1].available_langs, vec!["cn".to_string(), "en".to_string()]);
}
