use fd_client::shadow::{notebook_url, shadow_window};

#[test]
fn notebook_addresses() {
    assert_eq!(notebook_url("abc", None), "https://notebooklm.google.com/notebook/abc");
    assert_eq!(notebook_url("abc", Some("")), "https://notebooklm.google.com/notebook/abc");
    assert_eq!(notebook_url("abc", Some("https://x.test/n")), "https://x.test/n");
    assert_eq!(shadow_window(), "notebook_shadow");
}
