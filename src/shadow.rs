//! The hidden browser window in which the external actor works.

use vstd::prelude::*;

verus! {

/// The label of the hidden window.
pub open spec fn shadow_window_label() -> Seq<char> {
    "notebook_shadow"@
}

/// The label of the hidden window.
pub fn shadow_window() -> (r: &'static str)
    ensures
        r@ == shadow_window_label(),
{
    "notebook_shadow"
}

/// The page that the hidden window opens: the given address unless it is
/// missing or empty, else the notebook's page.
pub open spec fn notebook_url_of(notebook_id: Seq<char>, url: Option<Seq<char>>) -> Seq<char> {
    match url {
        Some(u) => if u.len() > 0 {
            u
        } else {
            "https://notebooklm.google.com/notebook/"@ + notebook_id
        },
        None => "https://notebooklm.google.com/notebook/"@ + notebook_id,
    }
}

/// Computes `notebook_url_of`.
pub fn notebook_url(notebook_id: &str, url: Option<&str>) -> (r: String)
    ensures
        r@ == notebook_url_of(
            notebook_id@,
            match url {
                Some(u) => Some(u@),
                None => None,
            },
        ),
{
    if let Some(u) = url {
        if u.unicode_len() > 0 {
            return String::from_str(u);
        }
    }
    let mut r = String::from_str("https://notebooklm.google.com/notebook/");
    r.append(notebook_id);
    r
}

} // verus!
