//! The JSON bodies that tasks exchange with the upstream API and the external
//! actor, and the checks on what the API answers.

use vstd::prelude::*;

use crate::models::{Conversation, Ticket};
use crate::registry::TaskError;
use crate::text::{decimal_text, i64_text, u64_text};

verus! {

/// The lower-case hexadecimal digit of `d` (0 through 15).
pub open spec fn hex_digit(d: nat) -> char {
    if d < 10 {
        crate::text::digit_char(d)
    } else if d == 10 {
        'a'
    } else if d == 11 {
        'b'
    } else if d == 12 {
        'c'
    } else if d == 13 {
        'd'
    } else if d == 14 {
        'e'
    } else {
        'f'
    }
}

/// How one character is written inside a JSON string: quote, backslash and
/// control characters escaped, everything else as it is.
pub open spec fn json_escape_char(c: char) -> Seq<char> {
    let u = c as u32;
    if c == '"' {
        "\\\""@
    } else if c == '\\' {
        "\\\\"@
    } else if u == 0x8 {
        "\\b"@
    } else if u == 0x9 {
        "\\t"@
    } else if u == 0xa {
        "\\n"@
    } else if u == 0xc {
        "\\f"@
    } else if u == 0xd {
        "\\r"@
    } else if u < 0x20 {
        "\\u00"@ + seq![hex_digit((u / 16) as nat), hex_digit((u % 16) as nat)]
    } else {
        seq![c]
    }
}

/// The characters of `s`, each escaped for a JSON string.
pub open spec fn json_escaped(s: Seq<char>) -> Seq<char>
    decreases s.len(),
{
    if s.len() == 0 {
        Seq::empty()
    } else {
        json_escaped(s.drop_last()) + json_escape_char(s.last())
    }
}

/// `s` as a JSON string literal.
pub open spec fn json_quoted(s: Seq<char>) -> Seq<char> {
    "\""@ + json_escaped(s) + "\""@
}

/// Relies on `serde_json::to_string` on a `str`: the text in double quotes,
/// with '"', '\\' and the control characters below U+0020 escaped ("\\b",
/// "\\t", "\\n", "\\f", "\\r", or "\\u00" and two lower-case hex digits), and
/// every other character written as it is. Writing a `str` into memory does
/// not fail.
#[verifier::external_body]
fn json_quote(s: &str) -> (r: String)
    ensures
        r@ == json_quoted(s@),
{
    serde_json::to_string(s).unwrap_or_default()
}

/// An optional text as JSON: a string, or null.
pub open spec fn json_opt_text(o: Option<String>) -> Seq<char> {
    match o {
        Some(s) => json_quoted(s@),
        None => "null"@,
    }
}

/// An optional number as JSON: its digits, or null.
pub open spec fn json_opt_int(o: Option<int>) -> Seq<char> {
    match o {
        Some(n) => decimal_text(n),
        None => "null"@,
    }
}

/// A flag as JSON.
pub open spec fn json_bool(b: bool) -> Seq<char> {
    if b {
        "true"@
    } else {
        "false"@
    }
}

/// Items joined with commas.
pub open spec fn join_items(items: Seq<Seq<char>>) -> Seq<char>
    decreases items.len(),
{
    if items.len() == 0 {
        Seq::empty()
    } else if items.len() == 1 {
        items[0]
    } else {
        join_items(items.drop_last()) + ","@ + items.last()
    }
}

/// The optional user id of a message as an optional number.
pub open spec fn user_of(c: Conversation) -> Option<int> {
    match c.user_id {
        Some(u) => Some(u as int),
        None => None,
    }
}

/// The optional source of a message as an optional number.
pub open spec fn source_of(c: Conversation) -> Option<int> {
    match c.source {
        Some(u) => Some(u as int),
        None => None,
    }
}

/// A translated message as the upstream API takes it (keys in order).
pub open spec fn submitted_conversation(c: Conversation) -> Seq<char> {
    "{\"bodyText\":"@ + json_quoted(c.body_text@) + ",\"createdAt\":"@ + json_opt_text(
        c.created_at,
    ) + ",\"id\":"@ + decimal_text(c.id as int) + ",\"incoming\":"@ + json_bool(c.incoming)
        + ",\"isPrivate\":"@ + json_bool(c.private) + ",\"userId\":"@ + json_opt_int(user_of(c))
        + "}"@
}

/// A message as the external actor receives it (keys in order).
pub open spec fn notified_conversation(c: Conversation) -> Seq<char> {
    "{\"body_text\":"@ + json_quoted(c.body_text@) + ",\"created_at\":"@ + json_opt_text(
        c.created_at,
    ) + ",\"id\":"@ + decimal_text(c.id as int) + ",\"incoming\":"@ + json_bool(c.incoming)
        + ",\"private\":"@ + json_bool(c.private) + ",\"source\":"@ + json_opt_int(source_of(c))
        + ",\"updated_at\":"@ + json_opt_text(c.updated_at) + ",\"user_id\":"@ + json_opt_int(
        user_of(c),
    ) + "}"@
}

/// The JSON texts of messages, in the shape the upstream API takes
/// (`submitted`) or the external actor receives.
pub open spec fn conversation_items(cs: Seq<Conversation>, submitted: bool) -> Seq<Seq<char>> {
    cs.map_values(
        |c|
            if submitted {
                submitted_conversation(c)
            } else {
                notified_conversation(c)
            },
    )
}

/// The translated content of a ticket: its description and its messages.
pub open spec fn translated_content_of(t: Ticket) -> Seq<char> {
    "{\"conversations\":["@ + join_items(conversation_items(t.conversations@, true))
        + "],\"description\":"@ + json_opt_text(t.description_text) + "}"@
}

/// The body that submits the translation `t` into `lang`.
pub open spec fn submission_of(lang: Seq<char>, t: Ticket) -> Seq<char> {
    "{\"targetLang\":"@ + json_quoted(lang) + ",\"translatedContent\":"@ + json_quoted(
        translated_content_of(t),
    ) + ",\"translatedTitle\":"@ + json_quoted(
        match t.subject {
            Some(s) => s@,
            None => Seq::empty(),
        },
    ) + "}"@
}

/// The work request that asks the external actor to reply to ticket `t`.
pub open spec fn reply_request_of(ticket_id: i64, t: Ticket, auth_token: Seq<char>) -> Seq<char> {
    "{\"authToken\":"@ + json_quoted(auth_token) + ",\"conversations\":["@ + join_items(conversation_items(t.conversations@, false)) + "],\"description\":"@ + json_opt_text(t.description_text) + ",\"externalId\":"@
        + json_opt_text(t.external_id) + ",\"subject\":"@ + json_opt_text(t.subject)
        + ",\"ticketId\":"@ + decimal_text(ticket_id as int) + "}"@
}

/// Appends `o` as JSON text or null.
fn push_opt_text(p: &mut String, o: &Option<String>)
    ensures
        final(p)@ == old(p)@ + json_opt_text(*o),
{
    match o {
        Some(s) => {
            let q = json_quote(s.as_str());
            p.append(q.as_str());
        },
        None => p.append("null"),
    }
}

/// Appends a flag.
fn push_bool(p: &mut String, b: bool)
    ensures
        final(p)@ == old(p)@ + json_bool(b),
{
    if b {
        p.append("true");
    } else {
        p.append("false");
    }
}

/// Appends an optional user id.
fn push_user(p: &mut String, c: &Conversation)
    ensures
        final(p)@ == old(p)@ + json_opt_int(user_of(*c)),
{
    match c.user_id {
        Some(u) => {
            let d = u64_text(u);
            p.append(d.as_str());
        },
        None => p.append("null"),
    }
}

/// Appends an optional source.
fn push_source(p: &mut String, c: &Conversation)
    ensures
        final(p)@ == old(p)@ + json_opt_int(source_of(*c)),
{
    match c.source {
        Some(u) => {
            let d = i64_text(u as i64);
            p.append(d.as_str());
        },
        None => p.append("null"),
    }
}

/// Appends a message as the upstream API takes it.
fn push_submitted(p: &mut String, c: &Conversation)
    ensures
        final(p)@ == old(p)@ + submitted_conversation(*c),
{
    let ghost start = p@;
    p.append("{\"bodyText\":");
    let q = json_quote(c.body_text.as_str());
    p.append(q.as_str());
    p.append(",\"createdAt\":");
    push_opt_text(p, &c.created_at);
    p.append(",\"id\":");
    let d = u64_text(c.id);
    p.append(d.as_str());
    p.append(",\"incoming\":");
    push_bool(p, c.incoming);
    p.append(",\"isPrivate\":");
    push_bool(p, c.private);
    p.append(",\"userId\":");
    push_user(p, c);
    p.append("}");
    proof {
        assert(p@ =~= start + submitted_conversation(*c));
    }
}

/// Appends a message as the external actor receives it.
#[verifier::rlimit(60)]
fn push_notified(p: &mut String, c: &Conversation)
    ensures
        final(p)@ == old(p)@ + notified_conversation(*c),
{
    let ghost start = p@;
    p.append("{\"body_text\":");
    let q = json_quote(c.body_text.as_str());
    p.append(q.as_str());
    p.append(",\"created_at\":");
    push_opt_text(p, &c.created_at);
    p.append(",\"id\":");
    let d = u64_text(c.id);
    p.append(d.as_str());
    p.append(",\"incoming\":");
    push_bool(p, c.incoming);
    p.append(",\"private\":");
    push_bool(p, c.private);
    p.append(",\"source\":");
    push_source(p, c);
    p.append(",\"updated_at\":");
    push_opt_text(p, &c.updated_at);
    p.append(",\"user_id\":");
    push_user(p, c);
    p.append("}");
    proof {
        assert(p@ =~= start + notified_conversation(*c));
    }
}

/// Appends the messages of `cs`, joined with commas, each in the shape the
/// upstream API takes (`submitted`) or the external actor receives.
fn push_conversations(p: &mut String, cs: &Vec<Conversation>, submitted: bool)
    ensures
        final(p)@ == old(p)@ + join_items(conversation_items(cs@, submitted)),
{
    let ghost start = p@;
    let mut i: usize = 0;
    while i < cs.len()
        invariant
            i <= cs@.len(),
            p@ == start + join_items(conversation_items(cs@.take(i as int), submitted)),
        decreases cs@.len() - i,
    {
        if i > 0 {
            p.append(",");
        }
        if submitted {
            push_submitted(p, &cs[i]);
        } else {
            push_notified(p, &cs[i]);
        }
        proof {
            let items = conversation_items(cs@.take(i as int + 1), submitted);
            assert(items.drop_last() =~= conversation_items(cs@.take(i as int), submitted));
            if i == 0 {
                assert(items.len() == 1);
                assert(conversation_items(cs@.take(0), submitted) =~= Seq::<Seq<char>>::empty());
            }
        }
        i = i + 1;
        proof {
            assert(p@ =~= start + join_items(conversation_items(cs@.take(i as int), submitted)));
        }
    }
    proof {
        assert(cs@.take(i as int) =~= cs@);
    }
}

/// The translated content of `t`: its description and its messages.
pub fn translated_content(t: &Ticket) -> (r: String)
    ensures
        r@ == translated_content_of(*t),
{
    let mut p = String::from_str("{\"conversations\":[");
    push_conversations(&mut p, &t.conversations, true);
    p.append("],\"description\":");
    push_opt_text(&mut p, &t.description_text);
    p.append("}");
    proof {
        assert(p@ =~= translated_content_of(*t));
    }
    p
}

/// The body that submits the translation `t` into `target_lang`.
pub fn submission_body(target_lang: &str, t: &Ticket) -> (r: String)
    ensures
        r@ == submission_of(target_lang@, *t),
{
    let mut p = String::from_str("{\"targetLang\":");
    let lang = json_quote(target_lang);
    p.append(lang.as_str());
    p.append(",\"translatedContent\":");
    let content = translated_content(t);
    let quoted = json_quote(content.as_str());
    p.append(quoted.as_str());
    p.append(",\"translatedTitle\":");
    let title = match &t.subject {
        Some(s) => json_quote(s.as_str()),
        None => {
            let empty = String::new();
            json_quote(empty.as_str())
        },
    };
    p.append(title.as_str());
    p.append("}");
    proof {
        assert(p@ =~= submission_of(target_lang@, *t));
    }
    p
}

/// The work request that asks the external actor to reply to the ticket `t`
/// of task `ticket_id`, with the caller's credentials.
pub fn reply_request(ticket_id: i64, t: &Ticket, auth_token: &str) -> (r: String)
    ensures
        r@ == reply_request_of(ticket_id, *t, auth_token@),
{
    let mut p = String::from_str("{\"authToken\":");
    let token = json_quote(auth_token);
    p.append(token.as_str());
    p.append(",\"conversations\":[");
    push_conversations(&mut p, &t.conversations, false);
    p.append("],\"description\":");
    push_opt_text(&mut p, &t.description_text);
    p.append(",\"externalId\":");
    push_opt_text(&mut p, &t.external_id);
    p.append(",\"subject\":");
    push_opt_text(&mut p, &t.subject);
    p.append(",\"ticketId\":");
    let id = i64_text(ticket_id);
    p.append(id.as_str());
    p.append("}");
    proof {
        assert(p@ =~= reply_request_of(ticket_id, *t, auth_token@));
    }
    p
}

/// The upstream API's envelope around an answer.
#[derive(Clone, Debug)]
pub struct RustApiResponse<T> {
    pub success: bool,
    pub data: Option<T>,
    pub message: Option<String>,
}

/// The text of a fetch that found no ticket.
pub open spec fn not_found_text(ticket_id: i64) -> Seq<char> {
    "Ticket #"@ + decimal_text(ticket_id as int) + " not found on server"@
}

/// The ticket that the API answered for task `ticket_id`; an answer without
/// one fails the fetch.
pub fn ticket_from_response(resp: RustApiResponse<Ticket>, ticket_id: i64) -> (r: Result<
    Ticket,
    TaskError,
>)
    ensures
        match resp.data {
            Some(t) => r == Ok::<Ticket, TaskError>(t),
            None => (r matches Err(TaskError::UpstreamFetch(m)) && m@ == not_found_text(ticket_id)),
        },
{
    match resp.data {
        Some(t) => Ok(t),
        None => {
            let mut m = String::from_str("Ticket #");
            let id = i64_text(ticket_id);
            m.append(id.as_str());
            m.append(" not found on server");
            Err(TaskError::UpstreamFetch(m))
        },
    }
}

/// Whether an HTTP status code means success.
pub open spec fn is_success_status(code: u16) -> bool {
    200 <= code <= 299
}

/// What the API's answer to a submission means: success for a 2xx status;
/// else a submission error that quotes the status (`status_text` is its
/// code and reason) and the answer's body.
pub fn submission_result(code: u16, status_text: &str, body: &str) -> (r: Result<(), TaskError>)
    ensures
        is_success_status(code) ==> r is Ok,
        !is_success_status(code) ==> (r matches Err(TaskError::Submission(m)) && m@
            == "Server returned error during translation submission ("@ + status_text@ + "): "@
            + body@),
{
    if 200 <= code && code <= 299 {
        Ok(())
    } else {
        let mut m = String::from_str("Server returned error during translation submission (");
        m.append(status_text);
        m.append("): ");
        m.append(body);
        Err(TaskError::Submission(m))
    }
}

/// The address of a ticket on the upstream API.
pub fn ticket_url(api: &str, ticket_id: i64) -> (r: String)
    ensures
        r@ == api@ + "/tickets/"@ + decimal_text(ticket_id as int),
{
    let mut u = String::from_str(api);
    u.append("/tickets/");
    let id = i64_text(ticket_id);
    u.append(id.as_str());
    u
}

/// The address that a ticket's translation is submitted to.
pub fn translation_url(api: &str, ticket_id: i64) -> (r: String)
    ensures
        r@ == api@ + "/tickets/"@ + decimal_text(ticket_id as int) + "/translation"@,
{
    let mut u = ticket_url(api, ticket_id);
    u.append("/translation");
    u
}

/// The header value that carries a bearer token.
pub fn bearer(auth_token: &str) -> (r: String)
    ensures
        r@ == "Bearer "@ + auth_token@,
{
    let mut h = String::from_str("Bearer ");
    h.append(auth_token);
    h
}


/// A conversation message as the server's ticket payloads carry it.
#[derive(Clone, Debug)]
pub struct ConversationDto {
    pub id: u64,
    pub body_text: String,
    pub is_private: Option<bool>,
    pub incoming: Option<bool>,
    pub user_id: Option<u64>,
    pub created_at: Option<String>,
}

/// The content part of a ticket payload.
#[derive(Clone, Debug)]
pub struct TicketContent {
    pub description: Option<String>,
    pub conversations: Option<Vec<ConversationDto>>,
}

/// A finished translation as the server describes it.
#[derive(Clone, Debug)]
pub struct TranslationResult {
    pub ticket_id: i64,
    pub external_id: String,
    pub translated_title: String,
    pub translated_content: String,
    pub target_lang: String,
}

} // verus!
