//! The rows of a CSV export of tickets.

use vstd::prelude::*;

use crate::models::{status_text, Conversation, Ticket};
use crate::text::{decimal_text, i64_text, u64_text};
use crate::translation::text_or_empty;

verus! {

/// The `Debug` text of a string: quoted, with escapes.
pub uninterp spec fn debug_quoted(s: Seq<char>) -> Seq<char>;

/// Relies on the `Debug` of `str`: the text in double quotes with its
/// special characters escaped; the result depends on the text alone.
#[verifier::external_body]
fn debug_text(s: &str) -> (r: String)
    ensures
        r@ == debug_quoted(s@),
{
    format!("{:?}", s)
}

/// The `Debug` text of an optional string.
pub open spec fn debug_opt(o: Option<String>) -> Seq<char> {
    match o {
        Some(s) => "Some("@ + debug_quoted(s@) + ")"@,
        None => "None"@,
    }
}

/// One message in the export: "[{created}] {Customer|Agent}: {body}" and a
/// line break.
pub open spec fn conversation_line_of(c: Conversation) -> Seq<char> {
    "["@ + debug_opt(c.created_at) + "] "@ + (if c.incoming {
        "Customer"@
    } else {
        "Agent"@
    }) + ": "@ + c.body_text@ + "\n"@
}

/// All messages of a conversation, one line each.
pub open spec fn conversation_text_of(cs: Seq<Conversation>) -> Seq<char>
    decreases cs.len(),
{
    if cs.len() == 0 {
        Seq::empty()
    } else {
        conversation_text_of(cs.drop_last()) + conversation_line_of(cs.last())
    }
}

/// The export line of one message.
pub fn conversation_line(c: &Conversation) -> (r: String)
    ensures
        r@ == conversation_line_of(*c),
{
    let mut r = String::from_str("[");
    match &c.created_at {
        Some(s) => {
            r.append("Some(");
            let d = debug_text(s.as_str());
            r.append(d.as_str());
            r.append(")");
        },
        None => r.append("None"),
    }
    r.append("] ");
    if c.incoming {
        r.append("Customer");
    } else {
        r.append("Agent");
    }
    r.append(": ");
    r.append(c.body_text.as_str());
    r.append("\n");
    r
}

/// The export text of a conversation.
pub fn conversation_text(cs: &Vec<Conversation>) -> (r: String)
    ensures
        r@ == conversation_text_of(cs@),
{
    let mut r = String::new();
    let mut i: usize = 0;
    while i < cs.len()
        invariant
            i <= cs@.len(),
            r@ == conversation_text_of(cs@.take(i as int)),
        decreases cs@.len() - i,
    {
        let line = conversation_line(&cs[i]);
        r.append(line.as_str());
        proof {
            let t = cs@.take(i as int + 1);
            assert(t.drop_last() =~= cs@.take(i as int));
        }
        i = i + 1;
    }
    proof {
        assert(cs@.take(i as int) =~= cs@);
    }
    r
}

/// The header row.
pub fn csv_header() -> (r: Vec<&'static str>)
    ensures
        r@.len() == 8,
        r@[0]@ == "ID"@,
        r@[1]@ == "Subject"@,
        r@[2]@ == "Status"@,
        r@[3]@ == "Priority"@,
        r@[4]@ == "Created At"@,
        r@[5]@ == "Updated At"@,
        r@[6]@ == "Description"@,
        r@[7]@ == "Conversations"@,
{
    let mut r: Vec<&'static str> = Vec::new();
    r.push("ID");
    r.push("Subject");
    r.push("Status");
    r.push("Priority");
    r.push("Created At");
    r.push("Updated At");
    r.push("Description");
    r.push("Conversations");
    r
}

/// A text, or the empty text.
fn text_or_new(o: &Option<String>) -> (r: String)
    ensures
        r@ == text_or_empty(*o),
{
    match o {
        Some(s) => s.clone(),
        None => String::new(),
    }
}

/// The row of a ticket: id, subject, status, priority, creation and update
/// times, description and conversation, missing texts left empty.
pub fn csv_row(t: &Ticket) -> (r: Vec<String>)
    ensures
        r@.len() == 8,
        r@[0]@ == decimal_text(t.id as int),
        r@[1]@ == text_or_empty(t.subject),
        r@[2]@ == status_text(t.status),
        r@[3]@ == decimal_text(t.priority as int),
        r@[4]@ == text_or_empty(t.created_at),
        r@[5]@ == text_or_empty(t.updated_at),
        r@[6]@ == text_or_empty(t.description_text),
        r@[7]@ == conversation_text_of(t.conversations@),
{
    let mut r: Vec<String> = Vec::new();
    r.push(u64_text(t.id));
    r.push(text_or_new(&t.subject));
    r.push(t.status.as_text());
    r.push(i64_text(t.priority as i64));
    r.push(text_or_new(&t.created_at));
    r.push(text_or_new(&t.updated_at));
    r.push(text_or_new(&t.description_text));
    r.push(conversation_text(&t.conversations));
    r
}

} // verus!
