//! Translating a ticket: the prompt handed to the translation engine, the
//! JSON object cut out of its answer, and the translated fields merged back
//! into the ticket.

use vstd::prelude::*;

use crate::consumer::same_text;
use crate::models::{copy_text, Conversation, Ticket};
use crate::text::{decimal_text, u64_text};

verus! {

/// One translated conversation message.
#[derive(Clone, Debug)]
pub struct ConversationTranslation {
    pub id: u64,
    pub body_text: String,
}

/// What the translation engine answers for a ticket.
#[derive(Clone, Debug)]
pub struct TranslationResult {
    pub subject: String,
    pub description_text: Option<String>,
    pub conversations: Vec<ConversationTranslation>,
}

/// The client of the translation engine.
pub struct GeminiClient;

/// The name of a language code in the prompt; an unknown code stands for
/// itself.
pub open spec fn lang_name_of(code: Seq<char>) -> Seq<char> {
    if code == "cn"@ || code == "zh-CN"@ {
        "Simplified Chinese"@
    } else if code == "en"@ {
        "English"@
    } else if code == "jp"@ {
        "Japanese"@
    } else {
        code
    }
}

/// Whether `c` is white space in Unicode's sense (what `char::is_whitespace`
/// and `str::trim` go by).
pub open spec fn is_white(c: char) -> bool {
    let u = c as u32;
    (0x9 <= u <= 0xd) || u == 0x20 || u == 0x85 || u == 0xa0 || u == 0x1680 || (0x2000 <= u
        <= 0x200a) || u == 0x2028 || u == 0x2029 || u == 0x202f || u == 0x205f || u == 0x3000
}

/// Whether a text is empty once trimmed.
pub open spec fn is_blank(s: Seq<char>) -> bool {
    forall|i: int| 0 <= i < s.len() ==> is_white(#[trigger] s[i])
}

/// Decides `is_white`.
pub fn white_char(c: char) -> (r: bool)
    ensures
        r == is_white(c),
{
    let u = c as u32;
    (0x9 <= u && u <= 0xd) || u == 0x20 || u == 0x85 || u == 0xa0 || u == 0x1680 || (0x2000 <= u
        && u <= 0x200a) || u == 0x2028 || u == 0x2029 || u == 0x202f || u == 0x205f || u == 0x3000
}

/// Decides `is_blank`.
pub fn blank(s: &str) -> (r: bool)
    ensures
        r == is_blank(s@),
{
    let n = s.unicode_len();
    let mut i: usize = 0;
    while i < n
        invariant
            n == s@.len(),
            i <= n,
            forall|j: int| 0 <= j < i ==> is_white(#[trigger] s@[j]),
        decreases n - i,
    {
        if !white_char(s.get_char(i)) {
            return false;
        }
        i = i + 1;
    }
    true
}

/// The fixed opening of the prompt, around the language's name.
pub open spec fn prompt_head(name: Seq<char>) -> Seq<char> {
    "You are a professional customer support translator. Translate the following support ticket into "@
        + name
        + ". CRITICAL INSTRUCTIONS:1. Response must be ONLY a valid JSON object.2. Do NOT include any intro, outro, explanations, or markdown blocks (like ```json).3. You MUST translate BOTH the subject/description AND EVERY item in the 'conversations' list.4. Maintain the original 'id' for each conversation item.5. Ensure the content is ONLY in "@
        + name + " - DO NOT output in English if the target is "@ + name
        + ".6. JSON Structure Example:{\n  \"subject\": \"\u{7ffb}\u{8bd1}\u{540e}\u{7684}\u{6807}\u{9898}\",\n  \"description_text\": \"\u{7ffb}\u{8bd1}\u{540e}\u{7684}\u{6b63}\u{6587}\u{5185}\u{5bb9}\",\n  \"conversations\": [\n    {\"id\": 123, \"body_text\": \"\u{7ffb}\u{8bd1}\u{540e}\u{7684}\u{5bf9}\u{8bdd}\u{6d88}\u{606f}\"}\n  ]\n}\n\n"@
}

/// One line per conversation message: "MSG_ID {id}: {body}".
pub open spec fn conversation_lines(cs: Seq<Conversation>) -> Seq<char>
    decreases cs.len(),
{
    if cs.len() == 0 {
        Seq::empty()
    } else {
        conversation_lines(cs.drop_last()) + "MSG_ID "@ + decimal_text(cs.last().id as int) + ": "@
            + cs.last().body_text@ + "\n"@
    }
}

/// The text of an optional text, empty if there is none.
pub open spec fn text_or_empty(o: Option<String>) -> Seq<char> {
    match o {
        Some(s) => s@,
        None => Seq::empty(),
    }
}

/// The prompt that asks for a translation of `t` into `lang`.
pub open spec fn prompt_of(t: Ticket, lang: Seq<char>) -> Seq<char> {
    prompt_head(lang_name_of(lang)) + "--- TICKET TO TRANSLATE ---\nSUBJECT: "@ + text_or_empty(
        t.subject,
    ) + "\n"@ + match t.description_text {
        Some(d) => "DESCRIPTION: "@ + d@ + "\n"@,
        None => Seq::empty(),
    } + if t.conversations@.len() == 0 {
        Seq::empty()
    } else {
        "CONVERSATIONS:\n"@ + conversation_lines(t.conversations@)
    }
}

/// Why no JSON object could be cut out of the engine's answer.
#[derive(Clone, Copy, Debug, PartialEq, Eq, Structural)]
pub enum SpanError {
    /// The answer holds no '{'.
    MissingStart,
    /// The answer holds no '}'.
    MissingEnd,
    /// The last '}' comes before the first '{'.
    Reversed,
}

/// The index of the first `c` in `s`, if any.
pub open spec fn first_index(s: Seq<char>, c: char) -> Option<int> {
    if exists|i: int| 0 <= i < s.len() && s[i] == c {
        Some(
            choose|i: int|
                0 <= i < s.len() && s[i] == c && forall|j: int| 0 <= j < i ==> s[j] != c,
        )
    } else {
        None
    }
}

/// The index of the last `c` in `s`, if any.
pub open spec fn last_index(s: Seq<char>, c: char) -> Option<int> {
    if exists|i: int| 0 <= i < s.len() && s[i] == c {
        Some(
            choose|i: int|
                0 <= i < s.len() && s[i] == c && forall|j: int| i < j < s.len() ==> s[j] != c,
        )
    } else {
        None
    }
}

/// The text from the first '{' to the last '}' of `s`, both included.
pub open spec fn json_span_of(s: Seq<char>) -> Result<Seq<char>, SpanError> {
    match (first_index(s, '{'), last_index(s, '}')) {
        (None, _) => Err(SpanError::MissingStart),
        (_, None) => Err(SpanError::MissingEnd),
        (Some(a), Some(b)) => if b < a {
            Err(SpanError::Reversed)
        } else {
            Ok(s.subrange(a, b + 1))
        },
    }
}

/// Finds the first `c` in `s`.
fn find_first(s: &str, c: char) -> (r: Option<usize>)
    ensures
        match r {
            Some(i) => i < s@.len() && s@[i as int] == c && forall|j: int| 0 <= j < i ==> s@[j]
                != c,
            None => forall|j: int| 0 <= j < s@.len() ==> s@[j] != c,
        },
{
    let n = s.unicode_len();
    let mut i: usize = 0;
    while i < n
        invariant
            n == s@.len(),
            i <= n,
            forall|j: int| 0 <= j < i ==> s@[j] != c,
        decreases n - i,
    {
        if s.get_char(i) == c {
            return Some(i);
        }
        i = i + 1;
    }
    None
}

/// Finds the last `c` in `s`.
fn find_last(s: &str, c: char) -> (r: Option<usize>)
    ensures
        s@.len() <= usize::MAX,
        match r {
            Some(i) => i < s@.len() && s@[i as int] == c && forall|j: int|
                i < j < s@.len() ==> s@[j] != c,
            None => forall|j: int| 0 <= j < s@.len() ==> s@[j] != c,
        },
{
    let n = s.unicode_len();
    let mut i: usize = n;
    while i > 0
        invariant
            n == s@.len(),
            i <= n,
            forall|j: int| i <= j < n ==> s@[j] != c,
        decreases i,
    {
        if s.get_char(i - 1) == c {
            return Some(i - 1);
        }
        i = i - 1;
    }
    None
}

/// `c` with its body replaced by `body`.
pub open spec fn with_body(c: Conversation, body: String) -> Conversation {
    Conversation {
        id: c.id,
        body_text: body,
        user_id: c.user_id,
        created_at: c.created_at,
        updated_at: c.updated_at,
        incoming: c.incoming,
        private: c.private,
        source: c.source,
    }
}

/// `m` is `c` with the body of the first translation that has its id, or
/// `c` itself if none has it.
pub open spec fn is_merged_conversation(
    m: Conversation,
    c: Conversation,
    ts: Seq<ConversationTranslation>,
) -> bool {
    ||| exists|k: int|
        0 <= k < ts.len() && ts[k].id == c.id && (forall|j: int| 0 <= j < k ==> ts[j].id != c.id)
            && m == with_body(c, ts[k].body_text)
    ||| (forall|k: int| 0 <= k < ts.len() ==> ts[k].id != c.id) && m == c
}

/// The subject after translation: the translated one unless it is blank.
pub open spec fn merged_subject(t: Ticket, tr: TranslationResult) -> Option<String> {
    if is_blank(tr.subject@) {
        t.subject
    } else {
        Some(tr.subject)
    }
}

/// The description after translation: the translated one unless it is
/// missing or blank.
pub open spec fn merged_description(t: Ticket, tr: TranslationResult) -> Option<String> {
    match tr.description_text {
        Some(d) => if is_blank(d@) {
            t.description_text
        } else {
            Some(d)
        },
        None => t.description_text,
    }
}

/// Finds the first translation with id `id`.
fn find_translation(ts: &Vec<ConversationTranslation>, id: u64) -> (r: Option<usize>)
    ensures
        match r {
            Some(k) => k < ts@.len() && ts@[k as int].id == id && forall|j: int|
                0 <= j < k ==> ts@[j].id != id,
            None => forall|j: int| 0 <= j < ts@.len() ==> ts@[j].id != id,
        },
{
    let mut k: usize = 0;
    while k < ts.len()
        invariant
            k <= ts@.len(),
            forall|j: int| 0 <= j < k ==> ts@[j].id != id,
        decreases ts@.len() - k,
    {
        if ts[k].id == id {
            return Some(k);
        }
        k = k + 1;
    }
    None
}

impl GeminiClient {
    /// The name of a language code, as the prompt uses it.
    pub fn lang_name<'a>(code: &'a str) -> (r: &'a str)
        ensures
            r@ == lang_name_of(code@),
    {
        if same_text(code, "cn") || same_text(code, "zh-CN") {
            "Simplified Chinese"
        } else if same_text(code, "en") {
            "English"
        } else if same_text(code, "jp") {
            "Japanese"
        } else {
            code
        }
    }

    /// The prompt that asks the engine for a translation of `ticket` into
    /// `target_lang`, answered as one JSON object.
    pub fn prompt(ticket: &Ticket, target_lang: &str) -> (r: String)
        ensures
            r@ == prompt_of(*ticket, target_lang@),
    {
        let name = Self::lang_name(target_lang);
        let mut p = String::from_str(
            "You are a professional customer support translator. Translate the following support ticket into ",
        );
        p.append(name);
        p.append(
            ". CRITICAL INSTRUCTIONS:1. Response must be ONLY a valid JSON object.2. Do NOT include any intro, outro, explanations, or markdown blocks (like ```json).3. You MUST translate BOTH the subject/description AND EVERY item in the 'conversations' list.4. Maintain the original 'id' for each conversation item.5. Ensure the content is ONLY in ",
        );
        p.append(name);
        p.append(" - DO NOT output in English if the target is ");
        p.append(name);
        p.append(
            ".6. JSON Structure Example:{\n  \"subject\": \"\u{7ffb}\u{8bd1}\u{540e}\u{7684}\u{6807}\u{9898}\",\n  \"description_text\": \"\u{7ffb}\u{8bd1}\u{540e}\u{7684}\u{6b63}\u{6587}\u{5185}\u{5bb9}\",\n  \"conversations\": [\n    {\"id\": 123, \"body_text\": \"\u{7ffb}\u{8bd1}\u{540e}\u{7684}\u{5bf9}\u{8bdd}\u{6d88}\u{606f}\"}\n  ]\n}\n\n",
        );
        proof {
            assert(p@ =~= prompt_head(lang_name_of(target_lang@)));
        }
        p.append("--- TICKET TO TRANSLATE ---\nSUBJECT: ");
        match &ticket.subject {
            Some(s) => p.append(s.as_str()),
            None => {},
        }
        p.append("\n");
        match &ticket.description_text {
            Some(d) => {
                p.append("DESCRIPTION: ");
                p.append(d.as_str());
                p.append("\n");
            },
            None => {},
        }
        if ticket.conversations.len() > 0 {
            p.append("CONVERSATIONS:\n");
            let ghost start = p@;
            let mut i: usize = 0;
            while i < ticket.conversations.len()
                invariant
                    i <= ticket.conversations@.len(),
                    p@ == start + conversation_lines(ticket.conversations@.take(i as int)),
                decreases ticket.conversations@.len() - i,
            {
                let c = &ticket.conversations[i];
                p.append("MSG_ID ");
                let id = u64_text(c.id);
                p.append(id.as_str());
                p.append(": ");
                p.append(c.body_text.as_str());
                p.append("\n");
                proof {
                    let cs = ticket.conversations@.take(i as int + 1);
                    assert(cs.drop_last() =~= ticket.conversations@.take(i as int));
                    assert(cs.last() == ticket.conversations@[i as int]);
                }
                i = i + 1;
                proof {
                    assert(p@ =~= start + conversation_lines(ticket.conversations@.take(i as int)));
                }
            }
            proof {
                assert(ticket.conversations@.take(i as int) =~= ticket.conversations@);
            }
        }
        proof {
            assert(p@ =~= prompt_of(*ticket, target_lang@));
        }
        p
    }

    /// Cuts the JSON object out of the engine's answer: from its first '{'
    /// to its last '}'.
    pub fn json_span(output: &str) -> (r: Result<String, SpanError>)
        ensures
            match (r, json_span_of(output@)) {
                (Ok(a), Ok(b)) => a@ == b,
                (Err(a), Err(b)) => a == b,
                _ => false,
            },
    {
        let start = find_first(output, '{');
        let end = find_last(output, '}');
        match (start, end) {
            (None, _) => Err(SpanError::MissingStart),
            (_, None) => {
                proof {
                    assert(exists|i: int| 0 <= i < output@.len() && output@[i] == '{');
                }
                Err(SpanError::MissingEnd)
            },
            (Some(a), Some(b)) => {
                proof {
                    let s = output@;
                    assert(exists|i: int| 0 <= i < s.len() && s[i] == '{');
                    assert(exists|i: int| 0 <= i < s.len() && s[i] == '}');
                    let fa = first_index(s, '{')->0;
                    let lb = last_index(s, '}')->0;
                    assert(fa == a as int) by {
                        if fa < a as int {
                        } else if fa > a as int {
                        }
                    }
                    assert(lb == b as int) by {
                        if lb < b as int {
                        } else if lb > b as int {
                        }
                    }
                }
                if b < a {
                    Err(SpanError::Reversed)
                } else {
                    Ok(String::from_str(output.substring_char(a, b + 1)))
                }
            },
        }
    }

    /// The ticket with the engine's translation merged in: the subject and
    /// the description are replaced unless the translated ones are blank or
    /// missing, each conversation message takes the body of the first
    /// translation with its id, and everything else is kept.
    pub fn merge_translation(ticket: &Ticket, tr: &TranslationResult) -> (r: Ticket)
        ensures
            r.subject == merged_subject(*ticket, *tr),
            r.description_text == merged_description(*ticket, *tr),
            r.conversations@.len() == ticket.conversations@.len(),
            forall|i: int|
                0 <= i < ticket.conversations@.len() ==> is_merged_conversation(
                    #[trigger] r.conversations@[i],
                    ticket.conversations@[i],
                    tr.conversations@,
                ),
            r.id == ticket.id,
            r.external_id == ticket.external_id,
            r.content == ticket.content,
            r.status == ticket.status,
            r.priority == ticket.priority,
            r.created_at == ticket.created_at,
            r.updated_at == ticket.updated_at,
            r.requester_id == ticket.requester_id,
            r.responder_id == ticket.responder_id,
            r.cc_emails@ == ticket.cc_emails@,
            r.available_langs@ == ticket.available_langs@,
    {
        let mut t = ticket.duplicate();
        if !blank(tr.subject.as_str()) {
            t.subject = Some(tr.subject.clone());
        }
        t.description_text = match &tr.description_text {
            Some(d) => if !blank(d.as_str()) {
                Some(d.clone())
            } else {
                copy_text(&ticket.description_text)
            },
            None => copy_text(&ticket.description_text),
        };
        let mut merged: Vec<Conversation> = Vec::new();
        let mut i: usize = 0;
        while i < ticket.conversations.len()
            invariant
                i <= ticket.conversations@.len(),
                merged@.len() == i,
                forall|j: int|
                    0 <= j < i ==> is_merged_conversation(
                        #[trigger] merged@[j],
                        ticket.conversations@[j],
                        tr.conversations@,
                    ),
            decreases ticket.conversations@.len() - i,
        {
            let c = ticket.conversations[i].duplicate();
            let m = match find_translation(&tr.conversations, c.id) {
                Some(k) => Conversation {
                    id: c.id,
                    body_text: tr.conversations[k].body_text.clone(),
                    user_id: c.user_id,
                    created_at: c.created_at,
                    updated_at: c.updated_at,
                    incoming: c.incoming,
                    private: c.private,
                    source: c.source,
                },
                None => c,
            };
            merged.push(m);
            i = i + 1;
        }
        t.conversations = merged;
        t
    }
}

} // verus!
