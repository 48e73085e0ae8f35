//! Tickets and their conversations.

use vstd::prelude::*;

verus! {

/// A copy of an optional text.
pub fn copy_text(o: &Option<String>) -> (r: Option<String>)
    ensures
        r == *o,
{
    match o {
        Some(s) => Some(s.clone()),
        None => None,
    }
}

/// A copy of a list of texts.
pub fn copy_texts(v: &Vec<String>) -> (r: Vec<String>)
    ensures
        r@ == v@,
{
    let mut r: Vec<String> = Vec::new();
    let mut i: usize = 0;
    while i < v.len()
        invariant
            i <= v@.len(),
            r@ == v@.take(i as int),
        decreases v@.len() - i,
    {
        r.push(v[i].clone());
        i = i + 1;
        proof {
            assert(r@ =~= v@.take(i as int));
        }
    }
    proof {
        assert(v@.take(v@.len() as int) =~= v@);
    }
    r
}

/// One message of a ticket's conversation.
#[derive(Clone, Debug)]
pub struct Conversation {
    pub id: u64,
    pub body_text: String,
    pub user_id: Option<u64>,
    pub created_at: Option<String>,
    pub updated_at: Option<String>,
    pub incoming: bool,
    pub private: bool,
    pub source: Option<i32>,
}

impl Conversation {
    /// A field-by-field copy.
    pub fn duplicate(&self) -> (r: Conversation)
        ensures
            r == *self,
    {
        Conversation {
            id: self.id,
            body_text: self.body_text.clone(),
            user_id: self.user_id,
            created_at: copy_text(&self.created_at),
            updated_at: copy_text(&self.updated_at),
            incoming: self.incoming,
            private: self.private,
            source: self.source,
        }
    }
}

/// A copy of a conversation list.
pub fn copy_conversations(v: &Vec<Conversation>) -> (r: Vec<Conversation>)
    ensures
        r@ == v@,
{
    let mut r: Vec<Conversation> = Vec::new();
    let mut i: usize = 0;
    while i < v.len()
        invariant
            i <= v@.len(),
            r@ == v@.take(i as int),
        decreases v@.len() - i,
    {
        r.push(v[i].duplicate());
        i = i + 1;
        proof {
            assert(r@ =~= v@.take(i as int));
        }
    }
    proof {
        assert(v@.take(v@.len() as int) =~= v@);
    }
    r
}

/// Where a ticket stands on the server.
#[derive(Clone, Debug)]
pub enum TicketStatus {
    PendingTrans,
    PendingReply,
    PendingAudit,
    Completed,
    /// Any other value, held as its JSON text.
    Unknown(String),
}

/// The text of a status: the server's name for it, or the JSON text of an
/// unknown value.
pub open spec fn status_text(s: TicketStatus) -> Seq<char> {
    match s {
        TicketStatus::PendingTrans => "PENDING_TRANS"@,
        TicketStatus::PendingReply => "PENDING_REPLY"@,
        TicketStatus::PendingAudit => "PENDING_AUDIT"@,
        TicketStatus::Completed => "COMPLETED"@,
        TicketStatus::Unknown(t) => t@,
    }
}

/// The numeric status code that a status carries: an unknown value that is
/// one of the single digits 2 to 5; 0 otherwise.
pub open spec fn status_code_of(s: TicketStatus) -> i32 {
    match s {
        TicketStatus::Unknown(t) => if t@ == "2"@ {
            2
        } else if t@ == "3"@ {
            3
        } else if t@ == "4"@ {
            4
        } else if t@ == "5"@ {
            5
        } else {
            0
        },
        _ => 0,
    }
}

impl TicketStatus {
    /// The status's text.
    pub fn as_text(&self) -> (r: String)
        ensures
            r@ == status_text(*self),
    {
        match self {
            TicketStatus::PendingTrans => String::from_str("PENDING_TRANS"),
            TicketStatus::PendingReply => String::from_str("PENDING_REPLY"),
            TicketStatus::PendingAudit => String::from_str("PENDING_AUDIT"),
            TicketStatus::Completed => String::from_str("COMPLETED"),
            TicketStatus::Unknown(t) => t.clone(),
        }
    }

    /// The numeric code the status carries, 0 if none.
    pub fn code(&self) -> (r: i32)
        ensures
            r == status_code_of(*self),
    {
        match self {
            TicketStatus::Unknown(t) => {
                let t = t.as_str();
                if crate::consumer::same_text(t, "2") {
                    2
                } else if crate::consumer::same_text(t, "3") {
                    3
                } else if crate::consumer::same_text(t, "4") {
                    4
                } else if crate::consumer::same_text(t, "5") {
                    5
                } else {
                    0
                }
            },
            _ => 0,
        }
    }

    /// A copy of the status.
    pub fn duplicate(&self) -> (r: TicketStatus)
        ensures
            r == *self,
    {
        match self {
            TicketStatus::PendingTrans => TicketStatus::PendingTrans,
            TicketStatus::PendingReply => TicketStatus::PendingReply,
            TicketStatus::PendingAudit => TicketStatus::PendingAudit,
            TicketStatus::Completed => TicketStatus::Completed,
            TicketStatus::Unknown(t) => TicketStatus::Unknown(t.clone()),
        }
    }
}

impl Default for TicketStatus {
    fn default() -> (r: TicketStatus)
        ensures
            r == TicketStatus::PendingTrans,
    {
        TicketStatus::PendingTrans
    }
}

/// A support ticket.
#[derive(Clone, Debug)]
pub struct Ticket {
    pub id: u64,
    pub external_id: Option<String>,
    pub subject: Option<String>,
    pub description_text: Option<String>,
    pub content: Option<String>,
    pub status: TicketStatus,
    pub priority: i32,
    pub created_at: Option<String>,
    pub updated_at: Option<String>,
    pub requester_id: Option<u64>,
    pub responder_id: Option<u64>,
    pub cc_emails: Vec<String>,
    pub conversations: Vec<Conversation>,
    /// The languages that translations of this ticket exist in.
    pub available_langs: Vec<String>,
}

impl Ticket {
    /// A field-by-field copy.
    pub fn duplicate(&self) -> (r: Ticket)
        ensures
            r.id == self.id,
            r.external_id == self.external_id,
            r.subject == self.subject,
            r.description_text == self.description_text,
            r.content == self.content,
            r.status == self.status,
            r.priority == self.priority,
            r.created_at == self.created_at,
            r.updated_at == self.updated_at,
            r.requester_id == self.requester_id,
            r.responder_id == self.responder_id,
            r.cc_emails@ == self.cc_emails@,
            r.conversations@ == self.conversations@,
            r.available_langs@ == self.available_langs@,
    {
        Ticket {
            id: self.id,
            external_id: copy_text(&self.external_id),
            subject: copy_text(&self.subject),
            description_text: copy_text(&self.description_text),
            content: copy_text(&self.content),
            status: self.status.duplicate(),
            priority: self.priority,
            created_at: copy_text(&self.created_at),
            updated_at: copy_text(&self.updated_at),
            requester_id: self.requester_id,
            responder_id: self.responder_id,
            cc_emails: copy_texts(&self.cc_emails),
            conversations: copy_conversations(&self.conversations),
            available_langs: copy_texts(&self.available_langs),
        }
    }
}

/// When the last incremental sync saw its newest update.
#[derive(Clone, Debug)]
pub struct SyncState {
    pub last_updated_at: Option<String>,
}

} // verus!
