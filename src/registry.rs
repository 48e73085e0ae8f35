//! The consumer's task registry: whether the loop runs, the tasks in flight,
//! the most recent outcomes, and the completion slots that wait for an
//! external actor.

use std::collections::HashMap;
use vstd::prelude::*;

use crate::consumer::{handlers_after, HandlerEvent, PollEvent};
use crate::text::{decimal_text, i64_text};

verus! {

broadcast use vstd::std_specs::hash::group_hash_axioms;

/// How many outcomes the registry keeps; older ones are dropped first.
pub const COMPLETED_CAPACITY: usize = 100;

/// A task that a handler has accepted and not yet finished.
#[derive(Clone, Debug)]
pub struct TranslatingTicket {
    pub ticket_id: i64,
    pub external_id: String,
    pub subject: String,
    /// Milliseconds since the Unix epoch.
    pub started_at: i64,
}

impl TranslatingTicket {
    /// A field-by-field copy.
    pub fn duplicate(&self) -> (r: TranslatingTicket)
        ensures
            r == *self,
    {
        TranslatingTicket {
            ticket_id: self.ticket_id,
            external_id: self.external_id.clone(),
            subject: self.subject.clone(),
            started_at: self.started_at,
        }
    }
}

/// The recorded outcome of one finished task.
#[derive(Clone, Debug)]
pub struct CompletedTicket {
    pub ticket_id: i64,
    pub external_id: String,
    pub subject: String,
    pub started_at: i64,
    pub completed_at: i64,
    pub duration_ms: i64,
    pub success: bool,
    pub error_message: Option<String>,
}

impl CompletedTicket {
    /// A field-by-field copy.
    pub fn duplicate(&self) -> (r: CompletedTicket)
        ensures
            r == *self,
    {
        CompletedTicket {
            ticket_id: self.ticket_id,
            external_id: self.external_id.clone(),
            subject: self.subject.clone(),
            started_at: self.started_at,
            completed_at: self.completed_at,
            duration_ms: self.duration_ms,
            success: self.success,
            error_message: match &self.error_message {
                Some(m) => Some(m.clone()),
                None => None,
            },
        }
    }
}

/// Why a task failed.
#[derive(Clone, Debug)]
pub enum TaskError {
    /// The ticket could not be fetched from the upstream API.
    UpstreamFetch(String),
    /// The translation collaborator failed or gave output that did not parse.
    Translation(String),
    /// The local copy could not be written.
    Storage(String),
    /// The upstream API refused the submitted result.
    Submission(String),
    /// The work request could not be handed to the external actor.
    Notification(String),
    /// The external actor reported that it failed.
    ExternalActorFailure,
    /// The external actor did not report within the time allowed.
    TaskTimeout,
}

/// The human-readable text of a task error.
pub open spec fn error_text(e: TaskError) -> Seq<char> {
    match e {
        TaskError::UpstreamFetch(s) => s@,
        TaskError::Translation(s) => s@,
        TaskError::Storage(s) => s@,
        TaskError::Submission(s) => s@,
        TaskError::Notification(s) => s@,
        TaskError::ExternalActorFailure => "Frontend reported failure in reply task"@,
        TaskError::TaskTimeout => "Reply task timed out"@,
    }
}

impl TaskError {
    /// The text recorded in the task's outcome.
    pub fn message(&self) -> (r: String)
        ensures
            r@ == error_text(*self),
    {
        match self {
            TaskError::UpstreamFetch(s) => s.clone(),
            TaskError::Translation(s) => s.clone(),
            TaskError::Storage(s) => s.clone(),
            TaskError::Submission(s) => s.clone(),
            TaskError::Notification(s) => s.clone(),
            TaskError::ExternalActorFailure => String::from_str(
                "Frontend reported failure in reply task",
            ),
            TaskError::TaskTimeout => String::from_str("Reply task timed out"),
        }
    }
}

/// What is done with a delivery once its handler is through with it.
#[derive(Clone, Copy, Debug, PartialEq, Eq, Structural)]
pub enum Disposition {
    /// Acknowledge: the broker forgets the message.
    Ack,
    /// Negative acknowledgement without requeue: the broker dead-letters it.
    Nack,
}

/// The disposition that a task's result calls for.
pub open spec fn disposition_of(result: Result<(), TaskError>) -> Disposition {
    match result {
        Ok(_) => Disposition::Ack,
        Err(_) => Disposition::Nack,
    }
}

/// `completeTask` named a task that is not waiting for the external actor.
#[derive(Clone, Copy, Debug, PartialEq, Eq, Structural)]
pub struct NotFoundError {
    pub ticket_id: i64,
}

impl NotFoundError {
    /// "No pending {kind} task found for ticket #{id}".
    pub fn message(&self, kind: &str) -> (r: String)
        ensures
            r@ == "No pending "@ + kind@ + " task found for ticket #"@ + decimal_text(
                self.ticket_id as int,
            ),
    {
        let mut r = String::from_str("No pending ");
        r.append(kind);
        r.append(" task found for ticket #");
        let id = i64_text(self.ticket_id);
        r.append(id.as_str());
        r
    }
}

/// The consumer loop was asked to start while it was already running.
#[derive(Clone, Copy, Debug, PartialEq, Eq, Structural)]
pub struct AlreadyRunning;

/// `x` limited to the range of `i64`.
pub open spec fn clamp_i64(x: int) -> int {
    if x > i64::MAX {
        i64::MAX as int
    } else if x < i64::MIN {
        i64::MIN as int
    } else {
        x
    }
}

/// Milliseconds from `started_at` to `completed_at`, saturated to `i64`.
pub fn duration_between(started_at: i64, completed_at: i64) -> (d: i64)
    ensures
        d as int == clamp_i64(completed_at as int - started_at as int),
{
    let diff: i128 = completed_at as i128 - started_at as i128;
    if diff > i64::MAX as i128 {
        i64::MAX
    } else if diff < i64::MIN as i128 {
        i64::MIN
    } else {
        diff as i64
    }
}

/// `o` records that the task `task` ended at `completed_at` with `result`.
pub open spec fn is_outcome_of(
    o: CompletedTicket,
    task: TranslatingTicket,
    completed_at: i64,
    result: Result<(), TaskError>,
) -> bool {
    &&& o.ticket_id == task.ticket_id
    &&& o.external_id == task.external_id
    &&& o.subject == task.subject
    &&& o.started_at == task.started_at
    &&& o.completed_at == completed_at
    &&& o.duration_ms as int == clamp_i64(completed_at as int - task.started_at as int)
    &&& o.success == result is Ok
    &&& match result {
        Ok(_) => o.error_message is None,
        Err(e) => o.error_message is Some && o.error_message->0@ == error_text(e),
    }
}

/// Builds the outcome of `task`.
pub fn outcome_of(task: TranslatingTicket, completed_at: i64, result: &Result<(), TaskError>) -> (o:
    CompletedTicket)
    ensures
        is_outcome_of(o, task, completed_at, *result),
{
    let error_message = match result {
        Ok(_) => None,
        Err(e) => Some(e.message()),
    };
    CompletedTicket {
        ticket_id: task.ticket_id,
        external_id: task.external_id,
        subject: task.subject,
        started_at: task.started_at,
        completed_at,
        duration_ms: duration_between(task.started_at, completed_at),
        success: result.is_ok(),
        error_message,
    }
}

/// `o` records that the deferred task `ticket_id`, started at `started_at`,
/// ended at `completed_at` with `result`. Its reference and subject are those
/// recorded in flight (`in_flight`), or, if the task was not there, its id
/// and "Reply Task".
pub open spec fn is_deferred_outcome(
    o: CompletedTicket,
    in_flight: Seq<TranslatingTicket>,
    ticket_id: i64,
    started_at: i64,
    completed_at: i64,
    result: Result<(), TaskError>,
) -> bool {
    &&& o.ticket_id == ticket_id
    &&& o.started_at == started_at
    &&& o.completed_at == completed_at
    &&& o.duration_ms as int == clamp_i64(completed_at as int - started_at as int)
    &&& o.success == result is Ok
    &&& match result {
        Ok(_) => o.error_message is None,
        Err(e) => o.error_message is Some && o.error_message->0@ == error_text(e),
    }
    &&& (exists|j: int|
        0 <= j < in_flight.len() && in_flight[j].ticket_id == ticket_id && o.external_id
            == in_flight[j].external_id && o.subject == in_flight[j].subject) || ((forall|j: int|
        0 <= j < in_flight.len() ==> in_flight[j].ticket_id != ticket_id) && o.external_id@
        == decimal_text(ticket_id as int) && o.subject@ == "Reply Task"@)
}

/// The newest-first list of outcomes after `o` is recorded in front of `c`.
pub open spec fn push_outcome(c: Seq<CompletedTicket>, o: CompletedTicket) -> Seq<CompletedTicket> {
    let n = if c.len() < COMPLETED_CAPACITY {
        c.len()
    } else {
        (COMPLETED_CAPACITY - 1) as nat
    };
    seq![o] + c.take(n as int)
}

/// The ticket ids of a list of tasks.
pub open spec fn ids_of(s: Seq<TranslatingTicket>) -> Seq<i64> {
    s.map_values(|t: TranslatingTicket| t.ticket_id)
}

/// `s` without the task whose id is `id`.
pub open spec fn without_id(s: Seq<TranslatingTicket>, id: i64) -> Seq<TranslatingTicket> {
    s.filter(|t: TranslatingTicket| t.ticket_id != id)
}

/// What the status query shows.
#[derive(Clone, Debug)]
pub struct ConsumerStatus {
    pub is_running: bool,
    pub batch_size: u32,
    pub current_task: Option<String>,
    pub translating_tickets: Vec<TranslatingTicket>,
    pub completed_tickets: Vec<CompletedTicket>,
}

/// The state that the consume loop, its handlers and the command surface share.
/// `S` is the one-shot sender through which a waiting task is signalled.
/// `new` establishes `wf` and every method keeps it, so any value that
/// callers can hold is well formed.
pub struct MqConsumerState<S> {
    is_running: bool,
    current_task: Option<String>,
    batch_size: u32,
    prefetch: u16,
    active_handlers: u16,
    translating_tickets: Vec<TranslatingTicket>,
    completed_tickets: Vec<CompletedTicket>,
    pending_acks: HashMap<i64, S>,
}

impl<S> MqConsumerState<S> {
    /// Whether the consume loop should go on.
    pub closed spec fn running(&self) -> bool {
        self.is_running
    }

    /// The configured concurrency limit.
    pub closed spec fn limit(&self) -> u32 {
        self.batch_size
    }

    /// The prefetch count of the current channel.
    pub closed spec fn prefetch_count(&self) -> u16 {
        self.prefetch
    }

    /// How many handlers are running.
    pub closed spec fn handlers(&self) -> u16 {
        self.active_handlers
    }

    /// The tasks in flight, in the order they were accepted.
    pub closed spec fn in_flight(&self) -> Seq<TranslatingTicket> {
        self.translating_tickets@
    }

    /// The recorded outcomes, newest first.
    pub closed spec fn completed(&self) -> Seq<CompletedTicket> {
        self.completed_tickets@
    }

    /// The completion slots, by task id.
    pub closed spec fn pending(&self) -> Map<i64, S> {
        self.pending_acks@
    }

    /// The label of the task being worked on, if any.
    pub closed spec fn current(&self) -> Option<String> {
        self.current_task
    }

    /// The registry's invariant: at most `COMPLETED_CAPACITY` outcomes, and
    /// each task id at most once in flight.
    pub closed spec fn wf(&self) -> bool {
        &&& self.completed_tickets@.len() <= COMPLETED_CAPACITY
        &&& ids_of(self.translating_tickets@).no_duplicates()
    }

    /// An idle registry with a concurrency limit of 1.
    pub fn new() -> (r: Self)
        ensures
            r.wf(),
            !r.running(),
            r.limit() == 1,
            r.prefetch_count() == 0,
            r.handlers() == 0,
            r.current() is None,
            r.in_flight().len() == 0,
            r.completed().len() == 0,
            r.pending() == Map::<i64, S>::empty(),
    {
        let r = MqConsumerState {
            is_running: false,
            current_task: None,
            batch_size: 1,
            prefetch: 0,
            active_handlers: 0,
            translating_tickets: Vec::new(),
            completed_tickets: Vec::new(),
            pending_acks: HashMap::new(),
        };
        proof {
            assert(ids_of(r.translating_tickets@) =~= Seq::<i64>::empty());
        }
        r
    }

    /// Whether the consume loop should go on.
    pub fn is_running(&self) -> (r: bool)
        ensures
            r == self.running(),
    {
        self.is_running
    }

    /// The configured concurrency limit.
    pub fn batch_size(&self) -> (r: u32)
        ensures
            r == self.limit(),
    {
        self.batch_size
    }

    /// Sets the concurrency limit; it takes effect on the next start.
    pub fn set_batch_size(&mut self, batch_size: u32)
        requires
            old(self).wf(),
        ensures
            final(self).wf(),
            final(self).current() == old(self).current(),
            final(self).limit() == batch_size,
            final(self).running() == old(self).running(),
            final(self).prefetch_count() == old(self).prefetch_count(),
            final(self).handlers() == old(self).handlers(),
            final(self).in_flight() == old(self).in_flight(),
            final(self).completed() == old(self).completed(),
            final(self).pending() == old(self).pending(),
    {
        self.batch_size = batch_size;
    }

    /// Claims the loop: fails, changing nothing, if it already runs.
    pub fn try_start(&mut self) -> (r: Result<(), AlreadyRunning>)
        requires
            old(self).wf(),
        ensures
            final(self).wf(),
            final(self).current() == old(self).current(),
            r is Ok <==> !old(self).running(),
            final(self).running(),
            final(self).limit() == old(self).limit(),
            final(self).prefetch_count() == old(self).prefetch_count(),
            final(self).handlers() == old(self).handlers(),
            final(self).in_flight() == old(self).in_flight(),
            final(self).completed() == old(self).completed(),
            final(self).pending() == old(self).pending(),
    {
        if self.is_running {
            Err(AlreadyRunning)
        } else {
            self.is_running = true;
            Ok(())
        }
    }

    /// Asks the loop to stop; handlers in flight run on.
    pub fn stop(&mut self)
        requires
            old(self).wf(),
        ensures
            final(self).wf(),
            final(self).current() == old(self).current(),
            !final(self).running(),
            final(self).limit() == old(self).limit(),
            final(self).prefetch_count() == old(self).prefetch_count(),
            final(self).handlers() == old(self).handlers(),
            final(self).in_flight() == old(self).in_flight(),
            final(self).completed() == old(self).completed(),
            final(self).pending() == old(self).pending(),
    {
        self.is_running = false;
    }

    /// Records the prefetch count negotiated for the channel.
    pub fn set_prefetch(&mut self, prefetch: u16)
        requires
            old(self).wf(),
        ensures
            final(self).wf(),
            final(self).current() == old(self).current(),
            final(self).prefetch_count() == prefetch,
            final(self).running() == old(self).running(),
            final(self).limit() == old(self).limit(),
            final(self).handlers() == old(self).handlers(),
            final(self).in_flight() == old(self).in_flight(),
            final(self).completed() == old(self).completed(),
            final(self).pending() == old(self).pending(),
    {
        self.prefetch = prefetch;
    }

    /// A delivery was handed to a new handler. The count is an observation
    /// of the broker's window: nothing waits on it.
    pub fn handler_started(&mut self)
        requires
            old(self).wf(),
        ensures
            final(self).wf(),
            final(self).current() == old(self).current(),
            final(self).handlers() == if old(self).handlers() < u16::MAX {
                (old(self).handlers() + 1) as u16
            } else {
                u16::MAX
            },
            old(self).handlers() < u16::MAX ==> final(self).handlers() as nat == handlers_after(
                old(self).handlers() as nat,
                old(self).prefetch_count() as nat,
                HandlerEvent::Poll(PollEvent::Delivery),
            ),
            final(self).prefetch_count() == old(self).prefetch_count(),
            final(self).running() == old(self).running(),
            final(self).limit() == old(self).limit(),
            final(self).in_flight() == old(self).in_flight(),
            final(self).completed() == old(self).completed(),
            final(self).pending() == old(self).pending(),
    {
        if self.active_handlers < u16::MAX {
            self.active_handlers = self.active_handlers + 1;
        }
    }

    /// A handler has settled its delivery.
    pub fn handler_done(&mut self)
        requires
            old(self).wf(),
        ensures
            final(self).wf(),
            final(self).current() == old(self).current(),
            final(self).handlers() == if old(self).handlers() > 0 {
                (old(self).handlers() - 1) as u16
            } else {
                0
            },
            final(self).handlers() as nat == handlers_after(
                old(self).handlers() as nat,
                old(self).prefetch_count() as nat,
                HandlerEvent::Done,
            ),
            final(self).prefetch_count() == old(self).prefetch_count(),
            final(self).running() == old(self).running(),
            final(self).limit() == old(self).limit(),
            final(self).in_flight() == old(self).in_flight(),
            final(self).completed() == old(self).completed(),
            final(self).pending() == old(self).pending(),
    {
        if self.active_handlers > 0 {
            self.active_handlers = self.active_handlers - 1;
        }
    }

    /// Where the task `id` stands in flight, if it does.
    fn find_in_flight(&self, id: i64) -> (r: Option<usize>)
        ensures
            match r {
                Some(i) => i < self.in_flight().len() && self.in_flight()[i as int].ticket_id
                    == id,
                None => forall|j: int|
                    0 <= j < self.in_flight().len() ==> self.in_flight()[j].ticket_id != id,
            },
    {
        let mut i: usize = 0;
        while i < self.translating_tickets.len()
            invariant
                i <= self.translating_tickets@.len(),
                forall|j: int| 0 <= j < i ==> self.translating_tickets@[j].ticket_id != id,
            decreases self.translating_tickets@.len() - i,
        {
            if self.translating_tickets[i].ticket_id == id {
                return Some(i);
            }
            i = i + 1;
        }
        None
    }

    /// Takes the task `id` out of the in-flight list, if it is there.
    fn take_in_flight(&mut self, id: i64) -> (r: Option<TranslatingTicket>)
        requires
            old(self).wf(),
        ensures
            final(self).wf(),
            final(self).current() == old(self).current(),
            final(self).in_flight() == without_id(old(self).in_flight(), id),
            match r {
                Some(t) => t.ticket_id == id && old(self).in_flight().contains(t),
                None => forall|j: int|
                    0 <= j < old(self).in_flight().len() ==> old(self).in_flight()[j].ticket_id
                        != id,
            },
            final(self).running() == old(self).running(),
            final(self).limit() == old(self).limit(),
            final(self).prefetch_count() == old(self).prefetch_count(),
            final(self).handlers() == old(self).handlers(),
            final(self).completed() == old(self).completed(),
            final(self).pending() == old(self).pending(),
    {
        let ghost s = self.translating_tickets@;
        match self.find_in_flight(id) {
            Some(i) => {
                let t = self.translating_tickets.remove(i);
                proof {
                    lemma_remove_unique_id(s, i as int);
                }
                Some(t)
            },
            None => {
                proof {
                    lemma_filter_keeps_all(s, id);
                }
                None
            },
        }
    }

    /// Accepts a task: it is in flight from now on, in place of any earlier
    /// entry with its id.
    pub fn accept(&mut self, task: TranslatingTicket)
        requires
            old(self).wf(),
        ensures
            final(self).wf(),
            final(self).current() == old(self).current(),
            final(self).in_flight() == without_id(old(self).in_flight(), task.ticket_id).push(
                task,
            ),
            final(self).running() == old(self).running(),
            final(self).limit() == old(self).limit(),
            final(self).prefetch_count() == old(self).prefetch_count(),
            final(self).handlers() == old(self).handlers(),
            final(self).completed() == old(self).completed(),
            final(self).pending() == old(self).pending(),
    {
        let id = task.ticket_id;
        let _ = self.take_in_flight(id);
        let ghost s = self.translating_tickets@;
        self.translating_tickets.push(task);
        proof {
            lemma_push_fresh_id(s, task);
        }
    }

    /// Fills in what became known of the in-flight task `id`; nothing
    /// happens if it is not in flight.
    pub fn update_in_flight(&mut self, id: i64, external_id: String, subject: String)
        requires
            old(self).wf(),
        ensures
            final(self).wf(),
            final(self).current() == old(self).current(),
            final(self).in_flight().len() == old(self).in_flight().len(),
            forall|j: int|
                0 <= j < old(self).in_flight().len() ==> #[trigger] final(self).in_flight()[j]
                    == if old(self).in_flight()[j].ticket_id == id {
                    TranslatingTicket {
                        ticket_id: id,
                        external_id,
                        subject,
                        started_at: old(self).in_flight()[j].started_at,
                    }
                } else {
                    old(self).in_flight()[j]
                },
            final(self).running() == old(self).running(),
            final(self).limit() == old(self).limit(),
            final(self).prefetch_count() == old(self).prefetch_count(),
            final(self).handlers() == old(self).handlers(),
            final(self).completed() == old(self).completed(),
            final(self).pending() == old(self).pending(),
    {
        if let Some(i) = self.find_in_flight(id) {
            let started_at = self.translating_tickets[i].started_at;
            let t = TranslatingTicket { ticket_id: id, external_id, subject, started_at };
            let ghost s = self.translating_tickets@;
            self.translating_tickets.set(i, t);
            proof {
                assert(ids_of(self.translating_tickets@) =~= ids_of(s));
                assert forall|j: int| 0 <= j < s.len() && j != i implies s[j].ticket_id != id by {
                    assert(ids_of(s)[j] == s[j].ticket_id);
                    assert(ids_of(s)[i as int] == s[i as int].ticket_id);
                }
            }
        }
    }

    /// Records an outcome in front of the others, dropping the oldest one if
    /// the list is full.
    fn record_outcome(&mut self, o: CompletedTicket)
        requires
            old(self).wf(),
        ensures
            final(self).wf(),
            final(self).current() == old(self).current(),
            final(self).completed() == push_outcome(old(self).completed(), o),
            final(self).in_flight() == old(self).in_flight(),
            final(self).running() == old(self).running(),
            final(self).limit() == old(self).limit(),
            final(self).prefetch_count() == old(self).prefetch_count(),
            final(self).handlers() == old(self).handlers(),
            final(self).pending() == old(self).pending(),
    {
        let ghost c = self.completed_tickets@;
        self.completed_tickets.insert(0, o);
        if self.completed_tickets.len() > COMPLETED_CAPACITY {
            self.completed_tickets.truncate(COMPLETED_CAPACITY);
        }
        proof {
            assert(self.completed_tickets@ =~= push_outcome(c, o));
        }
    }

    /// Registers the completion slot of task `id` before the external actor
    /// is asked to work on it; hands back the slot it replaces, if any.
    pub fn register_pending(&mut self, id: i64, slot: S) -> (r: Option<S>)
        requires
            old(self).wf(),
        ensures
            final(self).wf(),
            final(self).current() == old(self).current(),
            final(self).pending() == old(self).pending().insert(id, slot),
            match r {
                Some(s) => old(self).pending().contains_key(id) && s == old(self).pending()[id],
                None => !old(self).pending().contains_key(id),
            },
            final(self).running() == old(self).running(),
            final(self).limit() == old(self).limit(),
            final(self).prefetch_count() == old(self).prefetch_count(),
            final(self).handlers() == old(self).handlers(),
            final(self).in_flight() == old(self).in_flight(),
            final(self).completed() == old(self).completed(),
    {
        self.pending_acks.insert(id, slot)
    }

    /// The external actor reports on task `id`: its slot is taken out and
    /// handed back to be signalled. Fails, changing nothing, when no task
    /// with that id is waiting.
    pub fn complete_task(&mut self, id: i64) -> (r: Result<S, NotFoundError>)
        requires
            old(self).wf(),
        ensures
            final(self).wf(),
            final(self).current() == old(self).current(),
            r is Ok <==> old(self).pending().contains_key(id),
            match r {
                Ok(s) => s == old(self).pending()[id] && final(self).pending() == old(
                    self,
                ).pending().remove(id),
                Err(e) => e.ticket_id == id && *final(self) == *old(self),
            },
            final(self).running() == old(self).running(),
            final(self).limit() == old(self).limit(),
            final(self).prefetch_count() == old(self).prefetch_count(),
            final(self).handlers() == old(self).handlers(),
            final(self).in_flight() == old(self).in_flight(),
            final(self).completed() == old(self).completed(),
    {
        if !self.pending_acks.contains_key(&id) {
            return Err(NotFoundError { ticket_id: id });
        }
        match self.pending_acks.remove(&id) {
            Some(s) => Ok(s),
            None => Err(NotFoundError { ticket_id: id }),
        }
    }

    /// Drops the slot of task `id`; nothing happens if there is none.
    fn drop_pending(&mut self, id: i64)
        requires
            old(self).wf(),
        ensures
            final(self).wf(),
            final(self).current() == old(self).current(),
            final(self).pending() == old(self).pending().remove(id),
            final(self).running() == old(self).running(),
            final(self).limit() == old(self).limit(),
            final(self).prefetch_count() == old(self).prefetch_count(),
            final(self).handlers() == old(self).handlers(),
            final(self).in_flight() == old(self).in_flight(),
            final(self).completed() == old(self).completed(),
    {
        let _ = self.pending_acks.remove(&id);
    }

    /// Ends a task that did its work itself: it leaves the in-flight list,
    /// its outcome is recorded from `task`, and the disposition follows its
    /// result.
    pub fn finish_direct(
        &mut self,
        task: TranslatingTicket,
        completed_at: i64,
        result: Result<(), TaskError>,
    ) -> (d: Disposition)
        requires
            old(self).wf(),
        ensures
            final(self).wf(),
            final(self).current() == old(self).current(),
            d == disposition_of(result),
            final(self).in_flight() == without_id(old(self).in_flight(), task.ticket_id),
            final(self).completed().len() >= 1,
            is_outcome_of(final(self).completed()[0], task, completed_at, result),
            final(self).completed().drop_first() == old(self).completed().take(
                final(self).completed().len() - 1,
            ),
            final(self).completed() == push_outcome(
                old(self).completed(),
                final(self).completed()[0],
            ),
            final(self).pending() == old(self).pending().remove(task.ticket_id),
            final(self).running() == old(self).running(),
            final(self).limit() == old(self).limit(),
            final(self).prefetch_count() == old(self).prefetch_count(),
            final(self).handlers() == old(self).handlers(),
    {
        let id = task.ticket_id;
        let _ = self.take_in_flight(id);
        let o = outcome_of(task, completed_at, &result);
        self.record_outcome(o);
        self.drop_pending(id);
        proof {
            assert(self.completed_tickets@.drop_first() =~= old(self).completed().take(
                self.completed_tickets@.len() - 1,
            ));
        }
        match result {
            Ok(_) => Disposition::Ack,
            Err(_) => Disposition::Nack,
        }
    }

    /// Ends a task that waited for the external actor. Its outcome takes the
    /// reference and subject recorded in flight, or, if the task is no longer
    /// there, its id as reference and "Reply Task" as subject. The task's
    /// completion slot is gone afterwards, whoever removed it first.
    pub fn finish_deferred(
        &mut self,
        ticket_id: i64,
        started_at: i64,
        completed_at: i64,
        result: Result<(), TaskError>,
    ) -> (d: Disposition)
        requires
            old(self).wf(),
        ensures
            final(self).wf(),
            final(self).current() == old(self).current(),
            d == disposition_of(result),
            final(self).in_flight() == without_id(old(self).in_flight(), ticket_id),
            final(self).completed().len() >= 1,
            final(self).completed() == push_outcome(
                old(self).completed(),
                final(self).completed()[0],
            ),
            is_deferred_outcome(
                final(self).completed()[0],
                old(self).in_flight(),
                ticket_id,
                started_at,
                completed_at,
                result,
            ),
            !final(self).pending().contains_key(ticket_id),
            final(self).pending() == old(self).pending().remove(ticket_id),
            final(self).running() == old(self).running(),
            final(self).limit() == old(self).limit(),
            final(self).prefetch_count() == old(self).prefetch_count(),
            final(self).handlers() == old(self).handlers(),
    {
        let ghost s = self.translating_tickets@;
        let (external_id, subject) = match self.take_in_flight(ticket_id) {
            Some(t) => {
                proof {
                    let j = s.index_of(t);
                    assert(0 <= j < s.len() && s[j] == t);
                }
                (t.external_id, t.subject)
            },
            None => (i64_text(ticket_id), String::from_str("Reply Task")),
        };
        let task = TranslatingTicket { ticket_id, external_id, subject, started_at };
        let o = outcome_of(task, completed_at, &result);
        self.record_outcome(o);
        self.drop_pending(ticket_id);
        match result {
            Ok(_) => Disposition::Ack,
            Err(_) => Disposition::Nack,
        }
    }

    /// A copy of what the status query shows, taken without changing anything.
    pub fn status(&self) -> (r: ConsumerStatus)
        ensures
            r.is_running == self.running(),
            r.batch_size == self.limit(),
            r.current_task == self.current(),
            r.translating_tickets@ == self.in_flight(),
            r.completed_tickets@ == self.completed(),
    {
        let mut translating: Vec<TranslatingTicket> = Vec::new();
        let mut i: usize = 0;
        while i < self.translating_tickets.len()
            invariant
                i <= self.translating_tickets@.len(),
                translating@ == self.translating_tickets@.take(i as int),
            decreases self.translating_tickets@.len() - i,
        {
            translating.push(self.translating_tickets[i].duplicate());
            i = i + 1;
            proof {
                assert(translating@ =~= self.translating_tickets@.take(i as int));
            }
        }
        let mut completed: Vec<CompletedTicket> = Vec::new();
        let mut k: usize = 0;
        while k < self.completed_tickets.len()
            invariant
                k <= self.completed_tickets@.len(),
                completed@ == self.completed_tickets@.take(k as int),
            decreases self.completed_tickets@.len() - k,
        {
            completed.push(self.completed_tickets[k].duplicate());
            k = k + 1;
            proof {
                assert(completed@ =~= self.completed_tickets@.take(k as int));
            }
        }
        proof {
            assert(translating@ =~= self.translating_tickets@);
            assert(completed@ =~= self.completed_tickets@);
        }
        let current_task = match &self.current_task {
            Some(c) => Some(c.clone()),
            None => None,
        };
        ConsumerStatus {
            is_running: self.is_running,
            batch_size: self.batch_size,
            current_task,
            translating_tickets: translating,
            completed_tickets: completed,
        }
    }
}

/// The registry never holds more than `COMPLETED_CAPACITY` outcomes.
pub proof fn lemma_completed_bounded<S>(s: MqConsumerState<S>)
    requires
        s.wf(),
    ensures
        s.completed().len() <= COMPLETED_CAPACITY,
{
}

/// Recording an outcome in a list within the capacity keeps it within the
/// capacity, puts the new outcome first, and, when the list was full, drops
/// exactly the oldest outcome.
pub proof fn lemma_full_list_evicts_oldest(c: Seq<CompletedTicket>, o: CompletedTicket)
    requires
        c.len() <= COMPLETED_CAPACITY,
    ensures
        push_outcome(c, o).len() <= COMPLETED_CAPACITY,
        push_outcome(c, o)[0] == o,
        c.len() < COMPLETED_CAPACITY ==> push_outcome(c, o).drop_first() == c,
        c.len() == COMPLETED_CAPACITY ==> push_outcome(c, o).drop_first() == c.drop_last(),
{
    assert(push_outcome(c, o).drop_first() =~= c.take(push_outcome(c, o).len() - 1));
    if c.len() < COMPLETED_CAPACITY {
        assert(c.take(c.len() as int) =~= c);
    } else {
        assert(c.take(c.len() - 1) =~= c.drop_last());
    }
}

/// Removing the entry at `i` from a list with unique ids removes exactly the
/// entries with that id, and the ids stay unique.
proof fn lemma_remove_unique_id(s: Seq<TranslatingTicket>, i: int)
    requires
        0 <= i < s.len(),
        ids_of(s).no_duplicates(),
    ensures
        s.remove(i) == without_id(s, s[i].ticket_id),
        ids_of(s.remove(i)).no_duplicates(),
    decreases s.len(),
{
    let id = s[i].ticket_id;
    assert forall|j: int| 0 <= j < s.len() && j != i implies s[j].ticket_id != id by {
        assert(ids_of(s)[j] == s[j].ticket_id);
        assert(ids_of(s)[i] == s[i].ticket_id);
    }
    lemma_filter_split(s, i, id);
    assert(ids_of(s.remove(i)) =~= ids_of(s).remove(i));
}

/// Filtering a list in which only entry `i` has id `id` is removing entry `i`.
proof fn lemma_filter_split(s: Seq<TranslatingTicket>, i: int, id: i64)
    requires
        0 <= i < s.len(),
        s[i].ticket_id == id,
        forall|j: int| 0 <= j < s.len() && j != i ==> s[j].ticket_id != id,
    ensures
        s.remove(i) == without_id(s, id),
    decreases s.len(),
{
    reveal(Seq::filter);
    if i == s.len() - 1 {
        lemma_filter_keeps_all(s.drop_last(), id);
        assert(s.drop_last() =~= s.remove(i));
    } else {
        lemma_filter_split(s.drop_last(), i, id);
        assert(s.remove(i) =~= s.drop_last().remove(i).push(s.last()));
    }
}

/// Filtering out an id that no entry has keeps the list as it is.
proof fn lemma_filter_keeps_all(s: Seq<TranslatingTicket>, id: i64)
    requires
        forall|j: int| 0 <= j < s.len() ==> s[j].ticket_id != id,
    ensures
        without_id(s, id) == s,
    decreases s.len(),
{
    reveal(Seq::filter);
    if s.len() > 0 {
        lemma_filter_keeps_all(s.drop_last(), id);
        assert(s.drop_last().push(s.last()) =~= s);
    } else {
        assert(without_id(s, id) =~= s);
    }
}

/// Appending a task whose id is absent keeps the ids unique.
proof fn lemma_push_fresh_id(s: Seq<TranslatingTicket>, t: TranslatingTicket)
    requires
        ids_of(s).no_duplicates(),
        forall|j: int| 0 <= j < s.len() ==> s[j].ticket_id != t.ticket_id,
    ensures
        ids_of(s.push(t)).no_duplicates(),
{
    assert(ids_of(s.push(t)) =~= ids_of(s).push(t.ticket_id));
    assert forall|a: int, b: int|
        0 <= a < b < s.len() + 1 implies ids_of(s.push(t))[a] != ids_of(s.push(t))[b] by {
        if b == s.len() {
            assert(ids_of(s)[a] == s[a].ticket_id);
        }
    }
}

} // verus!
