//! The life of one delivery: its decoded message, the task it starts, the
//! wait on the external actor, and the single acknowledgement it ends with.

use vstd::prelude::*;

use crate::consumer::QueueKind;
use crate::registry::{
    disposition_of, without_id, Disposition, MqConsumerState, TaskError, TranslatingTicket,
};

verus! {

/// How long a deferred task waits for the external actor, in seconds.
pub const REPLY_TIMEOUT_SECS: u64 = 300;

/// The task part of a translate message.
#[derive(Clone, Debug)]
pub struct TranslationPayload {
    pub external_id: String,
    pub subject: Option<String>,
    pub content: Option<String>,
}

/// A message of the translate queue.
#[derive(Clone, Debug)]
pub struct TranslationMessage {
    pub msg_id: String,
    pub ticket_id: i64,
    pub timestamp: i64,
    pub payload: TranslationPayload,
}

/// A message of the reply queue.
#[derive(Clone, Debug)]
pub struct ReplyMessage {
    pub msg_id: String,
    pub ticket_id: i64,
    pub timestamp: i64,
}

/// The text that stands for what a reply task has not yet learned.
pub open spec fn loading_text() -> Seq<char> {
    "Loading..."@
}

/// The in-flight record of a translate task started at `started_at`.
pub open spec fn is_translate_task(t: TranslatingTicket, msg: TranslationMessage, started_at: i64) -> bool {
    &&& t.ticket_id == msg.ticket_id
    &&& t.external_id == msg.payload.external_id
    &&& match msg.payload.subject {
        Some(s) => t.subject == s,
        None => t.subject@.len() == 0,
    }
    &&& t.started_at == started_at
}

/// The in-flight record of a reply task started at `started_at`.
pub open spec fn is_reply_task(t: TranslatingTicket, msg: ReplyMessage, started_at: i64) -> bool {
    &&& t.ticket_id == msg.ticket_id
    &&& t.external_id@ == loading_text()
    &&& t.subject@ == loading_text()
    &&& t.started_at == started_at
}

/// Builds the in-flight record of a translate task.
pub fn translate_task(msg: &TranslationMessage, started_at: i64) -> (t: TranslatingTicket)
    ensures
        is_translate_task(t, *msg, started_at),
{
    let subject = match &msg.payload.subject {
        Some(s) => s.clone(),
        None => String::new(),
    };
    TranslatingTicket {
        ticket_id: msg.ticket_id,
        external_id: msg.payload.external_id.clone(),
        subject,
        started_at,
    }
}

/// Builds the in-flight record of a reply task, whose reference and subject
/// are filled in once the ticket is fetched.
pub fn reply_task(msg: &ReplyMessage, started_at: i64) -> (t: TranslatingTicket)
    ensures
        is_reply_task(t, *msg, started_at),
{
    TranslatingTicket {
        ticket_id: msg.ticket_id,
        external_id: String::from_str("Loading..."),
        subject: String::from_str("Loading..."),
        started_at,
    }
}

/// How the wait on the external actor ended.
#[derive(Clone, Copy, Debug, PartialEq, Eq, Structural)]
pub enum BridgeEvent {
    /// The actor called back with this success flag.
    Signalled(bool),
    /// The time allowed ran out first.
    TimedOut,
    /// The slot was dropped without a signal.
    Abandoned,
}

/// The result of a deferred task, given how its wait ended.
pub open spec fn bridge_result_of(e: BridgeEvent) -> Result<(), TaskError> {
    match e {
        BridgeEvent::Signalled(true) => Ok(()),
        BridgeEvent::Signalled(false) => Err(TaskError::ExternalActorFailure),
        _ => Err(TaskError::TaskTimeout),
    }
}

/// Turns the end of the wait into the task's result: success only when the
/// actor signalled success.
pub fn bridge_result(e: BridgeEvent) -> (r: Result<(), TaskError>)
    ensures
        r == bridge_result_of(e),
{
    match e {
        BridgeEvent::Signalled(true) => Ok(()),
        BridgeEvent::Signalled(false) => Err(TaskError::ExternalActorFailure),
        _ => Err(TaskError::TaskTimeout),
    }
}

/// Where a delivery stands.
#[derive(Clone, Copy, Debug, PartialEq, Eq, Structural)]
pub enum FlowState {
    /// Taken from the queue, not yet decoded.
    Received,
    /// Decoded; its task is in flight.
    Working,
    /// Acknowledged or rejected; nothing more happens to it.
    Settled(Disposition),
}

/// What happens to a delivery.
pub enum FlowEvent {
    /// Its payload was decoded (`true`) or did not match the schema (`false`).
    Decoded(bool),
    /// Its task ended with this result.
    Finished(Result<(), TaskError>),
}

/// One step of a delivery: its next state, and the acknowledgement to send,
/// if this step sends one. A payload that does not decode is acknowledged,
/// so that it is not delivered again; a finished task is acknowledged on
/// success and rejected without requeue on failure. Events that do not fit
/// the state change nothing.
pub open spec fn flow_step(s: FlowState, e: FlowEvent) -> (FlowState, Option<Disposition>) {
    match (s, e) {
        (FlowState::Received, FlowEvent::Decoded(false)) => (
            FlowState::Settled(Disposition::Ack),
            Some(Disposition::Ack),
        ),
        (FlowState::Received, FlowEvent::Decoded(true)) => (FlowState::Working, None),
        (FlowState::Working, FlowEvent::Finished(r)) => (
            FlowState::Settled(disposition_of(r)),
            Some(disposition_of(r)),
        ),
        _ => (s, None),
    }
}

/// The state after a run of events, and how many acknowledgements it sent.
pub open spec fn flow_run(s: FlowState, es: Seq<FlowEvent>) -> (FlowState, nat)
    decreases es.len(),
{
    if es.len() == 0 {
        (s, 0)
    } else {
        let prev = flow_run(s, es.drop_last());
        let step = flow_step(prev.0, es.last());
        (step.0, prev.1 + if step.1 is Some {
            1nat
        } else {
            0nat
        })
    }
}

/// Every delivery is settled at most once, and it is settled exactly when
/// one acknowledgement or rejection has been sent, whatever events reach it.
pub proof fn lemma_settled_once(es: Seq<FlowEvent>)
    ensures
        flow_run(FlowState::Received, es).1 <= 1,
        flow_run(FlowState::Received, es).0 is Settled <==> flow_run(FlowState::Received, es).1
            == 1,
    decreases es.len(),
{
    if es.len() > 0 {
        lemma_settled_once(es.drop_last());
    }
}

/// A delivery that does not decode gets exactly one acknowledgement; one that
/// decodes and whose task ends gets exactly one disposition, that of its
/// result.
pub proof fn lemma_every_path_settles(r: Result<(), TaskError>)
    ensures
        flow_run(FlowState::Received, seq![FlowEvent::Decoded(false)]) == (
            FlowState::Settled(Disposition::Ack),
            1nat,
        ),
        flow_run(FlowState::Received, seq![FlowEvent::Decoded(true), FlowEvent::Finished(r)])
            == (FlowState::Settled(disposition_of(r)), 1nat),
{
    let none = Seq::<FlowEvent>::empty();
    assert(flow_run(FlowState::Received, none) == (FlowState::Received, 0nat));
    let one = seq![FlowEvent::Decoded(false)];
    assert(one.drop_last() =~= none);
    assert(flow_run(FlowState::Received, one) == (FlowState::Settled(Disposition::Ack), 1nat));
    let first = seq![FlowEvent::Decoded(true)];
    assert(first.drop_last() =~= none);
    assert(flow_run(FlowState::Received, first) == (FlowState::Working, 0nat));
    let two = seq![FlowEvent::Decoded(true), FlowEvent::Finished(r)];
    assert(two.drop_last() =~= first);
}

/// The handler's record of one delivery.
pub struct DeliveryFlow {
    state: FlowState,
}

impl DeliveryFlow {
    /// Where the delivery stands.
    pub closed spec fn stage(&self) -> FlowState {
        self.state
    }

    /// A delivery just taken from the queue.
    pub fn new() -> (r: Self)
        ensures
            r.stage() == FlowState::Received,
    {
        DeliveryFlow { state: FlowState::Received }
    }

    /// Where the delivery stands.
    pub fn current(&self) -> (r: FlowState)
        ensures
            r == self.stage(),
    {
        self.state
    }

    /// The payload did not match the queue's schema.
    pub fn on_malformed(&mut self) -> (r: Option<Disposition>)
        ensures
            (final(self).stage(), r) == flow_step(old(self).stage(), FlowEvent::Decoded(false)),
    {
        match self.state {
            FlowState::Received => {
                self.state = FlowState::Settled(Disposition::Ack);
                Some(Disposition::Ack)
            },
            _ => None,
        }
    }

    /// A translate message decoded: its task goes in flight. Hands back the
    /// task's record, needed when it finishes; nothing happens unless the
    /// delivery was just received.
    pub fn on_translate<S>(
        &mut self,
        reg: &mut MqConsumerState<S>,
        msg: &TranslationMessage,
        started_at: i64,
    ) -> (r: (Option<Disposition>, Option<TranslatingTicket>))
        requires
            old(reg).wf(),
        ensures
            final(reg).wf(),
            (final(self).stage(), r.0) == flow_step(old(self).stage(), FlowEvent::Decoded(true)),
            old(self).stage() == FlowState::Received ==> {
                &&& r.1 is Some
                &&& is_translate_task(r.1->0, *msg, started_at)
                &&& final(reg).in_flight() == without_id(old(reg).in_flight(), msg.ticket_id).push(
                    r.1->0,
                )
            },
            old(self).stage() != FlowState::Received ==> r.1 is None && *final(reg) == *old(reg),
            final(reg).completed() == old(reg).completed(),
            final(reg).pending() == old(reg).pending(),
            final(reg).running() == old(reg).running(),
            final(reg).handlers() == old(reg).handlers(),
    {
        match self.state {
            FlowState::Received => {
                let task = translate_task(msg, started_at);
                reg.accept(task.duplicate());
                self.state = FlowState::Working;
                (None, Some(task))
            },
            _ => (None, None),
        }
    }

    /// A reply message decoded: its task goes in flight, with its reference
    /// and subject still to come; nothing happens unless the delivery was
    /// just received.
    pub fn on_reply<S>(&mut self, reg: &mut MqConsumerState<S>, msg: &ReplyMessage, started_at: i64) -> (r:
        Option<Disposition>)
        requires
            old(reg).wf(),
        ensures
            final(reg).wf(),
            (final(self).stage(), r) == flow_step(old(self).stage(), FlowEvent::Decoded(true)),
            old(self).stage() == FlowState::Received ==> {
                let s = final(reg).in_flight();
                &&& s.len() >= 1
                &&& is_reply_task(s.last(), *msg, started_at)
                &&& s.drop_last() == without_id(old(reg).in_flight(), msg.ticket_id)
            },
            old(self).stage() != FlowState::Received ==> *final(reg) == *old(reg),
            final(reg).completed() == old(reg).completed(),
            final(reg).pending() == old(reg).pending(),
            final(reg).running() == old(reg).running(),
            final(reg).handlers() == old(reg).handlers(),
    {
        match self.state {
            FlowState::Received => {
                let task = reply_task(msg, started_at);
                reg.accept(task);
                self.state = FlowState::Working;
                proof {
                    let s = reg.in_flight();
                    assert(s.drop_last() =~= without_id(old(reg).in_flight(), msg.ticket_id));
                }
                None
            },
            _ => None,
        }
    }

    /// The task of a translate delivery ended: it is recorded and the
    /// delivery settled. Nothing happens unless the task was in flight.
    pub fn on_direct_finished<S>(
        &mut self,
        reg: &mut MqConsumerState<S>,
        task: TranslatingTicket,
        completed_at: i64,
        result: Result<(), TaskError>,
    ) -> (r: Option<Disposition>)
        requires
            old(reg).wf(),
        ensures
            final(reg).wf(),
            (final(self).stage(), r) == flow_step(old(self).stage(), FlowEvent::Finished(result)),
            old(self).stage() == FlowState::Working ==> {
                &&& final(reg).in_flight() == without_id(old(reg).in_flight(), task.ticket_id)
                &&& final(reg).completed().len() >= 1
                &&& crate::registry::is_outcome_of(
                    final(reg).completed()[0],
                    task,
                    completed_at,
                    result,
                )
                &&& final(reg).completed() == crate::registry::push_outcome(
                    old(reg).completed(),
                    final(reg).completed()[0],
                )
            },
            old(self).stage() != FlowState::Working ==> *final(reg) == *old(reg),
    {
        match self.state {
            FlowState::Working => {
                let d = reg.finish_direct(task, completed_at, result);
                self.state = FlowState::Settled(d);
                Some(d)
            },
            _ => None,
        }
    }

    /// The task of a reply delivery ended: it is recorded, its completion
    /// slot is gone, and the delivery settled. Nothing happens unless the
    /// task was in flight.
    pub fn on_deferred_finished<S>(
        &mut self,
        reg: &mut MqConsumerState<S>,
        ticket_id: i64,
        started_at: i64,
        completed_at: i64,
        result: Result<(), TaskError>,
    ) -> (r: Option<Disposition>)
        requires
            old(reg).wf(),
        ensures
            final(reg).wf(),
            (final(self).stage(), r) == flow_step(old(self).stage(), FlowEvent::Finished(result)),
            old(self).stage() == FlowState::Working ==> {
                &&& final(reg).in_flight() == without_id(old(reg).in_flight(), ticket_id)
                &&& !final(reg).pending().contains_key(ticket_id)
                &&& final(reg).completed().len() >= 1
                &&& crate::registry::is_deferred_outcome(
                    final(reg).completed()[0],
                    old(reg).in_flight(),
                    ticket_id,
                    started_at,
                    completed_at,
                    result,
                )
                &&& final(reg).completed() == crate::registry::push_outcome(
                    old(reg).completed(),
                    final(reg).completed()[0],
                )
            },
            old(self).stage() != FlowState::Working ==> *final(reg) == *old(reg),
    {
        match self.state {
            FlowState::Working => {
                let d = reg.finish_deferred(ticket_id, started_at, completed_at, result);
                self.state = FlowState::Settled(d);
                Some(d)
            },
            _ => None,
        }
    }
}


/// One step of a task's work.
#[derive(Clone, Copy, Debug, PartialEq, Eq, Structural)]
pub enum TaskStep {
    /// Fetch the ticket from the upstream API.
    FetchTicket,
    /// Have the translation engine translate it.
    Translate,
    /// Write the translation to local storage.
    Persist,
    /// Submit the translation to the upstream API.
    Submit,
    /// Tell observers that the ticket changed (best effort: it cannot fail).
    Announce,
    /// Register the task's completion slot.
    RegisterSlot,
    /// Send the work request to the external actor.
    NotifyActor,
    /// Wait for the external actor's report.
    AwaitActor,
}

/// The steps of a task of each queue, in the order they run. A translation is
/// stored before it is submitted, so that a refused submission leaves a local
/// copy; a completion slot is registered before the actor hears of the task,
/// so that its report cannot come first.
pub open spec fn steps_of(k: QueueKind) -> Seq<TaskStep> {
    match k {
        QueueKind::Translate => seq![
            TaskStep::FetchTicket,
            TaskStep::Translate,
            TaskStep::Persist,
            TaskStep::Submit,
            TaskStep::Announce,
        ],
        QueueKind::Reply => seq![
            TaskStep::FetchTicket,
            TaskStep::RegisterSlot,
            TaskStep::NotifyActor,
            TaskStep::AwaitActor,
        ],
    }
}

/// Storing comes before submitting, and registering the slot before
/// notifying the actor.
pub proof fn lemma_step_order()
    ensures
        steps_of(QueueKind::Translate)[2] == TaskStep::Persist,
        steps_of(QueueKind::Translate)[3] == TaskStep::Submit,
        steps_of(QueueKind::Reply)[1] == TaskStep::RegisterSlot,
        steps_of(QueueKind::Reply)[2] == TaskStep::NotifyActor,
{
}

/// Where a task's work stands: the steps of its kind run one at a time, in
/// order, and the first failure ends the work with its error.
pub struct TaskSteps {
    kind: QueueKind,
    at: usize,
    done: bool,
}

impl TaskSteps {
    /// The kind of task.
    pub closed spec fn task_kind(&self) -> QueueKind {
        self.kind
    }

    /// How many steps have succeeded.
    pub closed spec fn succeeded(&self) -> nat {
        self.at as nat
    }

    /// Whether the work has ended.
    pub closed spec fn ended(&self) -> bool {
        self.done
    }

    /// The steps' invariant: not past the last step, and at the last one
    /// only once the work has ended.
    pub closed spec fn wf(&self) -> bool {
        &&& self.at <= steps_of(self.kind).len()
        &&& (self.at == steps_of(self.kind).len() ==> self.done)
    }

    /// A task of `kind` with no step run yet.
    pub fn new(kind: QueueKind) -> (r: TaskSteps)
        ensures
            r.wf(),
            r.task_kind() == kind,
            r.succeeded() == 0,
            !r.ended(),
    {
        TaskSteps { kind, at: 0, done: false }
    }

    /// The step to run now, none once the work has ended.
    pub fn next(&self) -> (r: Option<TaskStep>)
        requires
            self.wf(),
        ensures
            self.ended() ==> r is None,
            !self.ended() ==> r == Some(steps_of(self.task_kind())[self.succeeded() as int]),
    {
        if self.done {
            return None;
        }
        match self.kind {
            QueueKind::Translate => match self.at {
                0 => Some(TaskStep::FetchTicket),
                1 => Some(TaskStep::Translate),
                2 => Some(TaskStep::Persist),
                3 => Some(TaskStep::Submit),
                _ => Some(TaskStep::Announce),
            },
            QueueKind::Reply => match self.at {
                0 => Some(TaskStep::FetchTicket),
                1 => Some(TaskStep::RegisterSlot),
                2 => Some(TaskStep::NotifyActor),
                _ => Some(TaskStep::AwaitActor),
            },
        }
    }

    /// Records how the current step went. A failure ends the work with its
    /// error; success moves on to the next step, and after the last step
    /// ends the work with success. Hands back the task's result when the work
    /// ends here; once it has ended, nothing changes.
    pub fn record(&mut self, step_result: Result<(), TaskError>) -> (r: Option<Result<(), TaskError>>)
        requires
            old(self).wf(),
        ensures
            final(self).wf(),
            final(self).task_kind() == old(self).task_kind(),
            old(self).ended() ==> r is None && *final(self) == *old(self),
            !old(self).ended() ==> match step_result {
                Err(e) => r == Some(Err::<(), TaskError>(e)) && final(self).ended()
                    && final(self).succeeded() == old(self).succeeded(),
                Ok(_) => {
                    let n = final(self).succeeded();
                    &&& n == old(self).succeeded() + 1
                    &&& n == steps_of(old(self).task_kind()).len() ==> r == Some(
                        Ok::<(), TaskError>(()),
                    ) && final(self).ended()
                    &&& n < steps_of(old(self).task_kind()).len() ==> r is None
                        && !final(self).ended()
                },
            },
    {
        if self.done {
            return None;
        }
        match step_result {
            Err(e) => {
                self.done = true;
                Some(Err(e))
            },
            Ok(_) => {
                self.at = self.at + 1;
                let total: usize = match self.kind {
                    QueueKind::Translate => 5,
                    QueueKind::Reply => 4,
                };
                if self.at == total {
                    self.done = true;
                    Some(Ok(()))
                } else {
                    None
                }
            },
        }
    }
}

} // verus!
