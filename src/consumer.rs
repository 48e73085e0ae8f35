//! Connecting to the broker and running the consume loop: which queue, with
//! which prefetch count and arguments, and what each poll of the loop leads to.

use vstd::prelude::*;

use crate::registry::{AlreadyRunning, MqConsumerState};
use crate::settings::Settings;
use crate::text::{decimal_text, u16_text};

verus! {

/// How long one wait for a delivery lasts before `running` is looked at again,
/// in seconds.
pub const POLL_INTERVAL_SECS: u64 = 5;

/// The two queues that the client consumes.
#[derive(Clone, Copy, Debug, PartialEq, Eq, Structural)]
pub enum QueueKind {
    /// Tasks that the client translates itself.
    Translate,
    /// Tasks that an external actor completes.
    Reply,
}

/// The label of a queue kind.
pub open spec fn kind_label(k: QueueKind) -> Seq<char> {
    match k {
        QueueKind::Translate => "translate"@,
        QueueKind::Reply => "reply"@,
    }
}

/// The name of the queue of a kind.
pub open spec fn queue_name_of(k: QueueKind) -> Seq<char> {
    match k {
        QueueKind::Translate => "q.ticket.translation"@,
        QueueKind::Reply => "q.ticket.reply"@,
    }
}

/// The queue that rejected messages are routed to.
pub open spec fn dead_letter_queue() -> Seq<char> {
    "q.ticket.dlq"@
}

/// Whether two texts are the same.
pub fn same_text(a: &str, b: &str) -> (r: bool)
    ensures
        r == (a@ == b@),
{
    let n = a.unicode_len();
    if n != b.unicode_len() {
        return false;
    }
    let mut i: usize = 0;
    while i < n
        invariant
            n == a@.len(),
            n == b@.len(),
            i <= n,
            forall|j: int| 0 <= j < i ==> a@[j] == b@[j],
        decreases n - i,
    {
        if a.get_char(i) != b.get_char(i) {
            return false;
        }
        i = i + 1;
    }
    proof {
        assert(a@ =~= b@);
    }
    true
}

impl QueueKind {
    /// "translate" names the translate queue; any other label the reply queue.
    pub fn from_label(label: &str) -> (k: QueueKind)
        ensures
            k == (if label@ == "translate"@ {
                QueueKind::Translate
            } else {
                QueueKind::Reply
            }),
    {
        if same_text(label, "translate") {
            QueueKind::Translate
        } else {
            QueueKind::Reply
        }
    }

    /// The kind's label.
    pub fn label(&self) -> (r: &'static str)
        ensures
            r@ == kind_label(*self),
    {
        match self {
            QueueKind::Translate => "translate",
            QueueKind::Reply => "reply",
        }
    }

    /// The name of the kind's queue.
    pub fn queue_name(&self) -> (r: &'static str)
        ensures
            r@ == queue_name_of(*self),
    {
        match self {
            QueueKind::Translate => "q.ticket.translation",
            QueueKind::Reply => "q.ticket.reply",
        }
    }
}

/// The prefetch count for a kind and a configured limit: 1 for the reply
/// queue, whose actor serves one session at a time; else the limit, at least
/// 1 and at most what the count can hold.
pub open spec fn prefetch_of(k: QueueKind, limit: u32) -> u16 {
    match k {
        QueueKind::Reply => 1,
        QueueKind::Translate => if limit == 0 {
            1
        } else if limit > u16::MAX {
            u16::MAX
        } else {
            limit as u16
        },
    }
}

/// Computes `prefetch_of`.
pub fn prefetch_for(k: QueueKind, limit: u32) -> (r: u16)
    ensures
        r == prefetch_of(k, limit),
        r >= 1,
{
    match k {
        QueueKind::Reply => 1,
        QueueKind::Translate => if limit == 0 {
            1
        } else if limit > u16::MAX as u32 {
            u16::MAX
        } else {
            limit as u16
        },
    }
}

/// The consumer tag of a kind: "fd-client-consumer-" and its label.
pub fn consumer_tag(k: QueueKind) -> (r: String)
    ensures
        r@ == "fd-client-consumer-"@ + kind_label(k),
{
    let mut r = String::from_str("fd-client-consumer-");
    r.append(k.label());
    r
}

/// One argument of the queue declaration, as a long-string value.
#[derive(Clone, Debug)]
pub struct QueueArgument {
    pub key: String,
    pub value: String,
}

/// The arguments that the queue is declared with. The producer declares the
/// queue with these same arguments, and the broker refuses a declaration
/// that differs: rejected messages go through the default exchange to the
/// dead-letter queue.
pub fn dead_letter_arguments() -> (r: Vec<QueueArgument>)
    ensures
        r@.len() == 2,
        r@[0].key@ == "x-dead-letter-exchange"@,
        r@[0].value@ == Seq::<char>::empty(),
        r@[1].key@ == "x-dead-letter-routing-key"@,
        r@[1].value@ == dead_letter_queue(),
{
    let mut r: Vec<QueueArgument> = Vec::new();
    r.push(
        QueueArgument { key: String::from_str("x-dead-letter-exchange"), value: String::new() },
    );
    r.push(
        QueueArgument {
            key: String::from_str("x-dead-letter-routing-key"),
            value: String::from_str("q.ticket.dlq"),
        },
    );
    r
}

/// Where the broker is and who connects to it.
#[derive(Clone, Debug)]
pub struct MqConfig {
    pub host: String,
    pub port: u16,
    pub username: String,
    pub password: String,
}

/// The connection address of a configuration.
pub open spec fn address_of(c: MqConfig) -> Seq<char> {
    "amqp://"@ + c.username@ + ":"@ + c.password@ + "@"@ + c.host@ + ":"@ + decimal_text(
        c.port as int,
    )
}

impl MqConfig {
    /// The broker settings among `settings`.
    pub fn from_settings(settings: &Settings) -> (r: MqConfig)
        ensures
            r.host == settings.mq_host,
            r.port == settings.mq_port,
            r.username == settings.mq_username,
            r.password == settings.mq_password,
    {
        MqConfig {
            host: settings.mq_host.clone(),
            port: settings.mq_port,
            username: settings.mq_username.clone(),
            password: settings.mq_password.clone(),
        }
    }

    /// "amqp://{username}:{password}@{host}:{port}".
    pub fn address(&self) -> (r: String)
        ensures
            r@ == address_of(*self),
    {
        let mut r = String::from_str("amqp://");
        r.append(self.username.as_str());
        r.append(":");
        r.append(self.password.as_str());
        r.append("@");
        r.append(self.host.as_str());
        r.append(":");
        let port = u16_text(self.port);
        r.append(port.as_str());
        r
    }
}

/// What the loop needs to open its channel and consume.
#[derive(Clone, Debug)]
pub struct ConsumePlan {
    pub address: String,
    pub queue_name: String,
    pub prefetch: u16,
    pub durable: bool,
    pub arguments: Vec<QueueArgument>,
    pub consumer_tag: String,
}

/// What one wait for a delivery gave.
#[derive(Clone, Copy, Debug, PartialEq, Eq, Structural)]
pub enum PollEvent {
    /// A delivery arrived.
    Delivery,
    /// The broker reported an error for one delivery.
    DeliveryError,
    /// The consumer was closed.
    Closed,
    /// Nothing arrived within the poll interval.
    Idle,
    /// Connecting, opening the channel, or declaring or consuming the queue
    /// failed before the loop began.
    SetupFailed,
}

/// What the loop does next.
#[derive(Clone, Copy, Debug, PartialEq, Eq, Structural)]
pub enum LoopAction {
    /// Hand the delivery to a new concurrent handler.
    Spawn,
    /// Wait for the next delivery.
    Continue,
    /// Leave the loop.
    Exit,
}

/// The consumer: the broker configuration and the state it shares.
pub struct MqConsumer<T> {
    config: MqConfig,
    state: T,
}

impl<T> MqConsumer<T> {
    /// The consumer's configuration.
    pub closed spec fn config_of(&self) -> MqConfig {
        self.config
    }

    /// The consumer's shared state.
    pub closed spec fn state_of(&self) -> T {
        self.state
    }

    /// A consumer of the broker `config` that shares `state`.
    pub fn new_with_state(config: MqConfig, state: T) -> (r: Self)
        ensures
            r.config_of() == config,
            r.state_of() == state,
    {
        MqConsumer { config, state }
    }

    /// The shared state.
    pub fn get_state(&self) -> (r: &T)
        ensures
            *r == self.state_of(),
    {
        &self.state
    }

    /// The broker configuration.
    pub fn config(&self) -> (r: &MqConfig)
        ensures
            *r == self.config_of(),
    {
        &self.config
    }

    /// Claims the loop of `kind` and gives what it needs to connect and
    /// consume. Refuses, changing nothing, while a loop runs.
    pub fn start_consuming<S>(&self, reg: &mut MqConsumerState<S>, kind: QueueKind) -> (r: Result<
        ConsumePlan,
        AlreadyRunning,
    >)
        requires
            old(reg).wf(),
        ensures
            final(reg).wf(),
            r is Ok <==> !old(reg).running(),
            r is Err ==> *final(reg) == *old(reg),
            r matches Ok(p) ==> {
                &&& final(reg).running()
                &&& final(reg).prefetch_count() == prefetch_of(kind, old(reg).limit())
                &&& p.prefetch == prefetch_of(kind, old(reg).limit())
                &&& p.address@ == address_of(self.config_of())
                &&& p.queue_name@ == queue_name_of(kind)
                &&& p.durable
                &&& p.consumer_tag@ == "fd-client-consumer-"@ + kind_label(kind)
                &&& p.arguments@.len() == 2
                &&& p.arguments@[0].key@ == "x-dead-letter-exchange"@
                &&& p.arguments@[0].value@ == Seq::<char>::empty()
                &&& p.arguments@[1].key@ == "x-dead-letter-routing-key"@
                &&& p.arguments@[1].value@ == dead_letter_queue()
                &&& final(reg).limit() == old(reg).limit()
                &&& final(reg).current() == old(reg).current()
                &&& final(reg).handlers() == old(reg).handlers()
                &&& final(reg).in_flight() == old(reg).in_flight()
                &&& final(reg).completed() == old(reg).completed()
                &&& final(reg).pending() == old(reg).pending()
            },
    {
        if reg.is_running() {
            return Err(AlreadyRunning);
        }
        let _ = reg.try_start();
        let prefetch = prefetch_for(kind, reg.batch_size());
        reg.set_prefetch(prefetch);
        Ok(
            ConsumePlan {
                address: self.config.address(),
                queue_name: String::from_str(kind.queue_name()),
                prefetch,
                durable: true,
                arguments: dead_letter_arguments(),
                consumer_tag: consumer_tag(kind),
            },
        )
    }

    /// Asks the loop to stop; handlers in flight run to their end.
    pub fn stop<S>(&self, reg: &mut MqConsumerState<S>)
        requires
            old(reg).wf(),
        ensures
            final(reg).wf(),
            !final(reg).running(),
            final(reg).limit() == old(reg).limit(),
            final(reg).prefetch_count() == old(reg).prefetch_count(),
            final(reg).current() == old(reg).current(),
            final(reg).handlers() == old(reg).handlers(),
            final(reg).in_flight() == old(reg).in_flight(),
            final(reg).completed() == old(reg).completed(),
            final(reg).pending() == old(reg).pending(),
    {
        reg.stop();
    }
}

/// What changes the number of running handlers.
#[derive(Clone, Copy, Debug, PartialEq, Eq, Structural)]
pub enum HandlerEvent {
    /// The loop's wait ended with this event.
    Poll(PollEvent),
    /// A handler settled its delivery.
    Done,
}

/// The number of running handlers after one event, with `prefetch` the
/// channel's prefetch count.
pub open spec fn handlers_after(h: nat, prefetch: nat, e: HandlerEvent) -> nat {
    match e {
        HandlerEvent::Poll(PollEvent::Delivery) => h + 1,
        HandlerEvent::Poll(_) => h,
        HandlerEvent::Done => if h > 0 {
            (h - 1) as nat
        } else {
            0
        },
    }
}

/// The number of running handlers after a run of events.
pub open spec fn handlers_after_all(h: nat, prefetch: nat, es: Seq<HandlerEvent>) -> nat
    decreases es.len(),
{
    if es.len() == 0 {
        h
    } else {
        handlers_after(handlers_after_all(h, prefetch, es.drop_last()), prefetch, es.last())
    }
}

/// The broker keeps its window along `es`: it hands over a delivery only
/// while fewer deliveries than the prefetch count are unsettled, that is,
/// while fewer handlers run.
pub open spec fn broker_keeps_window(h: nat, prefetch: nat, es: Seq<HandlerEvent>) -> bool
    decreases es.len(),
{
    if es.len() == 0 {
        true
    } else {
        &&& broker_keeps_window(h, prefetch, es.drop_last())
        &&& (es.last() == HandlerEvent::Poll(PollEvent::Delivery) ==> handlers_after_all(
            h,
            prefetch,
            es.drop_last(),
        ) < prefetch)
    }
}

/// However deliveries and handler ends interleave, as long as the broker
/// keeps its prefetch window the number of handlers running at once never
/// exceeds the prefetch count: the window is the only limit, and the loop
/// holds no delivery back.
pub proof fn lemma_ceiling_holds(h: nat, prefetch: nat, es: Seq<HandlerEvent>)
    requires
        h <= prefetch,
        broker_keeps_window(h, prefetch, es),
    ensures
        forall|k: int|
            0 <= k <= es.len() ==> #[trigger] handlers_after_all(h, prefetch, es.take(k))
                <= prefetch,
    decreases es.len(),
{
    if es.len() > 0 {
        lemma_ceiling_holds(h, prefetch, es.drop_last());
        assert forall|k: int|
            0 <= k <= es.len() implies #[trigger] handlers_after_all(h, prefetch, es.take(k))
            <= prefetch by {
            if k < es.len() {
                assert(es.take(k) =~= es.drop_last().take(k));
            } else {
                let d = es.drop_last();
                assert(d.take(d.len() as int) =~= d);
                assert(handlers_after_all(h, prefetch, d.take(d.len() as int)) <= prefetch);
                assert(handlers_after_all(h, prefetch, d) <= prefetch);
                assert(es.take(k) =~= es);
                assert(handlers_after_all(h, prefetch, es) == handlers_after(
                    handlers_after_all(h, prefetch, d),
                    prefetch,
                    es.last(),
                ));
            }
        }
    } else {
        assert forall|k: int|
            0 <= k <= es.len() implies #[trigger] handlers_after_all(h, prefetch, es.take(k))
            <= prefetch by {
            assert(es.take(k) =~= Seq::<HandlerEvent>::empty());
        }
    }
}

impl<S> MqConsumerState<S> {
    /// Decides what the loop does after one wait. Every delivery is handed
    /// to a new handler at once: the broker's prefetch window is the only
    /// limit. A closed consumer or a failed setup ends the loop; an idle wait
    /// ends it once `running` is false. When the loop ends, `running` is
    /// false.
    pub fn on_poll(&mut self, e: PollEvent) -> (r: LoopAction)
        requires
            old(self).wf(),
        ensures
            final(self).wf(),
            final(self).current() == old(self).current(),
            r == match e {
                PollEvent::Delivery => LoopAction::Spawn,
                PollEvent::DeliveryError => LoopAction::Continue,
                PollEvent::Closed => LoopAction::Exit,
                PollEvent::SetupFailed => LoopAction::Exit,
                PollEvent::Idle => if old(self).running() {
                    LoopAction::Continue
                } else {
                    LoopAction::Exit
                },
            },
            r == LoopAction::Exit ==> !final(self).running(),
            r != LoopAction::Exit ==> final(self).running() == old(self).running(),
            r == LoopAction::Spawn ==> final(self).handlers() == if old(self).handlers() < u16::MAX {
                (old(self).handlers() + 1) as u16
            } else {
                u16::MAX
            },
            r != LoopAction::Spawn ==> final(self).handlers() == old(self).handlers(),
            old(self).handlers() < u16::MAX ==> final(self).handlers() as nat == handlers_after(
                old(self).handlers() as nat,
                old(self).prefetch_count() as nat,
                HandlerEvent::Poll(e),
            ),
            final(self).limit() == old(self).limit(),
            final(self).prefetch_count() == old(self).prefetch_count(),
            final(self).in_flight() == old(self).in_flight(),
            final(self).completed() == old(self).completed(),
            final(self).pending() == old(self).pending(),
    {
        match e {
            PollEvent::Delivery => {
                self.handler_started();
                LoopAction::Spawn
            },
            PollEvent::DeliveryError => LoopAction::Continue,
            PollEvent::Closed | PollEvent::SetupFailed => {
                self.stop();
                LoopAction::Exit
            },
            PollEvent::Idle => if self.is_running() {
                LoopAction::Continue
            } else {
                self.stop();
                LoopAction::Exit
            },
        }
    }
}

} // verus!
