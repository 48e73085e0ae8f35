use fd_client::consumer::{
    consumer_tag, dead_letter_arguments, prefetch_for, same_text, LoopAction, MqConfig,
    MqConsumer, PollEvent, QueueKind, POLL_INTERVAL_SECS,
};
use fd_client::registry::{AlreadyRunning, MqConsumerState};
use fd_client::settings::Settings;

fn config() -> MqConfig {
    MqConfig {
        host: "mq.local".to_string(),
        port: 5672,
        username: "guest".to_string(),
        password: "pw".to_string(),
    }
}

#[test]
fn queue_names_and_labels() {
    assert_eq!(QueueKind::Translate.queue_name(), "q.ticket.translation");
    assert_eq!(QueueKind::Reply.queue_name(), "q.ticket.reply");
    assert_eq!(QueueKind::from_label("translate"), QueueKind::Translate);
    assert_eq!(QueueKind::from_label("reply"), QueueKind::Reply);
    assert_eq!(QueueKind::from_label("anything"), QueueKind::Reply);
    assert_eq!(QueueKind::Reply.label(), "reply");
}

#[test]
fn prefetch_counts() {
    assert_eq!(prefetch_for(QueueKind::Reply, 9), 1);
    assert_eq!(prefetch_for(QueueKind::Translate, 9), 9);
    assert_eq!(prefetch_for(QueueKind::Translate, 0), 1);
    assert_eq!(prefetch_for(QueueKind::Translate, 70_000), u16::MAX);
}

#[test]
fn tags_and_arguments() {
    assert_eq!(consumer_tag(QueueKind::Translate), "fd-client-consumer-translate");
    let args = dead_letter_arguments();
    assert_eq!(args.len(), 2);
    assert_eq!(args[0].key, "x-dead-letter-exchange");
    assert_eq!(args[0].value, "");
    assert_eq!(args[1].key, "x-dead-letter-routing-key");
    assert_eq!(args[1].value, "q.ticket.dlq");
}

#[test]
fn address_from_settings() {
    let mut s = Settings::default();
    s.mq_host = "broker".to_string();
    s.mq_port = 5673;
    s.mq_username = "u".to_string();
    s.mq_password = "p".to_string();
    let c = MqConfig::from_settings(&s);
    assert_eq!(c.address(), "amqp://u:p@broker:5673");
}

#[test]
fn start_consuming_plans_the_channel() {
    let consumer = MqConsumer::new_with_state(config(), ());
    let mut reg: MqConsumerState<u8> = MqConsumerState::new();
    reg.set_batch_size(4);
    let plan = consumer.start_consuming(&mut reg, QueueKind::Translate).unwrap();
    assert_eq!(plan.address, "amqp://guest:pw@mq.local:5672");
    assert_eq!(plan.queue_name, "q.ticket.translation");
    assert_eq!(plan.prefetch, 4);
    assert!(plan.durable);
    assert_eq!(plan.consumer_tag, "fd-client-consumer-translate");
    assert_eq!(plan.arguments.len(), 2);
    assert!(reg.is_running());
    assert!(matches!(
        consumer.start_consuming(&mut reg, QueueKind::Translate),
        Err(AlreadyRunning)
    ));
    consumer.stop(&mut reg);
    assert!(!reg.is_running());
    let plan = consumer.start_consuming(&mut reg, QueueKind::Reply).unwrap();
    assert_eq!(plan.prefetch, 1);
    assert_eq!(plan.queue_name, "q.ticket.reply");
}

#[test]
fn poll_decisions() {
    let consumer = MqConsumer::new_with_state(config(), ());
    let mut reg: MqConsumerState<u8> = MqConsumerState::new();
    reg.set_batch_size(1);
    consumer.start_consuming(&mut reg, QueueKind::Translate).unwrap();
    assert_eq!(reg.on_poll(PollEvent::Idle), LoopAction::Continue);
    assert_eq!(reg.on_poll(PollEvent::DeliveryError), LoopAction::Continue);
    assert_eq!(reg.on_poll(PollEvent::Delivery), LoopAction::Spawn);
    // a full window holds nothing back: the broker's prefetch is the only limit
    assert_eq!(reg.on_poll(PollEvent::Delivery), LoopAction::Spawn);
    assert_eq!(reg.on_poll(PollEvent::Delivery), LoopAction::Spawn);
    reg.handler_done();
    assert_eq!(reg.on_poll(PollEvent::Delivery), LoopAction::Spawn);
    reg.stop();
    assert_eq!(reg.on_poll(PollEvent::Idle), LoopAction::Exit);
    assert!(!reg.is_running());
    consumer.stop(&mut reg);
    assert_eq!(POLL_INTERVAL_SECS, 5);
}

#[test]
fn closed_consumer_ends_the_loop() {
    let mut reg: MqConsumerState<u8> = MqConsumerState::new();
    reg.try_start().unwrap();
    assert_eq!(reg.on_poll(PollEvent::Closed), LoopAction::Exit);
    assert!(!reg.is_running());
}

#[test]
fn consumer_keeps_its_state_and_config() {
    let consumer = MqConsumer::new_with_state(config(), 17u32);
    assert_eq!(*consumer.get_state(), 17);
    assert_eq!(consumer.config().host, "mq.local");
}

#[test]
fn text_equality() {
    assert!(same_text("abc", "abc"));
    assert!(!same_text("abc", "abd"));
    assert!(!same_text("abc", "ab"));
    assert!(same_text("", ""));
}

#[test]
fn failed_setup_ends_the_run() {
    let consumer = MqConsumer::new_with_state(config(), ());
    let mut reg: MqConsumerState<u8> = MqConsumerState::new();
    consumer.start_consuming(&mut reg, QueueKind::Reply).unwrap();
    assert!(reg.is_running());
    assert_eq!(reg.on_poll(PollEvent::SetupFailed), LoopAction::Exit);
    assert!(!reg.is_running());
    assert!(consumer.start_consuming(&mut reg, QueueKind::Reply).is_ok());
}

#[test]
fn stopping_keeps_the_batch_size() {
    let consumer = MqConsumer::new_with_state(config(), ());
    let mut reg: MqConsumerState<u8> = MqConsumerState::new();
    reg.set_batch_size(6);
    consumer.start_consuming(&mut reg, QueueKind::Translate).unwrap();
    consumer.stop(&mut reg);
    assert_eq!(reg.batch_size(), 6);
    assert_eq!(reg.status().batch_size, 6);
}
