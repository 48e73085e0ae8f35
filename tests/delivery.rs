use fd_client::delivery::{
    bridge_result, reply_task, translate_task, BridgeEvent, DeliveryFlow, FlowState,
    ReplyMessage, TranslationMessage, TranslationPayload, REPLY_TIMEOUT_SECS,
};
use fd_client::consumer::QueueKind;
use fd_client::delivery::{TaskStep, TaskSteps};
use fd_client::registry::{Disposition, MqConsumerState, TaskError};

fn translate_msg(id: i64, subject: Option<&str>) -> TranslationMessage {
    TranslationMessage {
        msg_id: "m-1".to_string(),
        ticket_id: id,
        timestamp: 1_700_000_000,
        payload: TranslationPayload {
            external_id: "FD-1".to_string(),
            subject: subject.map(|s| s.to_string()),
            content: None,
        },
    }
}

fn reply_msg(id: i64) -> ReplyMessage {
    ReplyMessage { msg_id: "r-1".to_string(), ticket_id: id, timestamp: 1_700_000_000 }
}

#[test]
fn translate_delivery_success_is_acked_and_recorded() {
    let mut reg: MqConsumerState<u8> = MqConsumerState::new();
    let mut flow = DeliveryFlow::new();
    let (d, task) = flow.on_translate(&mut reg, &translate_msg(42, Some("Help")), 1000);
    assert_eq!(d, None);
    let task = task.unwrap();
    assert_eq!(reg.status().translating_tickets.len(), 1);
    let d = flow.on_direct_finished(&mut reg, task, 1600, Ok(()));
    assert_eq!(d, Some(Disposition::Ack));
    let s = reg.status();
    assert!(s.translating_tickets.is_empty());
    assert_eq!(s.completed_tickets.len(), 1);
    assert_eq!(s.completed_tickets[0].ticket_id, 42);
    assert_eq!(s.completed_tickets[0].subject, "Help");
    assert!(s.completed_tickets[0].success);
    assert_eq!(s.completed_tickets[0].duration_ms, 600);
    assert_eq!(flow.current(), FlowState::Settled(Disposition::Ack));
}

#[test]
fn reply_timeout_is_nacked_with_timeout_text() {
    let mut reg: MqConsumerState<u8> = MqConsumerState::new();
    let mut flow = DeliveryFlow::new();
    assert_eq!(flow.on_reply(&mut reg, &reply_msg(7), 50), None);
    assert_eq!(reg.register_pending(7, 1), None);
    let result = bridge_result(BridgeEvent::TimedOut);
    let d = flow.on_deferred_finished(&mut reg, 7, 50, 300_050, result);
    assert_eq!(d, Some(Disposition::Nack));
    let s = reg.status();
    let o = &s.completed_tickets[0];
    assert_eq!(o.ticket_id, 7);
    assert!(!o.success);
    assert_eq!(o.error_message.as_deref(), Some("Reply task timed out"));
    assert_eq!(o.external_id, "Loading...");
    // the slot is gone: a late completion is not found
    assert!(reg.complete_task(7).is_err());
    assert_eq!(REPLY_TIMEOUT_SECS, 300);
}

#[test]
fn completion_signal_unblocks_and_succeeds() {
    let mut reg: MqConsumerState<u8> = MqConsumerState::new();
    let mut flow = DeliveryFlow::new();
    flow.on_reply(&mut reg, &reply_msg(7), 10);
    reg.update_in_flight(7, "FD-7".to_string(), "Refund".to_string());
    reg.register_pending(7, 99);
    let slot = reg.complete_task(7).unwrap();
    assert_eq!(slot, 99);
    let result = bridge_result(BridgeEvent::Signalled(true));
    assert!(result.is_ok());
    let d = flow.on_deferred_finished(&mut reg, 7, 10, 20, result);
    assert_eq!(d, Some(Disposition::Ack));
    let s = reg.status();
    assert!(s.completed_tickets[0].success);
    assert_eq!(s.completed_tickets[0].external_id, "FD-7");
    assert_eq!(s.completed_tickets[0].subject, "Refund");
    assert!(s.translating_tickets.is_empty());
}

#[test]
fn malformed_delivery_is_acked_without_outcome() {
    let mut reg: MqConsumerState<u8> = MqConsumerState::new();
    let mut flow = DeliveryFlow::new();
    assert_eq!(flow.on_malformed(), Some(Disposition::Ack));
    assert!(reg.status().completed_tickets.is_empty());
    // a settled delivery is never settled again
    assert_eq!(flow.on_malformed(), None);
    let (d, t) = flow.on_translate(&mut reg, &translate_msg(1, None), 0);
    assert_eq!(d, None);
    assert!(t.is_none());
    assert!(reg.status().translating_tickets.is_empty());
}

#[test]
fn each_delivery_settles_once() {
    let mut reg: MqConsumerState<u8> = MqConsumerState::new();
    let mut flow = DeliveryFlow::new();
    let (_, task) = flow.on_translate(&mut reg, &translate_msg(5, None), 0);
    let task = task.unwrap();
    let first = flow.on_direct_finished(&mut reg, task.clone(), 5, Err(TaskError::Translation("bad".to_string())));
    assert_eq!(first, Some(Disposition::Nack));
    let second = flow.on_direct_finished(&mut reg, task, 6, Ok(()));
    assert_eq!(second, None);
    assert_eq!(reg.status().completed_tickets.len(), 1);
}

#[test]
fn bridge_results() {
    assert!(bridge_result(BridgeEvent::Signalled(true)).is_ok());
    assert!(matches!(
        bridge_result(BridgeEvent::Signalled(false)),
        Err(TaskError::ExternalActorFailure)
    ));
    assert!(matches!(bridge_result(BridgeEvent::TimedOut), Err(TaskError::TaskTimeout)));
    assert!(matches!(bridge_result(BridgeEvent::Abandoned), Err(TaskError::TaskTimeout)));
}

#[test]
fn task_records() {
    let t = translate_task(&translate_msg(3, None), 9);
    assert_eq!(t.ticket_id, 3);
    assert_eq!(t.external_id, "FD-1");
    assert_eq!(t.subject, "");
    assert_eq!(t.started_at, 9);
    let r = reply_task(&reply_msg(4), 11);
    assert_eq!(r.external_id, "Loading...");
    assert_eq!(r.subject, "Loading...");
}

#[test]
fn translate_steps_run_in_order() {
    let mut s = TaskSteps::new(QueueKind::Translate);
    let mut seen = vec![];
    let mut result = None;
    while let Some(step) = s.next() {
        seen.push(step);
        if let Some(r) = s.record(Ok(())) {
            result = Some(r);
        }
    }
    assert_eq!(
        seen,
        vec![TaskStep::FetchTicket, TaskStep::Translate, TaskStep::Persist, TaskStep::Submit, TaskStep::Announce]
    );
    assert!(matches!(result, Some(Ok(()))));
}

#[test]
fn first_failure_ends_the_steps() {
    let mut s = TaskSteps::new(QueueKind::Reply);
    assert_eq!(s.next(), Some(TaskStep::FetchTicket));
    assert!(s.record(Ok(())).is_none());
    assert_eq!(s.next(), Some(TaskStep::RegisterSlot));
    assert!(s.record(Ok(())).is_none());
    assert_eq!(s.next(), Some(TaskStep::NotifyActor));
    let r = s.record(Err(TaskError::Notification("down".to_string())));
    assert!(matches!(r, Some(Err(TaskError::Notification(_)))));
    assert_eq!(s.next(), None);
    assert!(s.record(Ok(())).is_none());
}
