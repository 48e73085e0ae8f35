use fd_client::registry::{
    duration_between, outcome_of, AlreadyRunning, Disposition, MqConsumerState,
    NotFoundError, TaskError, TranslatingTicket, COMPLETED_CAPACITY,
};

fn task(id: i64, started_at: i64) -> TranslatingTicket {
    TranslatingTicket {
        ticket_id: id,
        external_id: format!("EXT-{}", id),
        subject: format!("Subject {}", id),
        started_at,
    }
}

#[test]
fn new_registry_is_idle() {
    let reg: MqConsumerState<u8> = MqConsumerState::new();
    let s = reg.status();
    assert!(!s.is_running);
    assert_eq!(s.batch_size, 1);
    assert!(s.current_task.is_none());
    assert!(s.translating_tickets.is_empty());
    assert!(s.completed_tickets.is_empty());
}

#[test]
fn completed_list_is_capped_and_drops_the_oldest() {
    let mut reg: MqConsumerState<u8> = MqConsumerState::new();
    for id in 0..(COMPLETED_CAPACITY as i64 + 5) {
        reg.accept(task(id, 1000));
        let d = reg.finish_direct(task(id, 1000), 1500, Ok(()));
        assert_eq!(d, Disposition::Ack);
        assert!(reg.status().completed_tickets.len() <= COMPLETED_CAPACITY);
    }
    let s = reg.status();
    assert_eq!(s.completed_tickets.len(), 100);
    assert_eq!(s.completed_tickets[0].ticket_id, 104);
    assert_eq!(s.completed_tickets[99].ticket_id, 5);
    assert!(s.translating_tickets.is_empty());
}

#[test]
fn complete_unknown_task_is_not_found_and_changes_nothing() {
    let mut reg: MqConsumerState<u8> = MqConsumerState::new();
    assert_eq!(reg.register_pending(3, 30), None);
    reg.accept(task(3, 10));
    let before = reg.status();
    let r = reg.complete_task(9);
    assert_eq!(r, Err(NotFoundError { ticket_id: 9 }));
    let after = reg.status();
    assert_eq!(after.translating_tickets.len(), before.translating_tickets.len());
    assert_eq!(after.completed_tickets.len(), before.completed_tickets.len());
    // the slot of task 3 is still there
    assert_eq!(reg.complete_task(3), Ok(30));
    assert_eq!(reg.complete_task(3), Err(NotFoundError { ticket_id: 3 }));
}

#[test]
fn not_found_message_names_kind_and_id() {
    let e = NotFoundError { ticket_id: 42 };
    assert_eq!(e.message("reply"), "No pending reply task found for ticket #42");
    let e = NotFoundError { ticket_id: -7 };
    assert_eq!(e.message("translation"), "No pending translation task found for ticket #-7");
}

#[test]
fn registering_twice_hands_back_the_old_slot() {
    let mut reg: MqConsumerState<u8> = MqConsumerState::new();
    assert_eq!(reg.register_pending(5, 1), None);
    assert_eq!(reg.register_pending(5, 2), Some(1));
    assert_eq!(reg.complete_task(5), Ok(2));
}

#[test]
fn start_twice_is_refused() {
    let mut reg: MqConsumerState<u8> = MqConsumerState::new();
    assert_eq!(reg.try_start(), Ok(()));
    assert!(reg.is_running());
    assert_eq!(reg.try_start(), Err(AlreadyRunning));
    reg.stop();
    assert!(!reg.is_running());
    assert_eq!(reg.try_start(), Ok(()));
}

#[test]
fn handler_count_is_only_observed() {
    let mut reg: MqConsumerState<u8> = MqConsumerState::new();
    reg.set_prefetch(1);
    reg.handler_started();
    reg.handler_started();
    let s = reg.status();
    assert!(s.translating_tickets.is_empty());
    reg.handler_done();
    reg.handler_done();
    reg.handler_done();
    reg.handler_started();
}

#[test]
fn accepting_an_id_twice_keeps_one_entry() {
    let mut reg: MqConsumerState<u8> = MqConsumerState::new();
    reg.accept(task(1, 10));
    reg.accept(task(2, 20));
    reg.accept(task(1, 30));
    let s = reg.status();
    assert_eq!(s.translating_tickets.len(), 2);
    assert_eq!(s.translating_tickets[0].ticket_id, 2);
    assert_eq!(s.translating_tickets[1].ticket_id, 1);
    assert_eq!(s.translating_tickets[1].started_at, 30);
}

#[test]
fn update_in_flight_fills_in_reference_and_subject() {
    let mut reg: MqConsumerState<u8> = MqConsumerState::new();
    reg.accept(task(8, 100));
    reg.update_in_flight(8, "FD-8".to_string(), "Printer".to_string());
    reg.update_in_flight(9, "nope".to_string(), "nope".to_string());
    let s = reg.status();
    assert_eq!(s.translating_tickets[0].external_id, "FD-8");
    assert_eq!(s.translating_tickets[0].subject, "Printer");
    assert_eq!(s.translating_tickets[0].started_at, 100);
}

#[test]
fn deferred_finish_without_in_flight_entry_uses_fallback() {
    let mut reg: MqConsumerState<u8> = MqConsumerState::new();
    let d = reg.finish_deferred(77, 10, 25, Err(TaskError::ExternalActorFailure));
    assert_eq!(d, Disposition::Nack);
    let s = reg.status();
    let o = &s.completed_tickets[0];
    assert_eq!(o.ticket_id, 77);
    assert_eq!(o.external_id, "77");
    assert_eq!(o.subject, "Reply Task");
    assert_eq!(o.duration_ms, 15);
    assert!(!o.success);
    assert_eq!(o.error_message.as_deref(), Some("Frontend reported failure in reply task"));
}

#[test]
fn duration_saturates() {
    assert_eq!(duration_between(100, 350), 250);
    assert_eq!(duration_between(350, 100), -250);
    assert_eq!(duration_between(i64::MIN, i64::MAX), i64::MAX);
    assert_eq!(duration_between(i64::MAX, i64::MIN), i64::MIN);
}

#[test]
fn outcome_records_error_text() {
    let o = outcome_of(task(4, 1), 11, &Err(TaskError::Submission("refused".to_string())));
    assert_eq!(o.ticket_id, 4);
    assert_eq!(o.external_id, "EXT-4");
    assert_eq!(o.subject, "Subject 4");
    assert_eq!(o.duration_ms, 10);
    assert!(!o.success);
    assert_eq!(o.error_message.as_deref(), Some("refused"));
    let ok = outcome_of(task(4, 1), 11, &Ok(()));
    assert!(ok.success);
    assert!(ok.error_message.is_none());
}

#[test]
fn task_error_messages() {
    assert_eq!(TaskError::TaskTimeout.message(), "Reply task timed out");
    assert_eq!(
        TaskError::ExternalActorFailure.message(),
        "Frontend reported failure in reply task"
    );
    assert_eq!(TaskError::UpstreamFetch("x".to_string()).message(), "x");
    assert_eq!(TaskError::Translation("t".to_string()).message(), "t");
    assert_eq!(TaskError::Storage("s".to_string()).message(), "s");
    assert_eq!(TaskError::Notification("n".to_string()).message(), "n");
}

#[test]
fn batch_size_is_kept() {
    let mut reg: MqConsumerState<u8> = MqConsumerState::new();
    reg.set_batch_size(7);
    assert_eq!(reg.batch_size(), 7);
    assert_eq!(reg.status().batch_size, 7);
}
