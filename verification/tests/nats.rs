use task_service::domain::{
    DomainError, TaskCreatedEvent, TaskDeletedEvent, TaskUpdatedEvent, UserDeletedEvent,
};
use task_service::handlers::health;
use task_service::identifier::Uuid;
use task_service::infrastructure::nats::{
    publish_event, Incoming, NatsEventPublisher, NatsSubscriber, NextMove, NoopEventPublisher,
    TaskEvent, TIMER_STOPPED, USER_DELETED,
};

const TASK: Uuid = Uuid { bits: 0x12345678_9abc_4def_8123_456789abcdef };
const USER: Uuid = Uuid { bits: 1 };

#[test]
fn a_creation_tells_task_and_user() {
    let message = publish_event(TaskEvent::Created(TaskCreatedEvent {
        task_id: TASK,
        user_id: USER,
    }));
    assert_eq!(message.subject, "task.created");
    assert_eq!(message.payload.len(), 2);
    assert_eq!(
        message.payload.get("task_id").unwrap().as_str(),
        Some("12345678-9abc-4def-8123-456789abcdef")
    );
    assert_eq!(
        message.payload.get("user_id").unwrap().as_str(),
        Some("00000000-0000-0000-0000-000000000001")
    );
}

#[test]
fn an_update_tells_its_changes() {
    let message =
        publish_event(TaskEvent::Updated(TaskUpdatedEvent { task_id: TASK, changes: health().body }));
    assert_eq!(message.subject, "task.updated");
    assert_eq!(message.payload.len(), 2);
    let changes = message.payload.get("changes").unwrap().as_object().unwrap();
    assert_eq!(changes.get("status").unwrap().as_str(), Some("ok"));
}

#[test]
fn a_deletion_tells_the_task() {
    let message = publish_event(TaskEvent::Deleted(TaskDeletedEvent { task_id: TASK }));
    assert_eq!(message.subject, "task.deleted");
    assert_eq!(message.payload.len(), 1);
}

#[test]
fn a_message_is_sent_as_json_text() {
    let message = publish_event(TaskEvent::Created(TaskCreatedEvent {
        task_id: TASK,
        user_id: USER,
    }));
    let outgoing = NatsEventPublisher.publish_raw(message.subject, message.payload).unwrap();
    assert_eq!(outgoing.subject, "task.created");
    let expected = "{\"task_id\":\"12345678-9abc-4def-8123-456789abcdef\",\
                     \"user_id\":\"00000000-0000-0000-0000-000000000001\"}";
    assert_eq!(String::from_utf8(outgoing.payload).unwrap(), expected);
    assert!(NatsEventPublisher.publish_raw_reply(Ok(())).is_ok());
    assert!(matches!(
        NatsEventPublisher.publish_raw_reply(Err("gone".to_string())),
        Err(DomainError::Messaging(words)) if words == "gone"
    ));
}

#[test]
fn dropping_a_message_never_fails() {
    assert!(NoopEventPublisher.publish_raw("task.created", health().body).is_ok());
}

#[test]
fn subjects_that_are_listened_to() {
    assert_eq!(USER_DELETED, "user.deleted");
    assert_eq!(TIMER_STOPPED, "timer.stopped");
}

#[test]
fn a_subscription_goes_on_until_it_is_closed() {
    let event = UserDeletedEvent { user_id: USER };
    assert!(matches!(
        NatsSubscriber::next_move::<UserDeletedEvent>(Incoming::Subscribed),
        NextMove::Receive
    ));
    assert!(matches!(
        NatsSubscriber::next_move(Incoming::Readable(event)),
        NextMove::Handle(e) if e.user_id == USER
    ));
    assert!(matches!(
        NatsSubscriber::next_move::<UserDeletedEvent>(Incoming::Unreadable),
        NextMove::Receive
    ));
    assert!(matches!(
        NatsSubscriber::next_move::<UserDeletedEvent>(Incoming::Handled(Ok(()))),
        NextMove::Receive
    ));
    assert!(matches!(
        NatsSubscriber::next_move::<UserDeletedEvent>(Incoming::Handled(Err(
            DomainError::Database("x".to_string())
        ))),
        NextMove::Receive
    ));
    assert!(matches!(
        NatsSubscriber::next_move::<UserDeletedEvent>(Incoming::NotSubscribed),
        NextMove::Stop
    ));
    assert!(matches!(
        NatsSubscriber::next_move::<UserDeletedEvent>(Incoming::Closed),
        NextMove::Stop
    ));
}
