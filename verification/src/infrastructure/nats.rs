//! What is published on the message bus, and what is done with what comes in.

use vstd::prelude::*;

use crate::domain::{DomainError, TaskCreatedEvent, TaskDeletedEvent, TaskUpdatedEvent};
use crate::identifier;
use crate::json;
use crate::json::{JsonField, JsonModel, JsonObject};

verus! {

// Publishing.

/// News that the service publishes.
#[derive(Debug)]
pub enum TaskEvent {
    Created(TaskCreatedEvent),
    Updated(TaskUpdatedEvent),
    Deleted(TaskDeletedEvent),
}

/// A message for the bus.
#[derive(Debug)]
pub struct Message {
    pub subject: &'static str,
    pub payload: JsonObject,
}

/// The subject under which an event is published.
pub open spec fn subject_of(event: TaskEvent) -> Seq<char> {
    match event {
        TaskEvent::Created(_) => "task.created"@,
        TaskEvent::Updated(_) => "task.updated"@,
        TaskEvent::Deleted(_) => "task.deleted"@,
    }
}

/// The fields under which an event is published.
pub open spec fn payload_of(event: TaskEvent) -> Map<Seq<char>, JsonModel> {
    match event {
        TaskEvent::Created(e) => json::no_fields().insert(
            "task_id"@,
            JsonModel::Text(identifier::uuid_text(e.task_id.bits)),
        ).insert("user_id"@, JsonModel::Text(identifier::uuid_text(e.user_id.bits))),
        TaskEvent::Updated(e) => json::no_fields().insert(
            "task_id"@,
            JsonModel::Text(identifier::uuid_text(e.task_id.bits)),
        ).insert("changes"@, JsonModel::Object(json::json_fields(e.changes))),
        TaskEvent::Deleted(e) => json::no_fields().insert(
            "task_id"@,
            JsonModel::Text(identifier::uuid_text(e.task_id.bits)),
        ),
    }
}

/// The message that announces an event.
pub fn publish_event(event: TaskEvent) -> (message: Message)
    ensures
        message.subject@ == subject_of(event),
        json::json_fields(message.payload) == payload_of(event),
{
    let mut payload = json::empty_object();
    match event {
        TaskEvent::Created(e) => {
            json::set_field(&mut payload, "task_id", JsonField::Text(e.task_id.to_string()));
            json::set_field(&mut payload, "user_id", JsonField::Text(e.user_id.to_string()));
            Message { subject: "task.created", payload }
        },
        TaskEvent::Updated(e) => {
            json::set_field(&mut payload, "task_id", JsonField::Text(e.task_id.to_string()));
            json::set_field(&mut payload, "changes", JsonField::Object(e.changes));
            Message { subject: "task.updated", payload }
        },
        TaskEvent::Deleted(e) => {
            json::set_field(&mut payload, "task_id", JsonField::Text(e.task_id.to_string()));
            Message { subject: "task.deleted", payload }
        },
    }
}

/// A message in bytes, as it goes over the bus.
#[derive(Debug)]
pub struct Outgoing {
    pub subject: String,
    pub payload: Vec<u8>,
}

/// The publisher for a service with a message bus.
#[derive(Debug, Clone, Copy)]
pub struct NatsEventPublisher;

impl NatsEventPublisher {
    /// What to send: the subject, and the payload as JSON text.
    pub fn publish_raw(&self, subject: &str, payload: JsonObject) -> (outgoing: Result<
        Outgoing,
        DomainError,
    >)
        ensures
            outgoing is Ok,
            outgoing->Ok_0.subject@ == subject@,
            outgoing->Ok_0.payload@ == json::json_text(json::json_fields(payload)),
    {
        match json::to_vec(&payload) {
            Ok(bytes) => Ok(Outgoing { subject: subject.to_owned(), payload: bytes }),
            Err(e) => Err(DomainError::Messaging(json::error_words(&e))),
        }
    }

    /// Whether it was sent, or what the bus reported.
    pub fn publish_raw_reply(&self, sent: Result<(), String>) -> (published: Result<
        (),
        DomainError,
    >)
        ensures
            published == match sent {
                Ok(_) => Ok::<(), DomainError>(()),
                Err(words) => Err(DomainError::Messaging(words)),
            },
    {
        match sent {
            Ok(_) => Ok(()),
            Err(words) => Err(DomainError::Messaging(words)),
        }
    }
}

/// A publisher for a service without a message bus: it drops every message.
#[derive(Debug, Clone, Copy)]
pub struct NoopEventPublisher;

impl NoopEventPublisher {
    /// Drops a message; that never fails.
    pub fn publish_raw(&self, subject: &str, payload: JsonObject) -> (published: Result<
        (),
        DomainError,
    >)
        ensures
            published == Ok::<(), DomainError>(()),
    {
        Ok(())
    }
}

// Subscribing.

/// What a subscription has just seen, for events of type `E`.
#[derive(Debug)]
pub enum Incoming<E> {
    /// The bus accepted the subscription.
    Subscribed,
    /// The bus refused the subscription.
    NotSubscribed,
    /// A message whose payload could be read.
    Readable(E),
    /// A message whose payload could not be read.
    Unreadable,
    /// The event of the last message was handled, with this result.
    Handled(Result<(), DomainError>),
    /// No more messages will come.
    Closed,
}

/// What a subscription does next.
#[derive(Debug)]
pub enum NextMove<E> {
    /// Wait for a message.
    Receive,
    /// Handle an event.
    Handle(E),
    /// End.
    Stop,
}

/// The subjects that the service listens to, and how it does.
pub struct NatsSubscriber;

/// The subject on which the Users Service tells of deleted users.
pub const USER_DELETED: &'static str = "user.deleted";

/// The subject on which the Timer Service tells of stopped timers.
pub const TIMER_STOPPED: &'static str = "timer.stopped";

impl NatsSubscriber {
    /// A subscription goes on until the bus closes it: neither a message that
    /// cannot be read nor an event that cannot be handled ends it.
    pub fn next_move<E>(seen: Incoming<E>) -> (next: NextMove<E>)
        ensures
            next == match seen {
                Incoming::Subscribed => NextMove::Receive,
                Incoming::NotSubscribed => NextMove::Stop,
                Incoming::Readable(event) => NextMove::Handle(event),
                Incoming::Unreadable => NextMove::Receive,
                Incoming::Handled(_) => NextMove::Receive,
                Incoming::Closed => NextMove::Stop,
            },
    {
        match seen {
            Incoming::Subscribed => NextMove::Receive,
            Incoming::NotSubscribed => NextMove::Stop,
            Incoming::Readable(event) => NextMove::Handle(event),
            Incoming::Unreadable => NextMove::Receive,
            Incoming::Handled(_) => NextMove::Receive,
            Incoming::Closed => NextMove::Stop,
        }
    }
}

} // verus!
