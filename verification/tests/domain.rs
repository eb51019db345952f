use task_service::domain::{DomainError, TaskStatus};
use task_service::identifier::Uuid;
use task_service::text::{joined, same_text};

#[test]
fn statuses_are_written_in_snake_case() {
    assert_eq!(TaskStatus::Todo.to_string(), "todo");
    assert_eq!(TaskStatus::InProgress.to_string(), "in_progress");
    assert_eq!(TaskStatus::Done.to_string(), "done");
    assert_eq!(TaskStatus::Cancelled.to_string(), "cancelled");
    assert_eq!(TaskStatus::default(), TaskStatus::Todo);
}

#[test]
fn written_status_is_read_back() {
    for status in [
        TaskStatus::Todo,
        TaskStatus::InProgress,
        TaskStatus::Done,
        TaskStatus::Cancelled,
    ] {
        assert_eq!(TaskStatus::from_str(&status.to_string()).unwrap(), status);
    }
}

#[test]
fn other_words_are_no_status() {
    for text in ["", "Todo", "in progress", "todo ", "deleted"] {
        match TaskStatus::from_str(text) {
            Err(DomainError::InvalidStatus(refused)) => assert_eq!(refused, text),
            other => panic!("{:?}", other),
        }
    }
}

#[test]
fn errors_in_words() {
    let id = Uuid { bits: 0x67e55044_10b1_426f_9247_bb680e5fe0c8 };
    assert_eq!(
        DomainError::NotFound(id).to_string(),
        "Task not found: 67e55044-10b1-426f-9247-bb680e5fe0c8"
    );
    assert_eq!(
        DomainError::Forbidden(Uuid { bits: 0xab }).to_string(),
        "Access denied for task: 00000000-0000-0000-0000-0000000000ab"
    );
    assert_eq!(
        DomainError::InvalidStatus("x".to_string()).to_string(),
        "Invalid status value: 'x'"
    );
    assert_eq!(
        DomainError::CircularReference.to_string(),
        "Circular parent reference detected"
    );
    assert_eq!(DomainError::SelfReference.to_string(), "Cannot set parent to itself");
    assert_eq!(
        DomainError::Validation("title must not be empty".to_string()).to_string(),
        "Validation error: title must not be empty"
    );
    assert_eq!(DomainError::Database("gone".to_string()).to_string(), "Database error: gone");
    assert_eq!(DomainError::Messaging("mute".to_string()).to_string(), "Messaging error: mute");
}

#[test]
fn texts_are_joined_and_told_apart() {
    assert_eq!(joined("ab", "\u{fc}c"), "ab\u{fc}c");
    assert!(same_text("a\u{fc}", "a\u{fc}"));
    assert!(!same_text("a", "A"));
    assert!(!same_text("", " "));
}
