use std::cell::RefCell;

use minigrep::limit::quota_message;
use minigrep::limit::LimitTracker;
use minigrep::limit::Messenger;

struct MockMessenger {
    sent_messages: RefCell<Vec<String>>,
}

impl MockMessenger {
    fn new() -> MockMessenger {
        MockMessenger {
            sent_messages: RefCell::new(vec![]),
        }
    }
}

impl Messenger for MockMessenger {
    fn send(&self, message: &str) {
        self.sent_messages.borrow_mut().push(String::from(message));
    }
}

#[test]
fn it_sends_an_over_75_percent_warning_message() {
    let mock_messenger = MockMessenger::new();
    let mut limit_tracker = LimitTracker::new(&mock_messenger, 100);

    limit_tracker.set_value(80);

    assert_eq!(mock_messenger.sent_messages.borrow().len(), 1);
}

#[test]
fn below_three_quarters_sends_nothing() {
    let mock_messenger = MockMessenger::new();
    let mut limit_tracker = LimitTracker::new(&mock_messenger, 100);

    limit_tracker.set_value(74);

    assert_eq!(mock_messenger.sent_messages.borrow().len(), 0);
}

#[test]
fn quota_message_texts() {
    assert_eq!(None, quota_message(0, 100));
    assert_eq!(None, quota_message(74, 100));
    assert_eq!(
        Some("Warning: You've used up over 75% of your quota!"),
        quota_message(75, 100)
    );
    assert_eq!(
        Some("Urgent warning: You've used up over 90% of your quota!"),
        quota_message(90, 100)
    );
    assert_eq!(
        Some("Error: You are over your quota!"),
        quota_message(100, 100)
    );
    assert_eq!(
        Some("Error: You are over your quota!"),
        quota_message(1, 0)
    );
    assert_eq!(None, quota_message(0, 0));
}
