use icu_monitor::socket::{sent_without_reply, settle, ReplyWait, WSMessage};

fn message(sub: &str, reply_sub: Option<&str>) -> WSMessage {
    WSMessage {
        sub: sub.to_string(),
        payload: Some("Critical status detected".to_string()),
        reply_sub: reply_sub.map(|s| s.to_string()),
        error: None,
    }
}

#[test]
fn a_message_without_reply_subject_is_done_once_sent() {
    assert_eq!(
        sent_without_reply(&message("CriticalAlert", None)),
        Some(WSMessage {
            sub: "NoReplyExpected".to_string(),
            payload: None,
            reply_sub: None,
            error: None,
        })
    );
}

#[test]
fn a_message_with_reply_subject_waits() {
    assert_eq!(sent_without_reply(&message("CriticalAlert", Some("ack-CriticalAlert"))), None);
    assert_eq!(sent_without_reply(&message("CriticalAlert", Some(""))), None);
}

#[test]
fn a_wait_ends_with_the_reply_or_the_reason() {
    let reply = message("ack-CriticalAlert", None);
    assert_eq!(settle(ReplyWait::Received(message("ack-CriticalAlert", None))), Ok(reply));
    assert_eq!(settle(ReplyWait::Closed), Err("Reply channel closed unexpectedly".to_string()));
    assert_eq!(settle(ReplyWait::TimedOut), Err("Timeout waiting for reply".to_string()));
}
