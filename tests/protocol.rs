use std::str::FromStr;

use asterisk::context::ContextMessage;
use asterisk::error::DreamerError;
use asterisk::protocol::{
    ActionMessage, MessageKind, NotificationMessage, ObservationMessage, ThoughtMessage,
    ThreadMessage,
};

#[test]
fn test_agent_dreamer_thread_message_from_str() {
    let r = ThoughtMessage::from_str("[thought] This is a thought");
    assert!(r.is_ok());
    assert_eq!(r.unwrap().get_full_content(), "[thought] This is a thought");

    let r = ActionMessage::from_str("[action] This is an action");
    assert!(r.is_ok());
    assert_eq!(r.unwrap().get_full_content(), "[action] This is an action");

    let r = ObservationMessage::from_str("[observation] This is an observation");
    assert!(r.is_ok());
    assert_eq!(r.unwrap().get_full_content(), "[observation] This is an observation");

    let r = NotificationMessage::from_str("[notification] This is a notification");
    assert!(r.is_ok());
    assert_eq!(r.unwrap().get_full_content(), "[notification] This is a notification");

    let r = ThreadMessage::from_str("[thought] This is a thought");
    assert!(r.is_ok());

    let r = ThreadMessage::from_str("This is a thought");
    assert!(r.is_err());
}

#[test]
fn constructors_prepend_tag_and_newline() {
    assert_eq!(ThreadMessage::thought("hi").get_full_content(), "[thought]\nhi");
    assert_eq!(ThreadMessage::action("hi").get_full_content(), "[action]\nhi");
    assert_eq!(ThreadMessage::observation("hi").get_full_content(), "[observation]\nhi");
    assert_eq!(ThreadMessage::notification("hi").get_full_content(), "[notification]\nhi");
    assert_eq!(ContextMessage::new("hi").get_full_content(), "[context]\nhi");
}

#[test]
fn round_trip_for_every_kind() {
    let text = "  \n some text ";
    let cases = [
        (ThreadMessage::thought(text), MessageKind::Thought),
        (ThreadMessage::action(text), MessageKind::Action),
        (ThreadMessage::observation(text), MessageKind::Observation),
        (ThreadMessage::notification(text), MessageKind::Notification),
    ];
    for (message, kind) in cases.iter() {
        let parsed = ThreadMessage::classify(message.get_full_content()).unwrap();
        assert_eq!(parsed.kind(), *kind);
        assert_eq!(parsed.get_main_content(), "some text ");
        assert_eq!(parsed.get_full_content(), message.get_full_content());
    }
}

#[test]
fn main_content_strips_tag_and_leading_white_space() {
    let m = ThoughtMessage::from_str("[thought] This is a thought").unwrap();
    assert_eq!(m.get_main_content(), "This is a thought");
    let m = ThoughtMessage::from_str("[thought]\n\n\tdeep").unwrap();
    assert_eq!(m.get_main_content(), "deep");
    let m = ActionMessage::from_str("[action]").unwrap();
    assert_eq!(m.get_main_content(), "");
    let m = NotificationMessage::from_str("[notification]\u{3000}wide space").unwrap();
    assert_eq!(m.get_main_content(), "wide space");
}

#[test]
fn classify_rejects_untagged_text() {
    for s in ["", "   ", "\n", "thought", "[thought", " [thought] leading space", "[context]\nx"] {
        match ThreadMessage::classify(s) {
            Err(DreamerError::InvalidThreadMessage(t)) => assert_eq!(t, s),
            other => panic!("unexpected {:?}", other),
        }
    }
}

#[test]
fn classify_picks_the_tag_at_the_start() {
    let m = ThreadMessage::classify("[action][thought]").unwrap();
    assert_eq!(m.kind(), MessageKind::Action);
    let m = ThreadMessage::classify("[observation]\nok").unwrap();
    assert!(matches!(m, ThreadMessage::Observation(_)));
    let m = ThreadMessage::classify("[notification]").unwrap();
    assert!(matches!(m, ThreadMessage::Notification(_)));
}

#[test]
fn single_kind_parsers_report_their_own_error() {
    assert!(matches!(
        ThoughtMessage::parse("[action] x"),
        Err(DreamerError::InvalidThoughtMessage(_))
    ));
    assert!(matches!(
        ActionMessage::parse("x"),
        Err(DreamerError::InvalidActionMessage(_))
    ));
    assert!(matches!(
        ObservationMessage::parse(""),
        Err(DreamerError::InvalidObservationMessage(_))
    ));
    assert!(matches!(
        NotificationMessage::parse("[thought]"),
        Err(DreamerError::InvalidNotificationMessage(_))
    ));
}

#[test]
fn incompleteness_is_the_trailing_ellipsis() {
    assert!(ThoughtMessage::new("still thinking...").is_incomplete());
    assert!(!ThoughtMessage::new("done.").is_incomplete());
    assert!(!ThoughtMessage::new("trailing... ").is_incomplete());
    assert!(ObservationMessage::new("partial...").is_incomplete());
    assert!(!ObservationMessage::new("..").is_incomplete());
    assert!(ObservationMessage::from_str("[observation]...").unwrap().is_incomplete());
    assert!(!ThoughtMessage::from_str("[thought]").unwrap().is_incomplete());
}

#[test]
fn context_message_parsing_skips_leading_blanks() {
    let c = ContextMessage::from_str("  \n[context]\nthe weather").unwrap();
    assert_eq!(c.get_full_content(), "[context]\nthe weather");
    assert_eq!(c.get_main_content(), "the weather");
    match ContextMessage::parse("  nothing") {
        Err(DreamerError::InvalidContextMessage(t)) => assert_eq!(t, "nothing"),
        other => panic!("unexpected {:?}", other),
    }
}
