use botserver::MessageType;

#[test]
fn test_message_type_conversion() {
    assert_eq!(i32::from(MessageType::USER()), 1);
    assert_eq!(MessageType::from(2), MessageType::BOT_RESPONSE());
}

#[test]
fn test_message_type_display() {
    assert_eq!(MessageType::USER().as_str(), "USER");
    assert_eq!(MessageType::BOT_RESPONSE().as_str(), "BOT_RESPONSE");
}

#[test]
fn test_message_type_equality() {
    assert_eq!(MessageType::USER(), MessageType(1));
    assert_ne!(MessageType::USER(), MessageType::BOT_RESPONSE());
}

#[test]
fn test_message_type_names() {
    assert_eq!(MessageType::EXTERNAL().as_str(), "EXTERNAL");
    assert_eq!(MessageType::CONTINUE().as_str(), "CONTINUE");
    assert_eq!(MessageType::SUGGESTION().as_str(), "SUGGESTION");
    assert_eq!(MessageType::CONTEXT_CHANGE().as_str(), "CONTEXT_CHANGE");
    assert_eq!(MessageType(42).as_str(), "UNKNOWN");
}

#[test]
fn test_message_type_default() {
    assert_eq!(MessageType::default(), MessageType::USER());
    assert_eq!(MessageType::default().code(), 1);
}
