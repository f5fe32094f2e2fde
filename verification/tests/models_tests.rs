use botserver::ApiResponse;
use botserver::Attachment;
use botserver::BotResponse;
use botserver::MessageType;
use botserver::Session;
use botserver::Suggestion;
use botserver::UserMessage;

#[test]
fn test_api_response_success() {
    let response: ApiResponse<String> = ApiResponse::success("test".to_string());
    assert!(response.is_success());
    assert!(!response.is_error());
    assert_eq!(response.data, Some("test".to_string()));
    assert!(response.error.is_none());
}

#[test]
fn test_api_response_error() {
    let response: ApiResponse<String> = ApiResponse::error("something went wrong".to_string());
    assert!(!response.is_success());
    assert!(response.is_error());
    assert!(response.data.is_none());
    assert_eq!(response.error, Some("something went wrong".to_string()));
}

#[test]
fn test_api_response_map() {
    let response: ApiResponse<i32> = ApiResponse::success(42);
    let mapped = response.map(|n| n.to_string());
    assert_eq!(mapped.data, Some("42".to_string()));
}

#[test]
fn test_api_response_with_message_and_code() {
    let ok: ApiResponse<u32> = ApiResponse::success_with_message(7, "done".to_string());
    assert!(ok.is_success());
    assert_eq!(ok.message, Some("done".to_string()));
    let err: ApiResponse<u32> =
        ApiResponse::error_with_code("nope".to_string(), "E42".to_string());
    assert!(err.is_error());
    assert_eq!(err.error, Some("nope".to_string()));
    assert_eq!(err.code, Some("E42".to_string()));
}

#[test]
fn test_session_creation() {
    let user_id = uuid::Uuid::new_v4().as_u128();
    let bot_id = uuid::Uuid::new_v4().as_u128();
    let session = Session::new(user_id, bot_id, "Test Session".to_string());

    assert_eq!(session.user_id, user_id);
    assert_eq!(session.bot_id, bot_id);
    assert_eq!(session.title, "Test Session");
    assert!(session.is_active());
    assert!(!session.is_expired());
}

#[test]
fn test_session_expiry() {
    let session = Session::new(1, 2, "s".to_string()).with_expiry(100);
    assert!(!session.is_expired_at(100));
    assert!(session.is_expired_at(101));
    assert_eq!(session.remaining_time_at(40), Some(60));
    assert_eq!(session.remaining_time_at(160), Some(-60));
    let open_ended = Session::new(1, 2, "s".to_string());
    assert_eq!(open_ended.remaining_time_at(40), None);
}

#[test]
fn test_user_message_creation() {
    let msg = UserMessage::text(
        "bot1".to_string(),
        "user1".to_string(),
        "sess1".to_string(),
        "web".to_string(),
        "Hello!".to_string(),
    )
    .with_context("greeting".to_string());

    assert_eq!(msg.content, "Hello!");
    assert_eq!(msg.message_type, MessageType::USER());
    assert_eq!(msg.context_name, Some("greeting".to_string()));
}

#[test]
fn test_user_message_media() {
    let plain = UserMessage::text(
        "b".to_string(),
        "u".to_string(),
        "s".to_string(),
        "web".to_string(),
        "hi".to_string(),
    );
    assert!(!plain.has_media());
    let with_media = plain.with_media("https://example.com/a.png".to_string());
    assert!(with_media.has_media());
    assert_eq!(with_media.media_url, Some("https://example.com/a.png".to_string()));
}

#[test]
fn test_bot_response_creation() {
    let response = BotResponse::new(
        "bot1".to_string(),
        "sess1".to_string(),
        "user1".to_string(),
        "Hi there!".to_string(),
        "web".to_string(),
    )
    .add_suggestion("Option 1".into())
    .add_suggestion("Option 2".into());

    assert!(response.is_complete);
    assert!(!response.is_streaming());
    assert!(response.has_suggestions());
    assert_eq!(response.suggestions.len(), 2);
}

#[test]
fn test_bot_response_streaming() {
    let mut response = BotResponse::streaming(
        "bot1".to_string(),
        "sess1".to_string(),
        "user1".to_string(),
        "web".to_string(),
        "token123".to_string(),
    );
    assert!(response.is_streaming());
    assert!(!response.is_complete);

    response.append_content("Hello ");
    response.append_content("World!");
    assert_eq!(response.content, "Hello World!");

    let response = response.complete();
    assert!(!response.is_streaming());
    assert!(response.is_complete);
}

#[test]
fn test_bot_response_context() {
    let response = BotResponse::new(
        "b".to_string(),
        "s".to_string(),
        "u".to_string(),
        "hi".to_string(),
        "web".to_string(),
    )
    .with_context("sales".to_string(), 10, 100);
    assert_eq!(response.context_name, Some("sales".to_string()));
    assert_eq!(response.context_length, 10);
    assert_eq!(response.context_max_length, 100);
}

#[test]
fn test_attachment_creation() {
    let attachment = Attachment::image("https://example.com/photo.jpg".to_string())
        .with_filename("photo.jpg".to_string())
        .with_size(1024)
        .with_mime_type("image/jpeg".to_string());

    assert!(attachment.is_image());
    assert!(attachment.is_media());
    assert_eq!(attachment.filename, Some("photo.jpg".to_string()));
    assert_eq!(attachment.size, Some(1024));
}

#[test]
fn test_attachment_kinds() {
    assert!(Attachment::audio("a".to_string()).is_media());
    assert!(Attachment::video("v".to_string()).is_media());
    assert!(!Attachment::document("d".to_string()).is_media());
    assert!(!Attachment::file("f".to_string()).is_image());
    let thumb = Attachment::video("v".to_string()).with_thumbnail("t".to_string());
    assert_eq!(thumb.thumbnail_url, Some("t".to_string()));
}

#[test]
fn test_suggestion_from_string() {
    let suggestion: Suggestion = "Click here".into();
    assert_eq!(suggestion.text, "Click here");
    assert!(suggestion.context.is_none());
}

#[test]
fn test_suggestion_builders() {
    let s = Suggestion::new("Buy".to_string())
        .with_context("cart".to_string())
        .with_action("checkout".to_string())
        .with_icon("cart-icon".to_string());
    assert_eq!(s.text, "Buy");
    assert_eq!(s.context, Some("cart".to_string()));
    assert_eq!(s.action, Some("checkout".to_string()));
    assert_eq!(s.icon, Some("cart-icon".to_string()));
}
