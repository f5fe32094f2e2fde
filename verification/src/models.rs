//! The value objects exchanged with the surrounding service: API
//! envelopes, sessions, user messages, bot responses and attachments.
//!
//! Identifiers that the original wire format carries as UUIDs are held
//! as their 128-bit values, and timestamps as whole seconds since the
//! Unix epoch; the service's serialization layer converts at the edge.
use crate::message_types::MessageType;
use crate::sys::clock_now_secs;
use crate::sys::new_uuid_v4;
use vstd::prelude::*;

verus! {

/// The uniform response envelope of the HTTP API.
#[derive(Debug, Clone)]
pub struct ApiResponse<T> {
    pub success: bool,
    pub data: Option<T>,
    pub error: Option<String>,
    pub message: Option<String>,
    pub code: Option<String>,
}

impl<T> ApiResponse<T> {
    /// A successful envelope around `data`.
    pub fn success(data: T) -> (r: Self)
        ensures
            r.success == true,
            r.data == Some(data),
            r.error is None,
            r.message is None,
            r.code is None,
    {
        ApiResponse { success: true, data: Some(data), error: None, message: None, code: None }
    }

    /// A successful envelope with an informational message.
    pub fn success_with_message(data: T, message: String) -> (r: Self)
        ensures
            r.success == true,
            r.data == Some(data),
            r.error is None,
            r.message == Some(message),
            r.code is None,
    {
        ApiResponse {
            success: true,
            data: Some(data),
            error: None,
            message: Some(message),
            code: None,
        }
    }

    /// A failed envelope with an error message.
    pub fn error(message: String) -> (r: Self)
        ensures
            r.success == false,
            r.data is None,
            r.error == Some(message),
            r.message is None,
            r.code is None,
    {
        ApiResponse {
            success: false,
            data: None,
            error: Some(message),
            message: None,
            code: None,
        }
    }

    /// A failed envelope with an error message and a machine code.
    pub fn error_with_code(message: String, code: String) -> (r: Self)
        ensures
            r.success == false,
            r.data is None,
            r.error == Some(message),
            r.message is None,
            r.code == Some(code),
    {
        ApiResponse {
            success: false,
            data: None,
            error: Some(message),
            message: None,
            code: Some(code),
        }
    }

    /// Maps the payload, leaving every other field as it is.
    pub fn map<U, F: FnOnce(T) -> U>(self, f: F) -> (r: ApiResponse<U>)
        requires
            self.data matches Some(t) ==> call_requires(f, (t,)),
        ensures
            r.success == self.success,
            r.error == self.error,
            r.message == self.message,
            r.code == self.code,
            self.data is None ==> r.data is None,
            self.data matches Some(t) ==> r.data matches Some(u) && call_ensures(f, (t,), u),
    {
        let data = match self.data {
            Some(t) => Some(f(t)),
            None => None,
        };
        ApiResponse {
            success: self.success,
            data,
            error: self.error,
            message: self.message,
            code: self.code,
        }
    }

    /// Whether this envelope reports success.
    pub fn is_success(&self) -> (r: bool)
        ensures
            r == self.success,
    {
        self.success
    }

    /// Whether this envelope reports failure.
    pub fn is_error(&self) -> (r: bool)
        ensures
            r == !self.success,
    {
        !self.success
    }
}

/// A conversation session: who talks to which bot, and for how long.
#[derive(Debug, Clone)]
pub struct Session {
    pub id: u128,
    pub user_id: u128,
    pub bot_id: u128,
    pub title: String,
    pub created_at_secs: u64,
    pub updated_at_secs: u64,
    pub expires_at_secs: Option<u64>,
}

/// Whether a session has expired by `now_secs`.
pub open spec fn session_expired_at(s: Session, now_secs: u64) -> bool {
    s.expires_at_secs matches Some(e) && now_secs > e
}

impl Session {
    /// A fresh session with a random identifier, created now, with no
    /// expiry.
    pub fn new(user_id: u128, bot_id: u128, title: String) -> (r: Self)
        ensures
            r.user_id == user_id,
            r.bot_id == bot_id,
            r.title == title,
            r.updated_at_secs == r.created_at_secs,
            r.expires_at_secs is None,
    {
        let now = clock_now_secs();
        Session {
            id: new_uuid_v4(),
            user_id,
            bot_id,
            title,
            created_at_secs: now,
            updated_at_secs: now,
            expires_at_secs: None,
        }
    }

    /// The same session with an expiry time.
    pub fn with_expiry(self, expires_at_secs: u64) -> (r: Self)
        ensures
            r == (Session { expires_at_secs: Some(expires_at_secs), ..self }),
    {
        Session { expires_at_secs: Some(expires_at_secs), ..self }
    }

    /// Whether the session had expired at the given time.
    pub fn is_expired_at(&self, now_secs: u64) -> (r: bool)
        ensures
            r == session_expired_at(*self, now_secs),
    {
        match self.expires_at_secs {
            Some(e) => now_secs > e,
            None => false,
        }
    }

    /// Whether the session has expired by the clock's present reading.
    /// A session with no expiry never expires.
    pub fn is_expired(&self) -> (r: bool)
        ensures
            self.expires_at_secs is None ==> r == false,
    {
        let now = clock_now_secs();
        self.is_expired_at(now)
    }

    /// Whether the session is still usable; the complement of
    /// [`Session::is_expired`].
    pub fn is_active(&self) -> (r: bool)
        ensures
            self.expires_at_secs is None ==> r == true,
    {
        !self.is_expired()
    }

    /// Seconds from `now_secs` until expiry (negative once past it),
    /// saturated at the `i64` range; `None` when no expiry is set.
    pub fn remaining_time_at(&self, now_secs: u64) -> (r: Option<i64>)
        ensures
            r is Some <==> self.expires_at_secs is Some,
            self.expires_at_secs matches Some(e) ==> r == Some(
                if e - now_secs > i64::MAX {
                    i64::MAX
                } else if e - now_secs < i64::MIN {
                    i64::MIN
                } else {
                    (e - now_secs) as i64
                },
            ),
    {
        match self.expires_at_secs {
            Some(e) => {
                let diff: i128 = (e as i128) - (now_secs as i128);
                if diff > i64::MAX as i128 {
                    Some(i64::MAX)
                } else if diff < i64::MIN as i128 {
                    Some(i64::MIN)
                } else {
                    Some(diff as i64)
                }
            },
            None => None,
        }
    }

    /// Seconds until expiry measured from the clock's present reading;
    /// `None` when no expiry is set.
    pub fn remaining_time(&self) -> (r: Option<i64>)
        ensures
            r is Some <==> self.expires_at_secs is Some,
    {
        let now = clock_now_secs();
        self.remaining_time_at(now)
    }
}

/// One inbound message from a user to a bot.
#[derive(Debug, Clone)]
pub struct UserMessage {
    pub bot_id: String,
    pub user_id: String,
    pub session_id: String,
    pub channel: String,
    pub content: String,
    pub message_type: MessageType,
    pub media_url: Option<String>,
    pub timestamp_secs: u64,
    pub context_name: Option<String>,
}

impl UserMessage {
    /// A plain text message, stamped with the clock's present reading.
    pub fn text(
        bot_id: String,
        user_id: String,
        session_id: String,
        channel: String,
        content: String,
    ) -> (r: Self)
        ensures
            r.bot_id == bot_id,
            r.user_id == user_id,
            r.session_id == session_id,
            r.channel == channel,
            r.content == content,
            r.message_type == MessageType(1),
            r.media_url is None,
            r.context_name is None,
    {
        UserMessage {
            bot_id,
            user_id,
            session_id,
            channel,
            content,
            message_type: MessageType::USER(),
            media_url: None,
            timestamp_secs: clock_now_secs(),
            context_name: None,
        }
    }

    /// The same message with an attached media URL.
    pub fn with_media(self, url: String) -> (r: Self)
        ensures
            r == (UserMessage { media_url: Some(url), ..self }),
    {
        UserMessage { media_url: Some(url), ..self }
    }

    /// The same message tagged with a conversation context.
    pub fn with_context(self, context: String) -> (r: Self)
        ensures
            r == (UserMessage { context_name: Some(context), ..self }),
    {
        UserMessage { context_name: Some(context), ..self }
    }

    /// Whether the message carries media.
    pub fn has_media(&self) -> (r: bool)
        ensures
            r == (self.media_url is Some),
    {
        self.media_url.is_some()
    }
}

/// A suggested quick reply offered alongside a bot response.
#[derive(Debug, Clone)]
pub struct Suggestion {
    pub text: String,
    pub context: Option<String>,
    pub action: Option<String>,
    pub icon: Option<String>,
}

impl Suggestion {
    /// A bare suggestion with just its text.
    pub fn new(text: String) -> (r: Self)
        ensures
            r.text == text,
            r.context is None,
            r.action is None,
            r.icon is None,
    {
        Suggestion { text, context: None, action: None, icon: None }
    }

    /// The same suggestion tagged with a context.
    pub fn with_context(self, context: String) -> (r: Self)
        ensures
            r == (Suggestion { context: Some(context), ..self }),
    {
        Suggestion { context: Some(context), ..self }
    }

    /// The same suggestion with an action.
    pub fn with_action(self, action: String) -> (r: Self)
        ensures
            r == (Suggestion { action: Some(action), ..self }),
    {
        Suggestion { action: Some(action), ..self }
    }

    /// The same suggestion with an icon.
    pub fn with_icon(self, icon: String) -> (r: Self)
        ensures
            r == (Suggestion { icon: Some(icon), ..self }),
    {
        Suggestion { icon: Some(icon), ..self }
    }
}

impl From<&str> for Suggestion {
    /// A bare suggestion from its text.
    fn from(text: &str) -> (r: Self) {
        Suggestion::new(text.to_owned())
    }
}

impl vstd::std_specs::convert::FromSpecImpl<&str> for Suggestion {
    open spec fn obeys_from_spec() -> bool {
        false
    }

    open spec fn from_spec(text: &str) -> Self {
        arbitrary()
    }
}

/// One outbound message from a bot to a user, possibly streamed in
/// chunks.
#[derive(Debug, Clone)]
pub struct BotResponse {
    pub bot_id: String,
    pub user_id: String,
    pub session_id: String,
    pub channel: String,
    pub content: String,
    pub message_type: MessageType,
    pub stream_token: Option<String>,
    pub is_complete: bool,
    pub suggestions: Vec<Suggestion>,
    pub context_name: Option<String>,
    pub context_length: usize,
    pub context_max_length: usize,
}

impl BotResponse {
    /// A complete, non-streamed response.
    pub fn new(
        bot_id: String,
        session_id: String,
        user_id: String,
        content: String,
        channel: String,
    ) -> (r: Self)
        ensures
            r.bot_id == bot_id,
            r.session_id == session_id,
            r.user_id == user_id,
            r.content == content,
            r.channel == channel,
            r.message_type == MessageType(2),
            r.stream_token is None,
            r.is_complete == true,
            r.suggestions@ == Seq::<Suggestion>::empty(),
            r.context_name is None,
            r.context_length == 0,
            r.context_max_length == 0,
    {
        BotResponse {
            bot_id,
            user_id,
            session_id,
            channel,
            content,
            message_type: MessageType::BOT_RESPONSE(),
            stream_token: None,
            is_complete: true,
            suggestions: Vec::new(),
            context_name: None,
            context_length: 0,
            context_max_length: 0,
        }
    }

    /// The empty first frame of a streamed response.
    pub fn streaming(
        bot_id: String,
        session_id: String,
        user_id: String,
        channel: String,
        stream_token: String,
    ) -> (r: Self)
        ensures
            r.bot_id == bot_id,
            r.session_id == session_id,
            r.user_id == user_id,
            r.channel == channel,
            r.content@ == Seq::<char>::empty(),
            r.message_type == MessageType(2),
            r.stream_token == Some(stream_token),
            r.is_complete == false,
            r.suggestions@ == Seq::<Suggestion>::empty(),
            r.context_name is None,
            r.context_length == 0,
            r.context_max_length == 0,
    {
        BotResponse {
            bot_id,
            user_id,
            session_id,
            channel,
            content: String::new(),
            message_type: MessageType::BOT_RESPONSE(),
            stream_token: Some(stream_token),
            is_complete: false,
            suggestions: Vec::new(),
            context_name: None,
            context_length: 0,
            context_max_length: 0,
        }
    }

    /// The same response with its suggestions replaced.
    pub fn with_suggestions(self, suggestions: Vec<Suggestion>) -> (r: Self)
        ensures
            r == (BotResponse { suggestions, ..self }),
    {
        BotResponse { suggestions, ..self }
    }

    /// The same response with one suggestion appended.
    pub fn add_suggestion(self, suggestion: Suggestion) -> (r: Self)
        ensures
            r.suggestions@ == self.suggestions@.push(suggestion),
            r == (BotResponse { suggestions: r.suggestions, ..self }),
    {
        let mut s = self;
        s.suggestions.push(suggestion);
        s
    }

    /// The same response tagged with its conversation context and the
    /// context window's fill level.
    pub fn with_context(self, name: String, length: usize, max_length: usize) -> (r: Self)
        ensures
            r == (BotResponse {
                context_name: Some(name),
                context_length: length,
                context_max_length: max_length,
                ..self
            }),
    {
        BotResponse {
            context_name: Some(name),
            context_length: length,
            context_max_length: max_length,
            ..self
        }
    }

    /// Appends one streamed chunk to the content.
    pub fn append_content(&mut self, chunk: &str)
        ensures
            final(self).content@ == old(self).content@ + chunk@,
            *final(self) == (BotResponse { content: final(self).content, ..*old(self) }),
    {
        self.content.append(chunk);
    }

    /// The same response marked complete.
    pub fn complete(self) -> (r: Self)
        ensures
            r == (BotResponse { is_complete: true, ..self }),
    {
        BotResponse { is_complete: true, ..self }
    }

    /// Whether the response is still being streamed.
    pub fn is_streaming(&self) -> (r: bool)
        ensures
            r == (self.stream_token is Some && !self.is_complete),
    {
        self.stream_token.is_some() && !self.is_complete
    }

    /// Whether any suggestions are attached.
    pub fn has_suggestions(&self) -> (r: bool)
        ensures
            r == (self.suggestions@.len() > 0),
    {
        self.suggestions.len() > 0
    }
}

/// What kind of file an attachment is.
#[derive(Debug, Clone, Copy, PartialEq, Eq, Structural)]
pub enum AttachmentType {
    Image,
    Audio,
    Video,
    Document,
    File,
}

/// A file attached to a message, by URL.
#[derive(Debug, Clone)]
pub struct Attachment {
    pub attachment_type: AttachmentType,
    pub url: String,
    pub mime_type: Option<String>,
    pub filename: Option<String>,
    pub size: Option<u64>,
    pub thumbnail_url: Option<String>,
}

impl Attachment {
    /// A bare attachment of the given kind.
    pub fn new(attachment_type: AttachmentType, url: String) -> (r: Self)
        ensures
            r.attachment_type == attachment_type,
            r.url == url,
            r.mime_type is None,
            r.filename is None,
            r.size is None,
            r.thumbnail_url is None,
    {
        Attachment {
            attachment_type,
            url,
            mime_type: None,
            filename: None,
            size: None,
            thumbnail_url: None,
        }
    }

    /// An image attachment.
    pub fn image(url: String) -> (r: Self)
        ensures
            r == Attachment::new_spec(AttachmentType::Image, url),
    {
        Attachment::new(AttachmentType::Image, url)
    }

    /// An audio attachment.
    pub fn audio(url: String) -> (r: Self)
        ensures
            r == Attachment::new_spec(AttachmentType::Audio, url),
    {
        Attachment::new(AttachmentType::Audio, url)
    }

    /// A video attachment.
    pub fn video(url: String) -> (r: Self)
        ensures
            r == Attachment::new_spec(AttachmentType::Video, url),
    {
        Attachment::new(AttachmentType::Video, url)
    }

    /// A document attachment.
    pub fn document(url: String) -> (r: Self)
        ensures
            r == Attachment::new_spec(AttachmentType::Document, url),
    {
        Attachment::new(AttachmentType::Document, url)
    }

    /// A generic file attachment.
    pub fn file(url: String) -> (r: Self)
        ensures
            r == Attachment::new_spec(AttachmentType::File, url),
    {
        Attachment::new(AttachmentType::File, url)
    }

    /// What [`Attachment::new`] builds, for use in contracts.
    pub open spec fn new_spec(attachment_type: AttachmentType, url: String) -> Attachment {
        Attachment {
            attachment_type,
            url,
            mime_type: None,
            filename: None,
            size: None,
            thumbnail_url: None,
        }
    }

    /// The same attachment with a MIME type.
    pub fn with_mime_type(self, mime_type: String) -> (r: Self)
        ensures
            r == (Attachment { mime_type: Some(mime_type), ..self }),
    {
        Attachment { mime_type: Some(mime_type), ..self }
    }

    /// The same attachment with a file name.
    pub fn with_filename(self, filename: String) -> (r: Self)
        ensures
            r == (Attachment { filename: Some(filename), ..self }),
    {
        Attachment { filename: Some(filename), ..self }
    }

    /// The same attachment with its size in bytes.
    pub fn with_size(self, size: u64) -> (r: Self)
        ensures
            r == (Attachment { size: Some(size), ..self }),
    {
        Attachment { size: Some(size), ..self }
    }

    /// The same attachment with a thumbnail URL.
    pub fn with_thumbnail(self, thumbnail_url: String) -> (r: Self)
        ensures
            r == (Attachment { thumbnail_url: Some(thumbnail_url), ..self }),
    {
        Attachment { thumbnail_url: Some(thumbnail_url), ..self }
    }

    /// Whether this is an image.
    pub fn is_image(&self) -> (r: bool)
        ensures
            r == (self.attachment_type == AttachmentType::Image),
    {
        self.attachment_type == AttachmentType::Image
    }

    /// Whether this is an image, audio or video attachment.
    pub fn is_media(&self) -> (r: bool)
        ensures
            r == (self.attachment_type == AttachmentType::Image || self.attachment_type
                == AttachmentType::Audio || self.attachment_type == AttachmentType::Video),
    {
        self.attachment_type == AttachmentType::Image || self.attachment_type
            == AttachmentType::Audio || self.attachment_type == AttachmentType::Video
    }
}

} // verus!
