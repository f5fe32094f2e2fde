//! The numeric discriminator carried by every message on the wire.
use vstd::prelude::*;

verus! {

/// A message kind, as the wire encodes it: a small integer code.
#[derive(Debug, Clone, Copy, PartialEq, Eq, Structural)]
pub struct MessageType(pub i32);

/// The display name of a message kind; codes outside the known range
/// all read as `UNKNOWN`.
pub open spec fn message_type_name(t: MessageType) -> Seq<char> {
    if t.0 == 0 {
        "EXTERNAL"@
    } else if t.0 == 1 {
        "USER"@
    } else if t.0 == 2 {
        "BOT_RESPONSE"@
    } else if t.0 == 3 {
        "CONTINUE"@
    } else if t.0 == 4 {
        "SUGGESTION"@
    } else if t.0 == 5 {
        "CONTEXT_CHANGE"@
    } else {
        "UNKNOWN"@
    }
}

impl MessageType {
    /// A message coming from outside the platform.
    #[allow(non_snake_case)]
    pub fn EXTERNAL() -> (r: Self)
        ensures
            r == MessageType(0),
    {
        MessageType(0)
    }

    /// A message typed by the user.
    #[allow(non_snake_case)]
    pub fn USER() -> (r: Self)
        ensures
            r == MessageType(1),
    {
        MessageType(1)
    }

    /// A reply produced by the bot.
    #[allow(non_snake_case)]
    pub fn BOT_RESPONSE() -> (r: Self)
        ensures
            r == MessageType(2),
    {
        MessageType(2)
    }

    /// A continuation of an earlier reply.
    #[allow(non_snake_case)]
    pub fn CONTINUE() -> (r: Self)
        ensures
            r == MessageType(3),
    {
        MessageType(3)
    }

    /// A suggested quick reply.
    #[allow(non_snake_case)]
    pub fn SUGGESTION() -> (r: Self)
        ensures
            r == MessageType(4),
    {
        MessageType(4)
    }

    /// A change of conversation context.
    #[allow(non_snake_case)]
    pub fn CONTEXT_CHANGE() -> (r: Self)
        ensures
            r == MessageType(5),
    {
        MessageType(5)
    }

    /// The numeric code of this kind.
    pub fn code(&self) -> (r: i32)
        ensures
            r == self.0,
    {
        self.0
    }

    /// The display name of this kind.
    pub fn as_str(&self) -> (s: &'static str)
        ensures
            s@ == message_type_name(*self),
    {
        if self.0 == 0 {
            "EXTERNAL"
        } else if self.0 == 1 {
            "USER"
        } else if self.0 == 2 {
            "BOT_RESPONSE"
        } else if self.0 == 3 {
            "CONTINUE"
        } else if self.0 == 4 {
            "SUGGESTION"
        } else if self.0 == 5 {
            "CONTEXT_CHANGE"
        } else {
            "UNKNOWN"
        }
    }
}

impl From<i32> for MessageType {
    /// Wraps a raw wire code.
    fn from(value: i32) -> (r: Self) {
        MessageType(value)
    }
}

impl vstd::std_specs::convert::FromSpecImpl<i32> for MessageType {
    open spec fn obeys_from_spec() -> bool {
        true
    }

    open spec fn from_spec(value: i32) -> Self {
        MessageType(value)
    }
}

impl From<MessageType> for i32 {
    /// Unwraps to the raw wire code.
    fn from(value: MessageType) -> (r: i32) {
        value.0
    }
}

impl vstd::std_specs::convert::FromSpecImpl<MessageType> for i32 {
    open spec fn obeys_from_spec() -> bool {
        true
    }

    open spec fn from_spec(value: MessageType) -> i32 {
        value.0
    }
}

impl Default for MessageType {
    /// A user message, the commonest kind.
    fn default() -> (r: Self)
        ensures
            r == MessageType(1),
    {
        MessageType(1)
    }
}

} // verus!
