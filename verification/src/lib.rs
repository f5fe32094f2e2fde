//! Admission control and resilience primitives for a bot server:
//! a multi-scope fixed-window rate limiter, retry-with-backoff and
//! deadline policies, and the value objects that surround them.
use vstd::prelude::*;

pub mod branding;
pub mod error;
pub mod limits;
pub mod message_types;
pub mod models;
pub mod resilience;
pub mod smap;
pub(crate) mod sys;
pub mod text;
pub mod version;

pub use branding::apply_product_line;
pub use branding::copyright_text;
pub use branding::derive_short_name;
pub use branding::footer_text;
pub use branding::is_white_label;
pub use branding::log_prefix;
pub use branding::platform_name;
pub use branding::platform_short;
pub use branding::BrandingConfig;
pub use error::BotError;
pub use limits::check_array_length_limit;
pub use limits::check_file_size_limit;
pub use limits::check_loop_limit;
pub use limits::check_recursion_limit;
pub use limits::check_string_length_limit;
pub use limits::format_limit_error_response;
pub use limits::LimitExceeded;
pub use limits::LimitType;
pub use limits::RateLimiter;
pub use limits::SystemLimits;
pub use message_types::MessageType;
pub use models::ApiResponse;
pub use models::Attachment;
pub use models::AttachmentType;
pub use models::BotResponse;
pub use models::Session;
pub use models::Suggestion;
pub use models::UserMessage;
pub use resilience::retry_step;
pub use resilience::retry_step_with;
pub use resilience::timeout_outcome;
pub use resilience::ResilienceError;
pub use resilience::RetryConfig;
pub use resilience::RetryDecision;
pub use smap::StrMap;
pub use version::get_botserver_version;
pub use version::version_string;
pub use version::ComponentSource;
pub use version::ComponentStatus;
pub use version::ComponentVersion;
pub use version::VersionRegistry;
