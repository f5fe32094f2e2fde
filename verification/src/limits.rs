//! System ceilings and the multi-scope fixed-window rate limiter.
//!
//! The limiter keeps one counter and one window-start timestamp per scope:
//! two global scopes (minute and hour) plus two per-user scopes.  Callers
//! pass the current time in seconds explicitly, which keeps every decision
//! a function of its arguments; the surrounding service samples the clock
//! and serializes access.
use crate::smap::StrMap;
use crate::text::dec_seq;
use crate::text::u64_string;
use vstd::prelude::*;

verus! {

pub const MAX_LOOP_ITERATIONS: u32 = 100_000;

pub const MAX_RECURSION_DEPTH: u32 = 100;

pub const MAX_FILE_SIZE_BYTES: u64 = 100 * 1024 * 1024;

pub const MAX_UPLOAD_SIZE_BYTES: u64 = 50 * 1024 * 1024;

pub const MAX_REQUEST_BODY_BYTES: u64 = 10 * 1024 * 1024;

pub const MAX_STRING_LENGTH: usize = 10 * 1024 * 1024;

pub const MAX_ARRAY_LENGTH: usize = 1_000_000;

pub const MAX_CONCURRENT_REQUESTS_PER_USER: u32 = 100;

pub const MAX_CONCURRENT_REQUESTS_GLOBAL: u32 = 10_000;

pub const MAX_WEBSOCKET_CONNECTIONS_PER_USER: u32 = 10;

pub const MAX_WEBSOCKET_CONNECTIONS_GLOBAL: u32 = 50_000;

pub const MAX_DB_QUERY_RESULTS: u32 = 10_000;

pub const MAX_DB_CONNECTIONS_PER_TENANT: u32 = 20;

pub const MAX_LLM_TOKENS_PER_REQUEST: u32 = 128_000;

pub const MAX_LLM_REQUESTS_PER_MINUTE: u32 = 60;

pub const MAX_KB_DOCUMENTS_PER_BOT: u32 = 100_000;

pub const MAX_KB_DOCUMENT_SIZE_BYTES: u64 = 50 * 1024 * 1024;

pub const MAX_SCRIPT_EXECUTION_SECONDS: u64 = 300;

pub const MAX_API_CALLS_PER_MINUTE: u32 = 1000;

pub const MAX_API_CALLS_PER_HOUR: u32 = 10_000;

pub const MAX_DRIVE_STORAGE_BYTES: u64 = 10 * 1024 * 1024 * 1024;

pub const MAX_SESSION_IDLE_SECONDS: u64 = 3600;

pub const MAX_SESSIONS_PER_USER: u32 = 10;

pub const MAX_BOTS_PER_TENANT: u32 = 100;

pub const MAX_TOOLS_PER_BOT: u32 = 500;

pub const MAX_PENDING_TASKS: u32 = 1000;

pub const RATE_LIMIT_WINDOW_SECONDS: u64 = 60;

/// Burst allowance in thousandths (1500 = a 1.5x burst).
pub const RATE_LIMIT_BURST_PERMILLE: u32 = 1500;

/// How many times higher the global API ceilings sit above the
/// corresponding per-user ceilings.
pub const GLOBAL_LIMIT_FACTOR: u64 = 100;

/// Per-user entries whose window started longer ago than this are
/// removed by the cleanup sweep.
pub const STALE_ENTRY_SECONDS: u64 = 7200;

/// Immutable numeric ceilings for the whole system.
#[derive(Debug, Clone, Copy)]
pub struct SystemLimits {
    pub max_loop_iterations: u32,
    pub max_recursion_depth: u32,
    pub max_file_size_bytes: u64,
    pub max_upload_size_bytes: u64,
    pub max_request_body_bytes: u64,
    pub max_string_length: usize,
    pub max_array_length: usize,
    pub max_concurrent_requests_per_user: u32,
    pub max_concurrent_requests_global: u32,
    pub max_websocket_connections_per_user: u32,
    pub max_websocket_connections_global: u32,
    pub max_db_query_results: u32,
    pub max_db_connections_per_tenant: u32,
    pub max_llm_tokens_per_request: u32,
    pub max_llm_requests_per_minute: u32,
    pub max_kb_documents_per_bot: u32,
    pub max_kb_document_size_bytes: u64,
    pub max_script_execution_seconds: u64,
    pub max_api_calls_per_minute: u32,
    pub max_api_calls_per_hour: u32,
    pub max_drive_storage_bytes: u64,
    pub max_session_idle_seconds: u64,
    pub max_sessions_per_user: u32,
    pub max_bots_per_tenant: u32,
    pub max_tools_per_bot: u32,
    pub max_pending_tasks: u32,
    pub rate_limit_window_seconds: u64,
    pub rate_limit_burst_permille: u32,
}

impl Default for SystemLimits {
    /// The hardcoded baseline ceilings.
    fn default() -> (r: Self)
        ensures
            r.max_loop_iterations == MAX_LOOP_ITERATIONS,
            r.max_recursion_depth == MAX_RECURSION_DEPTH,
            r.max_file_size_bytes == MAX_FILE_SIZE_BYTES,
            r.max_upload_size_bytes == MAX_UPLOAD_SIZE_BYTES,
            r.max_request_body_bytes == MAX_REQUEST_BODY_BYTES,
            r.max_string_length == MAX_STRING_LENGTH,
            r.max_array_length == MAX_ARRAY_LENGTH,
            r.max_concurrent_requests_per_user == MAX_CONCURRENT_REQUESTS_PER_USER,
            r.max_concurrent_requests_global == MAX_CONCURRENT_REQUESTS_GLOBAL,
            r.max_websocket_connections_per_user == MAX_WEBSOCKET_CONNECTIONS_PER_USER,
            r.max_websocket_connections_global == MAX_WEBSOCKET_CONNECTIONS_GLOBAL,
            r.max_db_query_results == MAX_DB_QUERY_RESULTS,
            r.max_db_connections_per_tenant == MAX_DB_CONNECTIONS_PER_TENANT,
            r.max_llm_tokens_per_request == MAX_LLM_TOKENS_PER_REQUEST,
            r.max_llm_requests_per_minute == MAX_LLM_REQUESTS_PER_MINUTE,
            r.max_kb_documents_per_bot == MAX_KB_DOCUMENTS_PER_BOT,
            r.max_kb_document_size_bytes == MAX_KB_DOCUMENT_SIZE_BYTES,
            r.max_script_execution_seconds == MAX_SCRIPT_EXECUTION_SECONDS,
            r.max_api_calls_per_minute == MAX_API_CALLS_PER_MINUTE,
            r.max_api_calls_per_hour == MAX_API_CALLS_PER_HOUR,
            r.max_drive_storage_bytes == MAX_DRIVE_STORAGE_BYTES,
            r.max_session_idle_seconds == MAX_SESSION_IDLE_SECONDS,
            r.max_sessions_per_user == MAX_SESSIONS_PER_USER,
            r.max_bots_per_tenant == MAX_BOTS_PER_TENANT,
            r.max_tools_per_bot == MAX_TOOLS_PER_BOT,
            r.max_pending_tasks == MAX_PENDING_TASKS,
            r.rate_limit_window_seconds == RATE_LIMIT_WINDOW_SECONDS,
            r.rate_limit_burst_permille == RATE_LIMIT_BURST_PERMILLE,
    {
        SystemLimits {
            max_loop_iterations: MAX_LOOP_ITERATIONS,
            max_recursion_depth: MAX_RECURSION_DEPTH,
            max_file_size_bytes: MAX_FILE_SIZE_BYTES,
            max_upload_size_bytes: MAX_UPLOAD_SIZE_BYTES,
            max_request_body_bytes: MAX_REQUEST_BODY_BYTES,
            max_string_length: MAX_STRING_LENGTH,
            max_array_length: MAX_ARRAY_LENGTH,
            max_concurrent_requests_per_user: MAX_CONCURRENT_REQUESTS_PER_USER,
            max_concurrent_requests_global: MAX_CONCURRENT_REQUESTS_GLOBAL,
            max_websocket_connections_per_user: MAX_WEBSOCKET_CONNECTIONS_PER_USER,
            max_websocket_connections_global: MAX_WEBSOCKET_CONNECTIONS_GLOBAL,
            max_db_query_results: MAX_DB_QUERY_RESULTS,
            max_db_connections_per_tenant: MAX_DB_CONNECTIONS_PER_TENANT,
            max_llm_tokens_per_request: MAX_LLM_TOKENS_PER_REQUEST,
            max_llm_requests_per_minute: MAX_LLM_REQUESTS_PER_MINUTE,
            max_kb_documents_per_bot: MAX_KB_DOCUMENTS_PER_BOT,
            max_kb_document_size_bytes: MAX_KB_DOCUMENT_SIZE_BYTES,
            max_script_execution_seconds: MAX_SCRIPT_EXECUTION_SECONDS,
            max_api_calls_per_minute: MAX_API_CALLS_PER_MINUTE,
            max_api_calls_per_hour: MAX_API_CALLS_PER_HOUR,
            max_drive_storage_bytes: MAX_DRIVE_STORAGE_BYTES,
            max_session_idle_seconds: MAX_SESSION_IDLE_SECONDS,
            max_sessions_per_user: MAX_SESSIONS_PER_USER,
            max_bots_per_tenant: MAX_BOTS_PER_TENANT,
            max_tools_per_bot: MAX_TOOLS_PER_BOT,
            max_pending_tasks: MAX_PENDING_TASKS,
            rate_limit_window_seconds: RATE_LIMIT_WINDOW_SECONDS,
            rate_limit_burst_permille: RATE_LIMIT_BURST_PERMILLE,
        }
    }
}

/// Which ceiling a violation refers to.
#[derive(Debug, Clone, Copy, PartialEq, Eq, Structural)]
pub enum LimitType {
    LoopIterations,
    RecursionDepth,
    FileSize,
    UploadSize,
    RequestBody,
    StringLength,
    ArrayLength,
    ConcurrentRequests,
    WebsocketConnections,
    DbQueryResults,
    DbConnections,
    LlmTokens,
    LlmRequests,
    KbDocuments,
    KbDocumentSize,
    ScriptExecution,
    ApiCallsMinute,
    ApiCallsHour,
    DriveStorage,
    SessionIdle,
    SessionsPerUser,
    BotsPerTenant,
    ToolsPerBot,
    PendingTasks,
}

/// The wire name of each limit type.
pub open spec fn limit_type_name(t: LimitType) -> Seq<char> {
    match t {
        LimitType::LoopIterations => "loop_iterations"@,
        LimitType::RecursionDepth => "recursion_depth"@,
        LimitType::FileSize => "file_size"@,
        LimitType::UploadSize => "upload_size"@,
        LimitType::RequestBody => "request_body"@,
        LimitType::StringLength => "string_length"@,
        LimitType::ArrayLength => "array_length"@,
        LimitType::ConcurrentRequests => "concurrent_requests"@,
        LimitType::WebsocketConnections => "websocket_connections"@,
        LimitType::DbQueryResults => "db_query_results"@,
        LimitType::DbConnections => "db_connections"@,
        LimitType::LlmTokens => "llm_tokens"@,
        LimitType::LlmRequests => "llm_requests"@,
        LimitType::KbDocuments => "kb_documents"@,
        LimitType::KbDocumentSize => "kb_document_size"@,
        LimitType::ScriptExecution => "script_execution"@,
        LimitType::ApiCallsMinute => "api_calls_minute"@,
        LimitType::ApiCallsHour => "api_calls_hour"@,
        LimitType::DriveStorage => "drive_storage"@,
        LimitType::SessionIdle => "session_idle"@,
        LimitType::SessionsPerUser => "sessions_per_user"@,
        LimitType::BotsPerTenant => "bots_per_tenant"@,
        LimitType::ToolsPerBot => "tools_per_bot"@,
        LimitType::PendingTasks => "pending_tasks"@,
    }
}

impl LimitType {
    /// The wire name of this limit type.
    pub fn as_str(&self) -> (s: &'static str)
        ensures
            s@ == limit_type_name(*self),
    {
        match self {
            LimitType::LoopIterations => "loop_iterations",
            LimitType::RecursionDepth => "recursion_depth",
            LimitType::FileSize => "file_size",
            LimitType::UploadSize => "upload_size",
            LimitType::RequestBody => "request_body",
            LimitType::StringLength => "string_length",
            LimitType::ArrayLength => "array_length",
            LimitType::ConcurrentRequests => "concurrent_requests",
            LimitType::WebsocketConnections => "websocket_connections",
            LimitType::DbQueryResults => "db_query_results",
            LimitType::DbConnections => "db_connections",
            LimitType::LlmTokens => "llm_tokens",
            LimitType::LlmRequests => "llm_requests",
            LimitType::KbDocuments => "kb_documents",
            LimitType::KbDocumentSize => "kb_document_size",
            LimitType::ScriptExecution => "script_execution",
            LimitType::ApiCallsMinute => "api_calls_minute",
            LimitType::ApiCallsHour => "api_calls_hour",
            LimitType::DriveStorage => "drive_storage",
            LimitType::SessionIdle => "session_idle",
            LimitType::SessionsPerUser => "sessions_per_user",
            LimitType::BotsPerTenant => "bots_per_tenant",
            LimitType::ToolsPerBot => "tools_per_bot",
            LimitType::PendingTasks => "pending_tasks",
        }
    }
}

/// One violated constraint: which limit, the observed value, the ceiling,
/// and an optional retry hint.  Produced, never stored.
#[derive(Debug, Clone, Copy, PartialEq, Eq)]
pub struct LimitExceeded {
    pub limit_type: LimitType,
    pub current: u64,
    pub maximum: u64,
    pub retry_after_secs: Option<u64>,
}

/// The human-readable description of a violation.
pub open spec fn limit_exceeded_message(e: LimitExceeded) -> Seq<char> {
    "Limit exceeded for "@ + limit_type_name(e.limit_type) + ": "@ + dec_seq(e.current as nat)
        + " > "@ + dec_seq(e.maximum as nat) + " (max)"@
}

impl LimitExceeded {
    /// Renders the violation for humans.
    pub fn message(&self) -> (r: String)
        ensures
            r@ == limit_exceeded_message(*self),
    {
        let mut s = String::from_str("Limit exceeded for ");
        s.append(self.limit_type.as_str());
        s.append(": ");
        let cur = u64_string(self.current);
        s.append(cur.as_str());
        s.append(" > ");
        let max = u64_string(self.maximum);
        s.append(max.as_str());
        s.append(" (max)");
        s
    }
}

/// One counter plus the start of its current window, for one scope.
#[derive(Debug, Clone, Copy, PartialEq, Eq, Structural)]
pub struct RateLimitEntry {
    pub count: u64,
    pub window_start_secs: u64,
}

impl RateLimitEntry {
    /// A fresh entry: empty counter, window starting now.
    pub fn new(now_secs: u64) -> (r: Self)
        ensures
            r == (RateLimitEntry { count: 0, window_start_secs: now_secs }),
    {
        RateLimitEntry { count: 0, window_start_secs: now_secs }
    }
}

/// Seconds elapsed since a window started (zero if the clock appears to
/// have moved backwards).
pub open spec fn elapsed_secs(now: u64, start: u64) -> int {
    if now >= start {
        now - start
    } else {
        0
    }
}

/// Whether a per-user entry is old enough for the cleanup sweep.
pub open spec fn is_stale(e: RateLimitEntry, now: u64) -> bool {
    elapsed_secs(now, e.window_start_secs) > STALE_ENTRY_SECONDS
}

/// One read-reset-increment step on a scope: reset the window if it has
/// lapsed, then speculatively count this call.  Returns the entry as it is
/// left behind and, on violation, the observed post-increment count (the
/// increment is undone, but a window reset sticks).
pub open spec fn bump_entry(e: RateLimitEntry, now: u64, window: u64, max: int) -> (
    RateLimitEntry,
    Option<u64>,
) {
    let e1 = if elapsed_secs(now, e.window_start_secs) > window {
        RateLimitEntry { count: 0, window_start_secs: now }
    } else {
        e
    };
    if e1.count + 1 > max {
        (e1, Some((e1.count + 1) as u64))
    } else {
        (RateLimitEntry { count: (e1.count + 1) as u64, window_start_secs: e1.window_start_secs }, None)
    }
}

/// Executable counterpart of [`bump_entry`].
fn bump_exec(e: RateLimitEntry, now_secs: u64, window_secs: u64, max: u64) -> (r: (
    RateLimitEntry,
    Option<u64>,
))
    requires
        e.count <= max,
        max < u64::MAX,
    ensures
        r == bump_entry(e, now_secs, window_secs, max as int),
        r.0.count <= max,
{
    let e1 = if now_secs >= e.window_start_secs && now_secs - e.window_start_secs > window_secs {
        RateLimitEntry { count: 0, window_start_secs: now_secs }
    } else {
        e
    };
    let c = e1.count + 1;
    if c > max {
        (e1, Some(c))
    } else {
        (RateLimitEntry { count: c, window_start_secs: e1.window_start_secs }, None)
    }
}

/// The abstract state of a rate limiter: its four scopes.
pub struct LimiterScopes {
    pub global_minute: RateLimitEntry,
    pub global_hour: RateLimitEntry,
    pub user_minute: Map<Seq<char>, RateLimitEntry>,
    pub user_hour: Map<Seq<char>, RateLimitEntry>,
}

/// The global per-minute ceiling.
pub open spec fn global_minute_max(limits: SystemLimits) -> int {
    limits.max_api_calls_per_minute as int * GLOBAL_LIMIT_FACTOR as int
}

/// The global per-hour ceiling.
pub open spec fn global_hour_max(limits: SystemLimits) -> int {
    limits.max_api_calls_per_hour as int * GLOBAL_LIMIT_FACTOR as int
}

/// The two global checks: minute scope first, then hour scope; the first
/// violation short-circuits.
pub open spec fn spec_check_global(s: LimiterScopes, limits: SystemLimits, now: u64) -> (
    LimiterScopes,
    Result<(), LimitExceeded>,
) {
    let (gm, over_m) = bump_entry(s.global_minute, now, 60, global_minute_max(limits));
    let s1 = LimiterScopes { global_minute: gm, ..s };
    if over_m is Some {
        (
            s1,
            Err(
                LimitExceeded {
                    limit_type: LimitType::ApiCallsMinute,
                    current: over_m->0,
                    maximum: global_minute_max(limits) as u64,
                    retry_after_secs: Some(60),
                },
            ),
        )
    } else {
        let (gh, over_h) = bump_entry(s1.global_hour, now, 3600, global_hour_max(limits));
        let s2 = LimiterScopes { global_hour: gh, ..s1 };
        if over_h is Some {
            (
                s2,
                Err(
                    LimitExceeded {
                        limit_type: LimitType::ApiCallsHour,
                        current: over_h->0,
                        maximum: global_hour_max(limits) as u64,
                        retry_after_secs: Some(3600),
                    },
                ),
            )
        } else {
            (s2, Ok(()))
        }
    }
}

/// One per-user check: the user's entry is created on first sight, its
/// window reset if lapsed, and this call counted against `max`.
pub open spec fn spec_check_user_window(
    m: Map<Seq<char>, RateLimitEntry>,
    user: Seq<char>,
    now: u64,
    window: u64,
    max: int,
) -> (Map<Seq<char>, RateLimitEntry>, Option<u64>) {
    let e0 = if m.contains_key(user) {
        m[user]
    } else {
        RateLimitEntry { count: 0, window_start_secs: now }
    };
    let (e1, over) = bump_entry(e0, now, window, max);
    (m.insert(user, e1), over)
}

/// The whole admission check: global minute, global hour, user minute,
/// user hour, in that fixed order, stopping at the first violation.
pub open spec fn spec_check_rate_limit(
    s: LimiterScopes,
    limits: SystemLimits,
    user: Seq<char>,
    now: u64,
) -> (LimiterScopes, Result<(), LimitExceeded>) {
    let (s1, rg) = spec_check_global(s, limits, now);
    if rg is Err {
        (s1, rg)
    } else {
        let umax = limits.max_api_calls_per_minute as int;
        let (um, over_m) = spec_check_user_window(s1.user_minute, user, now, 60, umax);
        let s2 = LimiterScopes { user_minute: um, ..s1 };
        if over_m is Some {
            (
                s2,
                Err(
                    LimitExceeded {
                        limit_type: LimitType::ApiCallsMinute,
                        current: over_m->0,
                        maximum: umax as u64,
                        retry_after_secs: Some(60),
                    },
                ),
            )
        } else {
            let hmax = limits.max_api_calls_per_hour as int;
            let (uh, over_h) = spec_check_user_window(s2.user_hour, user, now, 3600, hmax);
            let s3 = LimiterScopes { user_hour: uh, ..s2 };
            if over_h is Some {
                (
                    s3,
                    Err(
                        LimitExceeded {
                            limit_type: LimitType::ApiCallsHour,
                            current: over_h->0,
                            maximum: hmax as u64,
                            retry_after_secs: Some(3600),
                        },
                    ),
                )
            } else {
                (s3, Ok(()))
            }
        }
    }
}

/// Once a scope's window has lapsed, the admission step discards the
/// stale counter entirely: the window restarts at `now`, the call
/// observes post-increment count 1, and any positive ceiling admits it.
pub proof fn lemma_window_reset_discards_stale_count(
    m: Map<Seq<char>, RateLimitEntry>,
    user: Seq<char>,
    now: u64,
    window: u64,
    max: int,
)
    requires
        m.contains_key(user),
        elapsed_secs(now, m[user].window_start_secs) > window,
        1 <= max,
    ensures
        spec_check_user_window(m, user, now, window, max) == (
            m.insert(user, RateLimitEntry { count: 1, window_start_secs: now }),
            None::<u64>,
        ),
{
}

/// The window reset seen through a whole admission check: once a user's
/// minute window has lapsed, the stale count never carries into the new
/// window.  With the other three scopes passing, the check restarts the
/// user's minute scope at `now`, counts only this call, and admits it.
pub proof fn lemma_check_resets_lapsed_minute_window(
    s: LimiterScopes,
    limits: SystemLimits,
    user: Seq<char>,
    now: u64,
)
    requires
        s.user_minute.contains_key(user),
        elapsed_secs(now, s.user_minute[user].window_start_secs) > 60,
        1 <= limits.max_api_calls_per_minute,
        spec_check_global(s, limits, now).1 is Ok,
        spec_check_user_window(
            s.user_hour,
            user,
            now,
            3600,
            limits.max_api_calls_per_hour as int,
        ).1 is None,
    ensures
        spec_check_rate_limit(s, limits, user, now).1 == Ok::<(), LimitExceeded>(()),
        spec_check_rate_limit(s, limits, user, now).0.user_minute[user] == (RateLimitEntry {
            count: 1,
            window_start_secs: now,
        }),
{
    let (s1, rg) = spec_check_global(s, limits, now);
    assert(s1.user_minute == s.user_minute);
    assert(s1.user_hour == s.user_hour);
    lemma_window_reset_discards_stale_count(
        s1.user_minute,
        user,
        now,
        60,
        limits.max_api_calls_per_minute as int,
    );
}

/// A per-user map with the stale entries removed, everything else kept.
pub open spec fn cleaned(m: Map<Seq<char>, RateLimitEntry>, now: u64) -> Map<
    Seq<char>,
    RateLimitEntry,
> {
    Map::new(|k: Seq<char>| m.contains_key(k) && !is_stale(m[k], now), |k: Seq<char>| m[k])
}

/// Running the cleanup sweep twice in a row, with no traffic in between,
/// removes entries once: the second sweep is a no-op.
pub proof fn lemma_cleanup_idempotent(m: Map<Seq<char>, RateLimitEntry>, now: u64)
    ensures
        cleaned(cleaned(m, now), now) == cleaned(m, now),
{
    assert(cleaned(cleaned(m, now), now) =~= cleaned(m, now));
}

/// Multi-scope fixed-window rate limiter: global minute and hour scopes,
/// plus per-user minute and hour scopes created lazily.
#[derive(Debug)]
pub struct RateLimiter {
    limits: SystemLimits,
    global_minute: RateLimitEntry,
    global_hour: RateLimitEntry,
    per_user_minute: StrMap<RateLimitEntry>,
    per_user_hour: StrMap<RateLimitEntry>,
}

impl RateLimiter {
    /// The ceilings this limiter was built with.
    pub closed spec fn limits(&self) -> SystemLimits {
        self.limits
    }

    /// The current abstract state of the four scopes.
    pub closed spec fn scopes(&self) -> LimiterScopes {
        LimiterScopes {
            global_minute: self.global_minute,
            global_hour: self.global_hour,
            user_minute: self.per_user_minute@,
            user_hour: self.per_user_hour@,
        }
    }

    /// Every counter is within its ceiling (so a speculative increment
    /// cannot overflow).
    pub open spec fn counters_bounded(s: LimiterScopes, limits: SystemLimits) -> bool {
        &&& s.global_minute.count <= global_minute_max(limits)
        &&& s.global_hour.count <= global_hour_max(limits)
        &&& forall|k: Seq<char>|
            #[trigger] s.user_minute.contains_key(k) ==> s.user_minute[k].count
                <= limits.max_api_calls_per_minute
        &&& forall|k: Seq<char>|
            #[trigger] s.user_hour.contains_key(k) ==> s.user_hour[k].count
                <= limits.max_api_calls_per_hour
    }

    /// Well-formedness: constructors establish it and every method keeps it.
    pub open spec fn wf(&self) -> bool {
        Self::counters_bounded(self.scopes(), self.limits())
    }

    /// A limiter over the given ceilings, with all windows starting now.
    pub fn new(limits: SystemLimits, now_secs: u64) -> (r: Self)
        ensures
            r.wf(),
            r.limits() == limits,
            r.scopes().global_minute == (RateLimitEntry { count: 0, window_start_secs: now_secs }),
            r.scopes().global_hour == (RateLimitEntry { count: 0, window_start_secs: now_secs }),
            r.scopes().user_minute == Map::<Seq<char>, RateLimitEntry>::empty(),
            r.scopes().user_hour == Map::<Seq<char>, RateLimitEntry>::empty(),
    {
        RateLimiter {
            limits,
            global_minute: RateLimitEntry::new(now_secs),
            global_hour: RateLimitEntry::new(now_secs),
            per_user_minute: StrMap::new(),
            per_user_hour: StrMap::new(),
        }
    }

    /// Admission check for one unit of work by `user_id` at time
    /// `now_secs`: global scopes first, then the user's scopes; the first
    /// ceiling breached is reported and later scopes are left untouched.
    pub fn check_rate_limit(&mut self, user_id: &str, now_secs: u64) -> (r: Result<
        (),
        LimitExceeded,
    >)
        requires
            old(self).wf(),
        ensures
            final(self).wf(),
            final(self).limits() == old(self).limits(),
            ({
                let (s2, r2) = spec_check_rate_limit(
                    old(self).scopes(),
                    old(self).limits(),
                    user_id@,
                    now_secs,
                );
                final(self).scopes() == s2 && r == r2
            }),
    {
        let r = self.check_global_limits(now_secs);
        if r.is_err() {
            return r;
        }
        self.check_user_limits(user_id, now_secs)
    }

    /// The two global scope checks.
    fn check_global_limits(&mut self, now_secs: u64) -> (r: Result<(), LimitExceeded>)
        requires
            old(self).wf(),
        ensures
            final(self).wf(),
            final(self).limits() == old(self).limits(),
            final(self).scopes().user_minute == old(self).scopes().user_minute,
            final(self).scopes().user_hour == old(self).scopes().user_hour,
            ({
                let (s2, r2) = spec_check_global(old(self).scopes(), old(self).limits(), now_secs);
                final(self).scopes() == s2 && r == r2
            }),
    {
        let minute_max = (self.limits.max_api_calls_per_minute as u64) * GLOBAL_LIMIT_FACTOR;
        let (gm, over_m) = bump_exec(self.global_minute, now_secs, 60, minute_max);
        self.global_minute = gm;
        if let Some(current) = over_m {
            return Err(
                LimitExceeded {
                    limit_type: LimitType::ApiCallsMinute,
                    current,
                    maximum: minute_max,
                    retry_after_secs: Some(60),
                },
            );
        }
        let hour_max = (self.limits.max_api_calls_per_hour as u64) * GLOBAL_LIMIT_FACTOR;
        let (gh, over_h) = bump_exec(self.global_hour, now_secs, 3600, hour_max);
        self.global_hour = gh;
        if let Some(current) = over_h {
            return Err(
                LimitExceeded {
                    limit_type: LimitType::ApiCallsHour,
                    current,
                    maximum: hour_max,
                    retry_after_secs: Some(3600),
                },
            );
        }
        Ok(())
    }

    /// The two per-user scope checks.
    fn check_user_limits(&mut self, user_id: &str, now_secs: u64) -> (r: Result<
        (),
        LimitExceeded,
    >)
        requires
            old(self).wf(),
        ensures
            final(self).wf(),
            final(self).limits() == old(self).limits(),
            final(self).scopes().global_minute == old(self).scopes().global_minute,
            final(self).scopes().global_hour == old(self).scopes().global_hour,
            ({
                let umax = old(self).limits().max_api_calls_per_minute as int;
                let (um, over_m) = spec_check_user_window(
                    old(self).scopes().user_minute,
                    user_id@,
                    now_secs,
                    60,
                    umax,
                );
                if over_m is Some {
                    final(self).scopes().user_minute == um && final(self).scopes().user_hour == old(
                        self,
                    ).scopes().user_hour && r == Err::<(), LimitExceeded>(
                        LimitExceeded {
                            limit_type: LimitType::ApiCallsMinute,
                            current: over_m->0,
                            maximum: umax as u64,
                            retry_after_secs: Some(60),
                        },
                    )
                } else {
                    let hmax = old(self).limits().max_api_calls_per_hour as int;
                    let (uh, over_h) = spec_check_user_window(
                        old(self).scopes().user_hour,
                        user_id@,
                        now_secs,
                        3600,
                        hmax,
                    );
                    final(self).scopes().user_minute == um && final(self).scopes().user_hour == uh
                        && if over_h is Some {
                        r == Err::<(), LimitExceeded>(
                            LimitExceeded {
                                limit_type: LimitType::ApiCallsHour,
                                current: over_h->0,
                                maximum: hmax as u64,
                                retry_after_secs: Some(3600),
                            },
                        )
                    } else {
                        r == Ok::<(), LimitExceeded>(())
                    }
                }
            }),
    {
        let r = self.check_user_minute_limit(user_id, now_secs);
        if r.is_err() {
            return r;
        }
        self.check_user_hour_limit(user_id, now_secs)
    }

    /// The per-user minute scope check.
    fn check_user_minute_limit(&mut self, user_id: &str, now_secs: u64) -> (r: Result<
        (),
        LimitExceeded,
    >)
        requires
            old(self).wf(),
        ensures
            final(self).wf(),
            final(self).limits() == old(self).limits(),
            final(self).scopes().global_minute == old(self).scopes().global_minute,
            final(self).scopes().global_hour == old(self).scopes().global_hour,
            final(self).scopes().user_hour == old(self).scopes().user_hour,
            ({
                let umax = old(self).limits().max_api_calls_per_minute as int;
                let (um, over) = spec_check_user_window(
                    old(self).scopes().user_minute,
                    user_id@,
                    now_secs,
                    60,
                    umax,
                );
                final(self).scopes().user_minute == um && r == (if over is Some {
                    Err::<(), LimitExceeded>(
                        LimitExceeded {
                            limit_type: LimitType::ApiCallsMinute,
                            current: over->0,
                            maximum: umax as u64,
                            retry_after_secs: Some(60),
                        },
                    )
                } else {
                    Ok::<(), LimitExceeded>(())
                })
            }),
    {
        let max = self.limits.max_api_calls_per_minute as u64;
        let entry = match self.per_user_minute.get(user_id) {
            Some(e) => *e,
            None => RateLimitEntry::new(now_secs),
        };
        let (e1, over) = bump_exec(entry, now_secs, 60, max);
        self.per_user_minute.insert(user_id.to_owned(), e1);
        proof {
            assert forall|k: Seq<char>| #[trigger]
                self.per_user_minute@.contains_key(k) implies self.per_user_minute@[k].count
                <= self.limits.max_api_calls_per_minute by {
                if k != user_id@ {
                    assert(old(self).scopes().user_minute.contains_key(k));
                }
            }
            assert forall|k: Seq<char>| #[trigger]
                self.per_user_hour@.contains_key(k) implies self.per_user_hour@[k].count
                <= self.limits.max_api_calls_per_hour by {
                assert(old(self).scopes().user_hour.contains_key(k));
            }
        }
        match over {
            Some(current) => Err(
                LimitExceeded {
                    limit_type: LimitType::ApiCallsMinute,
                    current,
                    maximum: max,
                    retry_after_secs: Some(60),
                },
            ),
            None => Ok(()),
        }
    }

    /// The per-user hour scope check.
    fn check_user_hour_limit(&mut self, user_id: &str, now_secs: u64) -> (r: Result<
        (),
        LimitExceeded,
    >)
        requires
            old(self).wf(),
        ensures
            final(self).wf(),
            final(self).limits() == old(self).limits(),
            final(self).scopes().global_minute == old(self).scopes().global_minute,
            final(self).scopes().global_hour == old(self).scopes().global_hour,
            final(self).scopes().user_minute == old(self).scopes().user_minute,
            ({
                let hmax = old(self).limits().max_api_calls_per_hour as int;
                let (uh, over) = spec_check_user_window(
                    old(self).scopes().user_hour,
                    user_id@,
                    now_secs,
                    3600,
                    hmax,
                );
                final(self).scopes().user_hour == uh && r == (if over is Some {
                    Err::<(), LimitExceeded>(
                        LimitExceeded {
                            limit_type: LimitType::ApiCallsHour,
                            current: over->0,
                            maximum: hmax as u64,
                            retry_after_secs: Some(3600),
                        },
                    )
                } else {
                    Ok::<(), LimitExceeded>(())
                })
            }),
    {
        let max = self.limits.max_api_calls_per_hour as u64;
        let entry = match self.per_user_hour.get(user_id) {
            Some(e) => *e,
            None => RateLimitEntry::new(now_secs),
        };
        let (e1, over) = bump_exec(entry, now_secs, 3600, max);
        self.per_user_hour.insert(user_id.to_owned(), e1);
        proof {
            assert forall|k: Seq<char>| #[trigger]
                self.per_user_hour@.contains_key(k) implies self.per_user_hour@[k].count
                <= self.limits.max_api_calls_per_hour by {
                if k != user_id@ {
                    assert(old(self).scopes().user_hour.contains_key(k));
                }
            }
            assert forall|k: Seq<char>| #[trigger]
                self.per_user_minute@.contains_key(k) implies self.per_user_minute@[k].count
                <= self.limits.max_api_calls_per_minute by {
                assert(old(self).scopes().user_minute.contains_key(k));
            }
        }
        match over {
            Some(current) => Err(
                LimitExceeded {
                    limit_type: LimitType::ApiCallsHour,
                    current,
                    maximum: max,
                    retry_after_secs: Some(3600),
                },
            ),
            None => Ok(()),
        }
    }

    /// Maintenance sweep: drops every per-user entry whose window started
    /// more than [`STALE_ENTRY_SECONDS`] ago.  Running it twice in a row
    /// is the same as running it once ([`lemma_cleanup_idempotent`]).
    pub fn cleanup_stale_entries(&mut self, now_secs: u64)
        requires
            old(self).wf(),
        ensures
            final(self).wf(),
            final(self).limits() == old(self).limits(),
            final(self).scopes().global_minute == old(self).scopes().global_minute,
            final(self).scopes().global_hour == old(self).scopes().global_hour,
            final(self).scopes().user_minute == cleaned(old(self).scopes().user_minute, now_secs),
            final(self).scopes().user_hour == cleaned(old(self).scopes().user_hour, now_secs),
    {
        let fresh_minute = cleanup_map(&self.per_user_minute, now_secs);
        self.per_user_minute = fresh_minute;
        let fresh_hour = cleanup_map(&self.per_user_hour, now_secs);
        self.per_user_hour = fresh_hour;
        proof {
            assert forall|k: Seq<char>| #[trigger]
                self.per_user_minute@.contains_key(k) implies self.per_user_minute@[k].count
                <= self.limits.max_api_calls_per_minute by {
                assert(old(self).scopes().user_minute.contains_key(k));
            }
            assert forall|k: Seq<char>| #[trigger]
                self.per_user_hour@.contains_key(k) implies self.per_user_hour@[k].count
                <= self.limits.max_api_calls_per_hour by {
                assert(old(self).scopes().user_hour.contains_key(k));
            }
        }
    }
}

/// Rebuilds a per-user map without its stale entries.
fn cleanup_map(m: &StrMap<RateLimitEntry>, now_secs: u64) -> (r: StrMap<RateLimitEntry>)
    ensures
        r@ == cleaned(m@, now_secs),
{
    proof {
        use_type_invariant(m);
        m.lemma_view();
    }
    let mut out: StrMap<RateLimitEntry> = StrMap::new();
    let n = m.entry_count();
    let mut i: usize = 0;
    while i < n
        invariant
            n == m.entries().len(),
            i <= n,
            m.wf(),
            forall|k: Seq<char>|
                #[trigger] out@.contains_key(k) <==> exists|j: int|
                    0 <= j < i && (#[trigger] m.entries()[j]).0 == k && !is_stale(
                        m.entries()[j].1,
                        now_secs,
                    ),
            forall|k: Seq<char>| #[trigger] out@.contains_key(k) ==> out@[k] == m@[k],
        decreases n - i,
    {
        proof {
            m.lemma_view();
        }
        let key = m.key_at(i);
        let e = *m.value_at(i);
        let keep = !(now_secs >= e.window_start_secs && now_secs - e.window_start_secs
            > STALE_ENTRY_SECONDS);
        if keep {
            let owned = key.clone();
            out.insert(owned, e);
        }
        i = i + 1;
    }
    proof {
        m.lemma_view();
        assert(out@ =~= cleaned(m@, now_secs));
    }
    out
}

/// Rejects a loop that has reached its iteration ceiling.
pub fn check_loop_limit(iterations: u32, max: u32) -> (r: Result<(), LimitExceeded>)
    ensures
        iterations < max <==> r is Ok,
        r matches Err(e) ==> e == (LimitExceeded {
            limit_type: LimitType::LoopIterations,
            current: iterations as u64,
            maximum: max as u64,
            retry_after_secs: None,
        }),
{
    if iterations >= max {
        return Err(
            LimitExceeded {
                limit_type: LimitType::LoopIterations,
                current: iterations as u64,
                maximum: max as u64,
                retry_after_secs: None,
            },
        );
    }
    Ok(())
}

/// Rejects a recursion that has reached its depth ceiling.
pub fn check_recursion_limit(depth: u32, max: u32) -> (r: Result<(), LimitExceeded>)
    ensures
        depth < max <==> r is Ok,
        r matches Err(e) ==> e == (LimitExceeded {
            limit_type: LimitType::RecursionDepth,
            current: depth as u64,
            maximum: max as u64,
            retry_after_secs: None,
        }),
{
    if depth >= max {
        return Err(
            LimitExceeded {
                limit_type: LimitType::RecursionDepth,
                current: depth as u64,
                maximum: max as u64,
                retry_after_secs: None,
            },
        );
    }
    Ok(())
}

/// Rejects a file larger than the given ceiling.
pub fn check_file_size_limit(size: u64, max: u64) -> (r: Result<(), LimitExceeded>)
    ensures
        size <= max <==> r is Ok,
        r matches Err(e) ==> e == (LimitExceeded {
            limit_type: LimitType::FileSize,
            current: size,
            maximum: max,
            retry_after_secs: None,
        }),
{
    if size > max {
        return Err(
            LimitExceeded {
                limit_type: LimitType::FileSize,
                current: size,
                maximum: max,
                retry_after_secs: None,
            },
        );
    }
    Ok(())
}

/// Rejects a string longer than the given ceiling.
pub fn check_string_length_limit(length: usize, max: usize) -> (r: Result<(), LimitExceeded>)
    ensures
        length <= max <==> r is Ok,
        r matches Err(e) ==> e == (LimitExceeded {
            limit_type: LimitType::StringLength,
            current: length as u64,
            maximum: max as u64,
            retry_after_secs: None,
        }),
{
    if length > max {
        return Err(
            LimitExceeded {
                limit_type: LimitType::StringLength,
                current: length as u64,
                maximum: max as u64,
                retry_after_secs: None,
            },
        );
    }
    Ok(())
}

/// Rejects an array longer than the given ceiling.
pub fn check_array_length_limit(length: usize, max: usize) -> (r: Result<(), LimitExceeded>)
    ensures
        length <= max <==> r is Ok,
        r matches Err(e) ==> e == (LimitExceeded {
            limit_type: LimitType::ArrayLength,
            current: length as u64,
            maximum: max as u64,
            retry_after_secs: None,
        }),
{
    if length > max {
        return Err(
            LimitExceeded {
                limit_type: LimitType::ArrayLength,
                current: length as u64,
                maximum: max as u64,
                retry_after_secs: None,
            },
        );
    }
    Ok(())
}

/// The JSON body that a violation maps to on the wire, with its keys in
/// lexicographic order.
pub open spec fn limit_error_body(e: LimitExceeded) -> Seq<char> {
    "{\"current\":"@ + dec_seq(e.current as nat) + ",\"error\":\"rate_limit_exceeded\",\"limit_type\":\""@
        + limit_type_name(e.limit_type) + "\",\"maximum\":"@ + dec_seq(e.maximum as nat)
        + ",\"message\":\""@ + limit_exceeded_message(e) + "\",\"retry_after_secs\":"@ + (
    match e.retry_after_secs {
        Some(n) => dec_seq(n as nat),
        None => "null"@,
    }) + "}"@
}

/// Maps a violation to HTTP 429 and its JSON body.
pub fn format_limit_error_response(error: &LimitExceeded) -> (r: (u16, String))
    ensures
        r.0 == 429,
        r.1@ == limit_error_body(*error),
{
    let mut body = String::from_str("{\"current\":");
    let cur = u64_string(error.current);
    body.append(cur.as_str());
    body.append(",\"error\":\"rate_limit_exceeded\",\"limit_type\":\"");
    body.append(error.limit_type.as_str());
    body.append("\",\"maximum\":");
    let max = u64_string(error.maximum);
    body.append(max.as_str());
    body.append(",\"message\":\"");
    let msg = error.message();
    body.append(msg.as_str());
    body.append("\",\"retry_after_secs\":");
    match error.retry_after_secs {
        Some(n) => {
            let secs = u64_string(n);
            body.append(secs.as_str());
        },
        None => {
            body.append("null");
        },
    }
    body.append("}");
    (429, body)
}

} // verus!
