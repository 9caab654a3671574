//! Client-side core of an instance-metadata service (IMDS) session client.
//!
//! The library owns the logic of the client: the token lifecycle (a session
//! token with a time-to-live, refreshed proactively ahead of expiry and
//! resiliently on failure), the scheduling of periodic metadata queries, the
//! interpretation of endpoint responses, and the rendering of query results
//! as JSON lines. The surrounding process (argument handling, the HTTP
//! requests themselves, threads and sleeps) drives these state machines and
//! performs the actions they ask for.

mod clock;
pub mod fetch;
pub mod json;
pub mod output;
pub mod poll;
pub mod refresher;
pub mod text;

pub use fetch::interpret_metadata_response;
pub use fetch::interpret_token_response;
pub use fetch::QueryResult;
pub use fetch::RawResponse;
pub use output::render_output;
pub use output::to_json;
pub use output::GlobalConfig;
pub use output::Timestamp;
pub use output::TimestampFormat;
pub use poll::interval_in_range;
pub use poll::PollAction;
pub use poll::PollEvent;
pub use poll::PollState;
pub use refresher::RefreshAction;
pub use refresher::RefreshEvent;
pub use refresher::RefreshPolicy;
pub use refresher::RefresherState;
pub use refresher::RefreshPhase;
pub use refresher::TokenState;
pub use refresher::BACKOFF_MS;
pub use refresher::MAX_TIME_MS;
pub use refresher::TOKEN_REFRESH_OFFSET_MS;
pub use refresher::TOKEN_TTL_MS;
pub use text::trim;
