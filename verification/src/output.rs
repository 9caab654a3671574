//! Formatting of query results as JSON output lines.
//!
//! Each query emits one line: a JSON object holding a capture timestamp
//! (taken when the result is formatted, in the configured format), a
//! `status` tag, and the fetched value or the failure reason.

use vstd::prelude::*;
use crate::clock::now_iso;
use crate::clock::now_unix_millis;
use crate::fetch::QueryResult;
use crate::json::append_escaped;
use crate::json::append_i64;
use crate::json::dec_int;
use crate::json::escape_seq;

verus! {

/// How capture timestamps are rendered in output lines.
#[derive(Clone, Copy, Debug, PartialEq, Eq, Structural)]
pub enum TimestampFormat {
    Iso,
    Unix,
}

/// Process-wide output configuration, chosen once on the command line and
/// handed to whoever formats a result.
pub struct GlobalConfig {
    pub timestamp_format: TimestampFormat,
}

impl GlobalConfig {
    pub fn new(timestamp_format: TimestampFormat) -> (c: GlobalConfig)
        ensures
            c.timestamp_format == timestamp_format,
    {
        GlobalConfig { timestamp_format }
    }
}

/// A capture timestamp: a rendered UTC instant, or milliseconds since the
/// Unix epoch.
pub enum Timestamp {
    Iso(String),
    Unix(i64),
}

/// The JSON rendering of a string value: quoted and escaped.
pub open spec fn json_string(s: Seq<char>) -> Seq<char> {
    seq!['"'] + escape_seq(s) + seq!['"']
}

/// The JSON rendering of a capture timestamp.
pub open spec fn json_timestamp(ts: Timestamp) -> Seq<char> {
    match ts {
        Timestamp::Iso(s) => json_string(s@),
        Timestamp::Unix(n) => dec_int(n as int),
    }
}

/// The output line for one query result captured at `ts`: a JSON object
/// with the timestamp, a `status` tag, and either the value or a `null`
/// value beside the failure reason.
pub open spec fn json_output(ts: Timestamp, res: QueryResult) -> Seq<char> {
    "{\"timestamp\":"@ + json_timestamp(ts) + (match res {
        QueryResult::Success { value } => ",\"status\":\"success\",\"value\":"@ + json_string(
            value@,
        ),
        QueryResult::Error { reason } => ",\"status\":\"error\",\"value\":null,\"reason\":"@
            + json_string(reason@),
    }) + "}"@
}

fn append_json_string(out: &mut String, s: &str)
    ensures
        final(out)@ == old(out)@ + json_string(s@),
{
    out.append("\"");
    append_escaped(out, s);
    out.append("\"");
    proof {
        reveal_strlit("\"");
        assert("\""@ =~= seq!['"']);
        assert(((old(out)@ + "\""@) + escape_seq(s@)) + "\""@ =~= old(out)@ + json_string(s@));
    }
}

/// Render the output line for `res` captured at `ts`.
pub fn render_output(ts: &Timestamp, res: &QueryResult) -> (r: String)
    ensures
        r@ == json_output(*ts, *res),
{
    let mut out = String::from_str("{\"timestamp\":");
    match ts {
        Timestamp::Iso(s) => append_json_string(&mut out, s.as_str()),
        Timestamp::Unix(n) => append_i64(&mut out, *n),
    }
    match res {
        QueryResult::Success { value } => {
            out.append(",\"status\":\"success\",\"value\":");
            append_json_string(&mut out, value.as_str());
        },
        QueryResult::Error { reason } => {
            out.append(",\"status\":\"error\",\"value\":null,\"reason\":");
            append_json_string(&mut out, reason.as_str());
        },
    }
    out.append("}");
    proof {
        assert(out@ =~= json_output(*ts, *res));
    }
    out
}

/// Format one query outcome as the client's JSON line, capturing the
/// timestamp now, in the configured format. Everything but the captured
/// instant itself is pinned: the line is the JSON output of `res` beside a
/// timestamp of the configured kind.
pub fn to_json(res: &QueryResult, config: &GlobalConfig) -> (r: String)
    ensures
        config.timestamp_format is Iso ==> exists|s: String| r@ == #[trigger] json_output(
            Timestamp::Iso(s),
            *res,
        ),
        config.timestamp_format is Unix ==> exists|n: i64| r@ == #[trigger] json_output(
            Timestamp::Unix(n),
            *res,
        ),
{
    let ts = match config.timestamp_format {
        TimestampFormat::Iso => Timestamp::Iso(now_iso()),
        TimestampFormat::Unix => Timestamp::Unix(now_unix_millis()),
    };
    let r = render_output(&ts, res);
    proof {
        if config.timestamp_format is Iso {
            assert(r@ == json_output(Timestamp::Iso(ts->Iso_0), *res));
        } else {
            assert(r@ == json_output(Timestamp::Unix(ts->Unix_0), *res));
        }
    }
    r
}

} // verus!
