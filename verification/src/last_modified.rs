//! The `Last-Modified` header: an HTTP-date in GMT for the capture
//! timestamp of the served snapshot.

use vstd::prelude::*;

use chrono::TimeZone;

use crate::cache_control::{spec_render, CacheOptions};
use crate::pipeline::HttpResponse;

verus! {

/// First second of year 10000. Timestamps below this render with a
/// four-digit year, which is what the HTTP-date shape asks for.
pub const SECS_AT_YEAR_TEN_THOUSAND: u64 = 253402300800;

/// First millisecond of year 10000: the bound on the timestamps the
/// header builders accept.
pub const MAX_TIMESTAMP_MILLIS: u64 = 253402300800000;

/// The HTTP-date rendering of a timestamp (seconds since the Unix epoch)
/// in GMT, RFC 1123/2822 style: `Tue, 15 Nov 1994 08:12:31 GMT`.
pub uninterp spec fn http_date(secs: int) -> Seq<char>;

/// Relies on chrono's strftime-style formatting (`DateTime::format`) of a
/// timestamp placed in chrono-tz's fixed `GMT` zone: the rendered text is a
/// function of the timestamp alone, and `%Z` renders as `GMT`.
#[verifier::external_body]
fn format_http_date(secs: u64) -> (r: String)
    requires
        secs < SECS_AT_YEAR_TEN_THOUSAND,
    ensures
        r@ == http_date(secs as int),
{
    let date = chrono_tz::GMT.timestamp_opt(secs as i64, 0).unwrap();
    date.format("%a, %d %b %Y %H:%M:%S %Z").to_string()
}

/// The timestamp the `Last-Modified` header describes, in whole seconds:
/// the last refresh when one has run, the current instant otherwise.
pub open spec fn last_modified_secs(last_refresh: Option<u64>, now_millis: u64) -> int {
    (match last_refresh {
        Some(lr) => lr,
        None => now_millis,
    }) as int / 1000
}

/// Renders the `Last-Modified` value for a cache state: the last refresh
/// time as an HTTP-date in GMT, or the current instant before the first
/// refresh has run.
pub fn render_last_modified(last_refresh: Option<u64>, now_millis: u64) -> (r: String)
    requires
        now_millis < MAX_TIMESTAMP_MILLIS,
        last_refresh matches Some(lr) ==> lr < MAX_TIMESTAMP_MILLIS,
    ensures
        r@ == http_date(last_modified_secs(last_refresh, now_millis)),
{
    let millis: u64 = match last_refresh {
        Some(lr) => lr,
        None => now_millis,
    };
    format_http_date(millis / 1000)
}

/// Builds the stage that applies the `Last-Modified` header to outgoing
/// responses.
#[derive(Clone, Copy, PartialEq, Eq, Structural, Debug)]
pub struct LastModifiedLayer {}

impl LastModifiedLayer {
    /// A layer whose stages stamp each response with the capture time the
    /// pipeline hands them.
    pub fn new() -> (r: Self) {
        Self {  }
    }

    /// Makes the per-pipeline stage.
    pub fn layer(&self) -> (r: LastModified) {
        LastModified {  }
    }
}

/// The stage that applies the `Last-Modified` header to the outgoing
/// response, if the response does not already carry one.
#[derive(Clone, Copy, PartialEq, Eq, Structural, Debug)]
pub struct LastModified {}

impl LastModified {
    /// Applies the `last-modified` header to the response, only if the
    /// response does not already carry one: the last refresh time as an
    /// HTTP-date, or the current instant before the first refresh.
    pub fn apply(&self, resp: &mut HttpResponse, last_refresh: Option<u64>, now_millis: u64)
        requires
            now_millis < MAX_TIMESTAMP_MILLIS,
            last_refresh matches Some(lr) ==> lr < MAX_TIMESTAMP_MILLIS,
        ensures
            old(resp).last_modified is None ==> (final(resp).last_modified matches Some(v)
                && v@ == http_date(last_modified_secs(last_refresh, now_millis))),
            old(resp).last_modified is Some ==> final(resp).last_modified
                == old(resp).last_modified,
            final(resp).status == old(resp).status,
            final(resp).cache_control == old(resp).cache_control,
            final(resp).body == old(resp).body,
    {
        if resp.last_modified.is_none() {
            resp.last_modified = Some(render_last_modified(last_refresh, now_millis));
        }
    }
}

/// The freshness headers derived from the cache policy and refresh state;
/// recomputed per request, never stored.
#[derive(Clone, PartialEq, Eq, Debug)]
pub struct FreshnessHeaders {
    /// The `Cache-Control` value.
    pub cache_control: String,
    /// The `Last-Modified` value.
    pub last_modified: String,
}

/// The pure freshness-header builder: maps the cache policy and the last
/// refresh time to the two header values.
pub fn headers(policy: &CacheOptions, last_refresh: Option<u64>, now_millis: u64)
    -> (r: FreshnessHeaders)
    requires
        now_millis < MAX_TIMESTAMP_MILLIS,
        last_refresh matches Some(lr) ==> lr < MAX_TIMESTAMP_MILLIS,
    ensures
        r.cache_control@ == spec_render(*policy),
        r.last_modified@ == http_date(last_modified_secs(last_refresh, now_millis)),
{
    FreshnessHeaders {
        cache_control: policy.render(),
        last_modified: render_last_modified(last_refresh, now_millis),
    }
}

} // verus!
