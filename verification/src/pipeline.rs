//! The request pipeline: one `acquire` per request, a body built from the
//! acquired snapshot, and the freshness headers derived from that same
//! snapshot — the header always describes the exact snapshot in the body.

use vstd::prelude::*;

use crate::cache::{cache_wf, spec_acquire, CachePolicy, CacheView, SnapshotCache};
use crate::cache_control::{spec_render, CacheControl, CacheControlLayer, CacheOptions};
use crate::errors::{ProviderError, RouteError};
use crate::last_modified::{
    http_date, last_modified_secs, LastModified, LastModifiedLayer, MAX_TIMESTAMP_MILLIS,
};
use crate::metrics::{
    get_cpu, get_memory, get_processes, sorted_by_memory_desc, GetCpuResponse, GetMemoryResponse,
    GetProcessesResponse, SnapshotData,
};

verus! {

/// The three metric endpoints.
#[derive(Clone, Copy, PartialEq, Eq, Structural, Debug)]
pub enum Route {
    /// `/cpu`: per-core and whole-machine CPU usage.
    Cpu,
    /// `/memory`: memory usage.
    Memory,
    /// `/processes`: the process table.
    Processes,
}

/// The body of an internal-error response.
#[derive(Clone, Debug)]
pub struct ErrorBody {
    /// What went wrong, as text.
    pub message: String,
}

/// The typed body of a response; the host encodes it as JSON.
#[derive(Debug)]
pub enum ResponseBody {
    /// Body of a `/cpu` response.
    Cpu(GetCpuResponse),
    /// Body of a `/memory` response.
    Memory(GetMemoryResponse),
    /// Body of a `/processes` response.
    Processes(GetProcessesResponse),
    /// Body of an internal-error response.
    Error(ErrorBody),
}

/// A response: status, the two freshness headers, and the typed body.
#[derive(Debug)]
pub struct HttpResponse {
    /// The HTTP status code.
    pub status: u16,
    /// The `Cache-Control` header value, once a stage has set it.
    pub cache_control: Option<String>,
    /// The `Last-Modified` header value, once a stage has set it.
    pub last_modified: Option<String>,
    /// The typed body.
    pub body: ResponseBody,
}

/// The body is the one the route builds from exactly this snapshot data.
pub open spec fn body_matches(route: Route, data: SnapshotData, body: ResponseBody) -> bool {
    match (route, body) {
        (Route::Cpu, ResponseBody::Cpu(r)) => r.global == data.global_cpu && r.cpus@ == data.cpus@,
        (Route::Memory, ResponseBody::Memory(r)) => r.total == data.total_memory
            && r.used == data.used_memory
            && r.free == data.free_memory
            && r.available == data.available_memory,
        (Route::Processes, ResponseBody::Processes(r)) => sorted_by_memory_desc(r.processes@)
            && r.processes@.to_multiset() == data.processes@.to_multiset(),
        _ => false,
    }
}

impl RouteError {
    /// Renders the error as an internal-error response, with no headers set
    /// yet.
    pub fn into_response(self) -> (r: HttpResponse)
        ensures
            r.status == 500,
            (r.body matches ResponseBody::Error(b)
                && self matches RouteError::InternalError(m) && b.message == m),
            r.cache_control is None,
            r.last_modified is None,
    {
        match self {
            RouteError::InternalError(message) => HttpResponse {
                status: 500,
                cache_control: None,
                last_modified: None,
                body: ResponseBody::Error(ErrorBody { message }),
            },
        }
    }
}

/// The whole serving pipeline: the snapshot cache and the ordered header
/// stages that every response passes through.
#[derive(Debug)]
pub struct RequestPipeline {
    cache: SnapshotCache,
    cache_control: CacheControl,
    last_modified: LastModified,
}

impl RequestPipeline {
    /// The abstract state of the owned cache.
    pub closed spec fn cache_view(&self) -> CacheView {
        self.cache@
    }

    /// The `Cache-Control` options every response is stamped with.
    pub closed spec fn options(&self) -> CacheOptions {
        self.cache_control.spec_options()
    }

    /// Builds the pipeline: an empty cache for the given policy, and the
    /// header stages in their fixed order.
    pub fn new(policy: CachePolicy, options: CacheOptions) -> (r: Self)
        ensures
            r.cache_view().interval == policy.refresh_interval_millis,
            r.cache_view().last_refresh is None,
            r.cache_view().snapshot is None,
            cache_wf(r.cache_view()),
            r.options() == options,
    {
        RequestPipeline {
            cache: SnapshotCache::new(policy),
            cache_control: CacheControlLayer::new(options).layer(),
            last_modified: LastModifiedLayer::new().layer(),
        }
    }

    /// Serves one request: acquires the snapshot exactly once, builds the
    /// body from it, and stamps the headers from that same acquire — the
    /// `Last-Modified` value always describes the exact snapshot in the
    /// body. On a provider failure the caller gets an internal-error
    /// response and the cache is left untouched.
    pub fn handle(&mut self, route: Route, now_millis: u64,
        capture: Result<SnapshotData, ProviderError>) -> (r: HttpResponse)
        requires
            cache_wf(old(self).cache_view()),
            now_millis < MAX_TIMESTAMP_MILLIS,
            old(self).cache_view().last_refresh matches Some(lr) ==> lr <= now_millis,
        ensures
            cache_wf(final(self).cache_view()),
            final(self).options() == old(self).options(),
            final(self).cache_view() == spec_acquire(old(self).cache_view(), now_millis, capture).0,
            (r.cache_control matches Some(cc) && cc@ == spec_render(old(self).options())),
            ({
                let res = spec_acquire(old(self).cache_view(), now_millis, capture).1;
                match res {
                    Ok(ts) => r.status == 200
                        && (final(self).cache_view().snapshot matches Some(snap)
                            && snap.captured_at == ts
                            && body_matches(route, snap.data, r.body))
                        && (r.last_modified matches Some(lm) && lm@ == http_date(ts as int / 1000)),
                    Err(e) => r.status == 500
                        && (r.body matches ResponseBody::Error(b) && b.message == e.message)
                        && (r.last_modified matches Some(lm) && lm@ == http_date(
                            last_modified_secs(final(self).cache_view().last_refresh, now_millis),
                        )),
                }
            }),
    {
        // Step 1: acquire once; this is the only provider interaction.
        let acquired = self.cache.acquire_at(now_millis, capture);
        // Step 2: build the body from the acquired snapshot.
        let mut resp = match acquired.0 {
            Ok(_ts) => {
                let snap = self.cache.current();
                let body = match route {
                    Route::Cpu => ResponseBody::Cpu(get_cpu(&snap.data)),
                    Route::Memory => ResponseBody::Memory(get_memory(&snap.data)),
                    Route::Processes => ResponseBody::Processes(get_processes(&snap.data)),
                };
                HttpResponse { status: 200, cache_control: None, last_modified: None, body }
            }
            Err(e) => RouteError::from(e).into_response(),
        };
        // Step 3: the header stages, in their fixed order, each
        // non-clobbering.
        self.cache_control.apply(&mut resp);
        self.last_modified.apply(&mut resp, self.cache.last_refresh_millis(), now_millis);
        resp
    }
}

} // verus!
