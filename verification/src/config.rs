//! Application configuration: loaded once at startup, immutable
//! thereafter, and the cache options derived from it.

use vstd::prelude::*;

use crate::cache_control::CacheOptions;

verus! {

/// The application configuration. The host fills it from the environment;
/// the refresh rate arrives here already validated and converted to whole
/// milliseconds.
#[derive(Clone, PartialEq, Eq, Debug)]
pub struct AppConfig {
    /// The address to listen on.
    pub address: String,
    /// The maximum refresh rate for system information, in milliseconds.
    pub refresh_rate_millis: u64,
    /// Whether to serve static assets.
    pub serve_static: bool,
    /// The path to the static files to serve.
    pub static_dir: String,
}

impl Default for AppConfig {
    /// Listen on every address at port 8080, refresh at most every two
    /// seconds, and serve the static files under `dist`.
    fn default() -> (r: Self)
        ensures
            r.address@ == "[::]:8080"@,
            r.refresh_rate_millis == 2000,
            r.serve_static == true,
            r.static_dir@ == "dist"@,
    {
        AppConfig {
            address: String::from_str("[::]:8080"),
            refresh_rate_millis: 2000,
            serve_static: true,
            static_dir: String::from_str("dist"),
        }
    }
}

/// The `Cache-Control` options the metric endpoints are served with:
/// publicly cacheable for as many whole seconds as the refresh rate spans,
/// and nothing else.
pub fn cache_options_for(config: &AppConfig) -> (r: CacheOptions)
    ensures
        r == (CacheOptions {
            no_store: false,
            no_cache: false,
            public: true,
            private: false,
            max_age: Some(config.refresh_rate_millis / 1000),
            shared_max_age: None,
            must_revalidate: false,
            proxy_revalidate: false,
            must_understand: false,
            no_transform: false,
            immutable: false,
            stale_while_revalidate: None,
            stale_if_error: None,
        }),
{
    CacheOptions {
        max_age: Some(config.refresh_rate_millis / 1000),
        public: true,
        ..Default::default()
    }
}

} // verus!
