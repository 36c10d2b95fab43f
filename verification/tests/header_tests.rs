use whtop::cache_control::{CacheControlLayer, CacheOptions};
use whtop::last_modified::{headers, LastModifiedLayer};
use whtop::pipeline::{ErrorBody, HttpResponse, ResponseBody};

fn options_with(max_age: Option<u64>, public: bool) -> CacheOptions {
    CacheOptions { max_age, public, ..Default::default() }
}

fn empty_response() -> HttpResponse {
    HttpResponse {
        status: 200,
        cache_control: None,
        last_modified: None,
        body: ResponseBody::Error(ErrorBody { message: String::new() }),
    }
}

#[test]
fn render_public_max_age_two() {
    // Deterministic canonical rendering.
    let options = options_with(Some(2), true);
    assert_eq!(options.render(), "public, max-age=2");
    assert_eq!(options.render(), "public, max-age=2");
}

#[test]
fn render_no_directives_is_empty() {
    let options = CacheOptions::default();
    assert_eq!(options.render(), "");
}

#[test]
fn render_single_directive_has_no_separator() {
    let options = options_with(None, true);
    assert_eq!(options.render(), "public");
}

#[test]
fn render_all_directives_in_canonical_order() {
    let options = CacheOptions {
        no_store: true,
        no_cache: true,
        public: true,
        private: true,
        max_age: Some(1),
        shared_max_age: Some(2),
        must_revalidate: true,
        proxy_revalidate: true,
        must_understand: true,
        no_transform: true,
        immutable: true,
        stale_while_revalidate: Some(3),
        stale_if_error: Some(4),
    };
    assert_eq!(
        options.render(),
        "no-store, no-cache, public, private, max-age=1, s-maxage=2, must-revalidate, \
         proxy-revalidate, must-understand, no-transform, immutable, \
         stale-while-revalidate=3, stale-if-error=4"
    );
}

#[test]
fn render_large_max_age() {
    let options = options_with(Some(18_446_744_073_709_551_615), false);
    assert_eq!(options.render(), "max-age=18446744073709551615");
}

#[test]
fn u64_rendering_is_decimal() {
    assert_eq!(whtop::cache_control::u64_to_string(0), "0");
    assert_eq!(whtop::cache_control::u64_to_string(7), "7");
    assert_eq!(whtop::cache_control::u64_to_string(10), "10");
    assert_eq!(whtop::cache_control::u64_to_string(1_234_567_890), "1234567890");
}

#[test]
fn last_modified_formats_http_date_in_gmt() {
    // 784887151 s after the epoch is Tue, 15 Nov 1994 08:12:31 GMT.
    let built = headers(&CacheOptions::default(), Some(784_887_151_000), 0);
    assert_eq!(built.last_modified, "Tue, 15 Nov 1994 08:12:31 GMT");
    assert_eq!(built.cache_control, "");
}

#[test]
fn last_modified_falls_back_to_now() {
    // Before the first refresh the header carries the current instant.
    let built = headers(&options_with(Some(2), true), None, 784_887_151_000);
    assert_eq!(built.last_modified, "Tue, 15 Nov 1994 08:12:31 GMT");
    assert_eq!(built.cache_control, "public, max-age=2");
}

#[test]
fn last_modified_truncates_to_whole_seconds() {
    let built = headers(&CacheOptions::default(), Some(784_887_151_999), 0);
    assert_eq!(built.last_modified, "Tue, 15 Nov 1994 08:12:31 GMT");
}

#[test]
fn cache_control_stage_sets_header_when_absent() {
    let stage = CacheControlLayer::new(options_with(Some(2), true)).layer();
    let mut resp = empty_response();
    stage.apply(&mut resp);
    assert_eq!(resp.cache_control.as_deref(), Some("public, max-age=2"));
}

#[test]
fn cache_control_stage_preserves_existing_header() {
    let stage = CacheControlLayer::new(options_with(Some(2), true)).layer();
    let mut resp = empty_response();
    resp.cache_control = Some(String::from("no-store"));
    stage.apply(&mut resp);
    assert_eq!(resp.cache_control.as_deref(), Some("no-store"));
}

#[test]
fn last_modified_stage_sets_header_when_absent() {
    let stage = LastModifiedLayer::new().layer();
    let mut resp = empty_response();
    stage.apply(&mut resp, Some(5000), 784_887_151_000);
    assert_eq!(resp.last_modified.as_deref(), Some("Thu, 01 Jan 1970 00:00:05 GMT"));
}

#[test]
fn last_modified_stage_preserves_existing_header() {
    let stage = LastModifiedLayer::new().layer();
    let mut resp = empty_response();
    resp.last_modified = Some(String::from("Tue, 15 Nov 1994 08:12:31 GMT"));
    stage.apply(&mut resp, Some(5000), 784_887_151_000);
    assert_eq!(resp.last_modified.as_deref(), Some("Tue, 15 Nov 1994 08:12:31 GMT"));
}
