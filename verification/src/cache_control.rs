//! The `Cache-Control` header: the directive options and their rendering
//! into the canonical, deterministic header value.

use vstd::prelude::*;

use crate::pipeline::HttpResponse;

verus! {

/// Options for the `cache-control` header.
#[derive(Clone, Copy, PartialEq, Eq, Structural, Debug)]
pub struct CacheOptions {
    /// The response cannot be stored (`no-store`).
    pub no_store: bool,
    /// The response must be validated with the origin server before using it (`no-cache`).
    pub no_cache: bool,
    /// The response can be stored in shared caches (`public`).
    pub public: bool,
    /// The response cannot be stored in shared caches (`private`).
    pub private: bool,
    /// The max age in caches, in seconds (`max-age`).
    pub max_age: Option<u64>,
    /// The max age in shared caches, in seconds (`s-maxage`).
    pub shared_max_age: Option<u64>,
    /// Whether the response must be validated when stale (`must-revalidate`).
    pub must_revalidate: bool,
    /// Whether the response must be validated when stale in shared caches (`proxy-revalidate`).
    pub proxy_revalidate: bool,
    /// Whether the response's caching requirements must be understood to be
    /// cached (`must-understand`). This should be coupled with `no_store` to
    /// prevent any caching of responses that cannot be understood.
    pub must_understand: bool,
    /// Whether the response should not be transformed by intermediaries (`no-transform`).
    pub no_transform: bool,
    /// Whether the resource is immutable (`immutable`).
    pub immutable: bool,
    /// How many seconds a stale response can be reused while being
    /// revalidated (`stale-while-revalidate`).
    pub stale_while_revalidate: Option<u64>,
    /// How many seconds a stale error response can be reused (`stale-if-error`).
    pub stale_if_error: Option<u64>,
}

impl Default for CacheOptions {
    /// No directives at all: renders as the empty header value.
    fn default() -> (r: Self)
        ensures
            r == (CacheOptions {
                no_store: false,
                no_cache: false,
                public: false,
                private: false,
                max_age: None,
                shared_max_age: None,
                must_revalidate: false,
                proxy_revalidate: false,
                must_understand: false,
                no_transform: false,
                immutable: false,
                stale_while_revalidate: None,
                stale_if_error: None,
            }),
    {
        CacheOptions {
            no_store: false,
            no_cache: false,
            public: false,
            private: false,
            max_age: None,
            shared_max_age: None,
            must_revalidate: false,
            proxy_revalidate: false,
            must_understand: false,
            no_transform: false,
            immutable: false,
            stale_while_revalidate: None,
            stale_if_error: None,
        }
    }
}

/// The decimal digit character for `n` (zero through nine).
pub open spec fn dec_digit(n: nat) -> char {
    if n == 0 {
        '0'
    } else if n == 1 {
        '1'
    } else if n == 2 {
        '2'
    } else if n == 3 {
        '3'
    } else if n == 4 {
        '4'
    } else if n == 5 {
        '5'
    } else if n == 6 {
        '6'
    } else if n == 7 {
        '7'
    } else if n == 8 {
        '8'
    } else {
        '9'
    }
}

/// The decimal rendering of `n`, most significant digit first, with no
/// leading zeros (a lone zero for zero).
pub open spec fn dec_str(n: nat) -> Seq<char>
    decreases n,
{
    if n < 10 {
        seq![dec_digit(n)]
    } else {
        dec_str(n / 10).push(dec_digit(n % 10))
    }
}

fn digit_str(d: u64) -> (r: &'static str)
    requires
        d < 10,
    ensures
        r@ == seq![dec_digit(d as nat)],
{
    let r: &'static str = match d {
        0 => "0",
        1 => "1",
        2 => "2",
        3 => "3",
        4 => "4",
        5 => "5",
        6 => "6",
        7 => "7",
        8 => "8",
        _ => "9",
    };
    proof {
        reveal_strlit("0");
        reveal_strlit("1");
        reveal_strlit("2");
        reveal_strlit("3");
        reveal_strlit("4");
        reveal_strlit("5");
        reveal_strlit("6");
        reveal_strlit("7");
        reveal_strlit("8");
        reveal_strlit("9");
        assert(r@ =~= seq![dec_digit(d as nat)]);
    }
    r
}

/// Renders `n` in decimal.
pub fn u64_to_string(n: u64) -> (r: String)
    ensures
        r@ == dec_str(n as nat),
    decreases n,
{
    if n < 10 {
        String::from_str(digit_str(n))
    } else {
        let mut s = u64_to_string(n / 10);
        s.append(digit_str(n % 10));
        proof {
            assert(s@ =~= dec_str((n / 10) as nat).push(dec_digit((n % 10) as nat)));
        }
        s
    }
}

/// The views of a list of strings.
pub open spec fn views_of(parts: Seq<String>) -> Seq<Seq<char>> {
    parts.map_values(|s: String| s@)
}

proof fn views_of_push(parts: Seq<String>, x: String)
    ensures
        views_of(parts.push(x)) =~= views_of(parts).push(x@),
{
}

/// The parts joined with a comma and a space between each two.
pub open spec fn joined(parts: Seq<Seq<char>>) -> Seq<char>
    decreases parts.len(),
{
    if parts.len() == 0 {
        Seq::empty()
    } else if parts.len() == 1 {
        parts[0]
    } else {
        joined(parts.drop_last()) + ", "@ + parts.last()
    }
}

proof fn joined_push(parts: Seq<Seq<char>>, x: Seq<char>)
    ensures
        parts.len() == 0 ==> joined(parts.push(x)) == x,
        parts.len() > 0 ==> joined(parts.push(x)) == joined(parts) + ", "@ + x,
{
    assert(parts.push(x).drop_last() =~= parts);
    assert(parts.push(x).last() == x);
}

fn join_comma(parts: &Vec<String>) -> (r: String)
    ensures
        r@ == joined(views_of(parts@)),
{
    let mut r = String::new();
    let mut i: usize = 0;
    while i < parts.len()
        invariant
            i <= parts@.len(),
            r@ == joined(views_of(parts@.subrange(0, i as int))),
        decreases parts@.len() - i,
    {
        if i > 0 {
            r.append(", ");
        }
        r.append(parts[i].as_str());
        proof {
            let prefix = parts@.subrange(0, i as int);
            assert(parts@.subrange(0, i + 1 as int) =~= prefix.push(parts@[i as int]));
            views_of_push(prefix, parts@[i as int]);
            joined_push(views_of(prefix), parts@[i as int]@);
            assert(views_of(prefix).len() == i);
        }
        i = i + 1;
    }
    proof {
        assert(parts@.subrange(0, parts@.len() as int) =~= parts@);
    }
    r
}

/// The rendered directives of `o`, present ones only, in the fixed
/// canonical order.
pub open spec fn directives(o: CacheOptions) -> Seq<Seq<char>> {
    let parts = Seq::<Seq<char>>::empty();
    let parts = if o.no_store { parts.push("no-store"@) } else { parts };
    let parts = if o.no_cache { parts.push("no-cache"@) } else { parts };
    let parts = if o.public { parts.push("public"@) } else { parts };
    let parts = if o.private { parts.push("private"@) } else { parts };
    let parts = if o.max_age is Some {
        parts.push("max-age="@ + dec_str(o.max_age->Some_0 as nat))
    } else { parts };
    let parts = if o.shared_max_age is Some {
        parts.push("s-maxage="@ + dec_str(o.shared_max_age->Some_0 as nat))
    } else { parts };
    let parts = if o.must_revalidate { parts.push("must-revalidate"@) } else { parts };
    let parts = if o.proxy_revalidate { parts.push("proxy-revalidate"@) } else { parts };
    let parts = if o.must_understand { parts.push("must-understand"@) } else { parts };
    let parts = if o.no_transform { parts.push("no-transform"@) } else { parts };
    let parts = if o.immutable { parts.push("immutable"@) } else { parts };
    let parts = if o.stale_while_revalidate is Some {
        parts.push("stale-while-revalidate="@ + dec_str(o.stale_while_revalidate->Some_0 as nat))
    } else { parts };
    let parts = if o.stale_if_error is Some {
        parts.push("stale-if-error="@ + dec_str(o.stale_if_error->Some_0 as nat))
    } else { parts };
    parts
}

/// The canonical `cache-control` header value for `o`: the present
/// directives in the fixed order, comma-separated.
pub open spec fn spec_render(o: CacheOptions) -> Seq<char> {
    joined(directives(o))
}

fn push_directive(parts: &mut Vec<String>, text: &'static str)
    ensures
        views_of(final(parts)@) =~= views_of(old(parts)@).push(text@),
{
    let ghost before = parts@;
    let s = String::from_str(text);
    let ghost sv = s;
    parts.push(s);
    proof {
        views_of_push(before, sv);
    }
}

fn push_numbered_directive(parts: &mut Vec<String>, prefix: &'static str, n: u64)
    ensures
        views_of(final(parts)@) =~= views_of(old(parts)@).push(prefix@ + dec_str(n as nat)),
{
    let ghost before = parts@;
    let mut s = String::from_str(prefix);
    s.append(u64_to_string(n).as_str());
    let ghost sv = s;
    parts.push(s);
    proof {
        views_of_push(before, sv);
    }
}

impl CacheOptions {
    /// Renders the `cache-control` header value: only the directives set in
    /// `self`, in the fixed canonical order, comma-separated, so equal
    /// options always render to the same text.
    pub fn render(&self) -> (r: String)
        ensures
            r@ == spec_render(*self),
    {
        let mut parts: Vec<String> = Vec::new();
        proof {
            assert(views_of(parts@) =~= Seq::<Seq<char>>::empty());
        }
        if self.no_store {
            push_directive(&mut parts, "no-store");
        }
        if self.no_cache {
            push_directive(&mut parts, "no-cache");
        }
        if self.public {
            push_directive(&mut parts, "public");
        }
        if self.private {
            push_directive(&mut parts, "private");
        }
        if let Some(max_age) = self.max_age {
            push_numbered_directive(&mut parts, "max-age=", max_age);
        }
        if let Some(shared_max_age) = self.shared_max_age {
            push_numbered_directive(&mut parts, "s-maxage=", shared_max_age);
        }
        if self.must_revalidate {
            push_directive(&mut parts, "must-revalidate");
        }
        if self.proxy_revalidate {
            push_directive(&mut parts, "proxy-revalidate");
        }
        if self.must_understand {
            push_directive(&mut parts, "must-understand");
        }
        if self.no_transform {
            push_directive(&mut parts, "no-transform");
        }
        if self.immutable {
            push_directive(&mut parts, "immutable");
        }
        if let Some(stale_while_revalidate) = self.stale_while_revalidate {
            push_numbered_directive(&mut parts, "stale-while-revalidate=", stale_while_revalidate);
        }
        if let Some(stale_if_error) = self.stale_if_error {
            push_numbered_directive(&mut parts, "stale-if-error=", stale_if_error);
        }
        proof {
            assert(views_of(parts@) =~= directives(*self));
        }
        join_comma(&parts)
    }
}

/// Builds the stage that applies the `cache-control` header to outgoing
/// responses.
#[derive(Clone, Copy, PartialEq, Eq, Structural, Debug)]
pub struct CacheControlLayer {
    options: CacheOptions,
}

impl CacheControlLayer {
    /// A layer that renders the given options into every response that does
    /// not already carry a `cache-control` header.
    pub fn new(options: CacheOptions) -> (r: Self)
        ensures
            r.spec_options() == options,
    {
        Self { options }
    }

    /// The options this layer renders.
    pub closed spec fn spec_options(&self) -> CacheOptions {
        self.options
    }

    /// Makes the per-pipeline stage.
    pub fn layer(&self) -> (r: CacheControl)
        ensures
            r.spec_options() == self.spec_options(),
    {
        CacheControl { options: self.options }
    }
}

/// The stage that applies the `cache-control` header to the outgoing
/// response, if the response does not already carry one.
#[derive(Clone, Copy, PartialEq, Eq, Structural, Debug)]
pub struct CacheControl {
    pub(crate) options: CacheOptions,
}

impl CacheControl {
    /// The options this stage renders.
    pub closed spec fn spec_options(&self) -> CacheOptions {
        self.options
    }

    /// Applies the `cache-control` header to the response, only if the
    /// response does not already carry one.
    pub fn apply(&self, resp: &mut HttpResponse)
        ensures
            old(resp).cache_control is None ==> (final(resp).cache_control matches Some(v)
                && v@ == spec_render(self.spec_options())),
            old(resp).cache_control is Some ==> final(resp).cache_control
                == old(resp).cache_control,
            final(resp).status == old(resp).status,
            final(resp).last_modified == old(resp).last_modified,
            final(resp).body == old(resp).body,
    {
        if resp.cache_control.is_none() {
            resp.cache_control = Some(self.options.render());
        }
    }
}

} // verus!
