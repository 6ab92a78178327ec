//! Cross-origin resource sharing as an interceptor.

use vstd::prelude::*;
use crate::error::opt_text;
use crate::middleware::Middleware;
use crate::req::{Req, ReqView};
use crate::res::{Res, ResView};
use crate::text::{decimal, decimal_string, push_text, text_eq};

verus! {

/// The texts of a vector of strings.
pub open spec fn texts_view(items: Seq<String>) -> Seq<Seq<char>> {
    Seq::new(items.len(), |i: int| items[i]@)
}

/// The items of a list in order, with a separator between neighbours.
pub open spec fn spec_join(items: Seq<Seq<char>>, separator: Seq<char>) -> Seq<char>
    decreases items.len(),
{
    if items.len() == 0 {
        Seq::empty()
    } else if items.len() == 1 {
        items[0]
    } else {
        spec_join(items.drop_last(), separator) + separator + items.last()
    }
}

/// Joins strings with a separator.
pub fn join(items: &Vec<String>, separator: &str) -> (out: String)
    ensures
        out@ == spec_join(texts_view(items@), separator@),
{
    let mut out = String::new();
    let mut i: usize = 0;
    while i < items.len()
        invariant
            i <= items@.len(),
            out@ == spec_join(texts_view(items@).subrange(0, i as int), separator@),
        decreases items@.len() - i,
    {
        let ghost before = texts_view(items@).subrange(0, i as int);
        let ghost after = texts_view(items@).subrange(0, i + 1);
        assert(after.drop_last() =~= before);
        assert(after.last() == items@[i as int]@);
        if i > 0 {
            push_text(&mut out, separator);
        }
        push_text(&mut out, items[i].as_str());
        i = i + 1;
        assert(out@ =~= spec_join(after, separator@));
    }
    assert(texts_view(items@).subrange(0, i as int) =~= texts_view(items@));
    out
}

/// Whether a list of strings holds a text.
pub fn holds(items: &Vec<String>, text: &str) -> (b: bool)
    ensures
        b == texts_view(items@).contains(text@),
{
    let mut i: usize = 0;
    while i < items.len()
        invariant
            i <= items@.len(),
            forall|j: int| 0 <= j < i ==> texts_view(items@)[j] != text@,
        decreases items@.len() - i,
    {
        if text_eq(items[i].as_str(), text) {
            assert(texts_view(items@)[i as int] == text@);
            return true;
        }
        i = i + 1;
    }
    false
}

/// What may cross origins, and how.
#[derive(Clone, Debug)]
pub struct CorsConfig {
    /// Allowed origins; `*` allows every origin.
    pub allow_origins: Vec<String>,
    /// Allowed HTTP methods.
    pub allow_methods: Vec<String>,
    /// Allowed request headers.
    pub allow_headers: Vec<String>,
    /// Response headers that scripts may read.
    pub expose_headers: Vec<String>,
    /// How long, in seconds, a preflight answer may be cached.
    pub max_age: Option<u64>,
    /// Whether credentials are allowed.
    pub allow_credentials: bool,
}

/// The mathematical value of a [`CorsConfig`].
pub struct CorsConfigView {
    pub allow_origins: Seq<Seq<char>>,
    pub allow_methods: Seq<Seq<char>>,
    pub allow_headers: Seq<Seq<char>>,
    pub expose_headers: Seq<Seq<char>>,
    pub max_age: Option<u64>,
    pub allow_credentials: bool,
}

impl View for CorsConfig {
    type V = CorsConfigView;

    open spec fn view(&self) -> CorsConfigView {
        CorsConfigView {
            allow_origins: texts_view(self.allow_origins@),
            allow_methods: texts_view(self.allow_methods@),
            allow_headers: texts_view(self.allow_headers@),
            expose_headers: texts_view(self.expose_headers@),
            max_age: self.max_age,
            allow_credentials: self.allow_credentials,
        }
    }
}

impl CorsConfigView {
    /// Every origin, the six common methods, every header, an hour of
    /// caching, no credentials.
    pub open spec fn permissive() -> CorsConfigView {
        CorsConfigView {
            allow_origins: seq!["*"@],
            allow_methods: seq!["GET"@, "POST"@, "PUT"@, "DELETE"@, "PATCH"@, "OPTIONS"@],
            allow_headers: seq!["*"@],
            expose_headers: Seq::empty(),
            max_age: Some(3600u64),
            allow_credentials: false,
        }
    }

    /// No origin, `GET` and `POST`, the `Content-Type` header, ten minutes of
    /// caching, no credentials.
    pub open spec fn restrictive() -> CorsConfigView {
        CorsConfigView {
            allow_origins: Seq::empty(),
            allow_methods: seq!["GET"@, "POST"@],
            allow_headers: seq!["Content-Type"@],
            expose_headers: Seq::empty(),
            max_age: Some(600u64),
            allow_credentials: false,
        }
    }

    /// Whether every origin is allowed.
    pub open spec fn allows_any(self) -> bool {
        self.allow_origins.contains("*"@)
    }

    /// Whether an origin is allowed: every origin is, or this one is listed.
    pub open spec fn allows(self, origin: Seq<char>) -> bool {
        self.allows_any() || self.allow_origins.contains(origin)
    }

    /// A response with the header that names the allowed origin: `*` where
    /// every origin is allowed; otherwise the origin itself, and `Vary:
    /// Origin`.
    pub open spec fn with_origin(self, res: ResView, origin: Seq<char>) -> ResView {
        if self.allows_any() {
            res.with_header("Access-Control-Allow-Origin"@, "*"@)
        } else {
            res.with_header("Access-Control-Allow-Origin"@, origin).with_header(
                "Vary"@,
                "Origin"@,
            )
        }
    }

    /// A response with `Access-Control-Allow-Credentials: true` where
    /// credentials are allowed.
    pub open spec fn with_credentials(self, res: ResView) -> ResView {
        if self.allow_credentials {
            res.with_header("Access-Control-Allow-Credentials"@, "true"@)
        } else {
            res
        }
    }

    /// A response with a header that lists items, where there are any.
    pub open spec fn with_list(res: ResView, name: Seq<char>, items: Seq<Seq<char>>) -> ResView {
        if items.len() > 0 {
            res.with_header(name, spec_join(items, ", "@))
        } else {
            res
        }
    }

    /// A response with `Access-Control-Max-Age` where an age is set.
    pub open spec fn with_max_age(self, res: ResView) -> ResView {
        match self.max_age {
            Some(seconds) => res.with_header("Access-Control-Max-Age"@, decimal(seconds as nat)),
            None => res,
        }
    }

    /// The empty response that answers a preflight request.
    pub open spec fn bare_preflight() -> ResView {
        ResView {
            status: 204,
            headers: seq![("Content-Type"@, "text/plain; charset=utf-8"@)],
            body: Seq::empty(),
        }
    }

    /// The answer to a preflight request: status 204, and for an allowed
    /// origin the headers that say what is allowed. A request without an
    /// origin, or from one that is not allowed, gets the bare answer.
    pub open spec fn preflight(self, origin: Option<Seq<char>>) -> ResView {
        match origin {
            Some(o) => if self.allows(o) {
                self.with_credentials(
                    self.with_max_age(
                        Self::with_list(
                            Self::with_list(
                                self.with_origin(Self::bare_preflight(), o),
                                "Access-Control-Allow-Methods"@,
                                self.allow_methods,
                            ),
                            "Access-Control-Allow-Headers"@,
                            self.allow_headers,
                        ),
                    ),
                )
            } else {
                Self::bare_preflight()
            },
            None => Self::bare_preflight(),
        }
    }

    /// A response to an actual request: for an allowed origin, with the
    /// headers that name the origin, the exposed headers and the credentials;
    /// otherwise as it is.
    pub open spec fn decorate(self, res: ResView, origin: Option<Seq<char>>) -> ResView {
        match origin {
            Some(o) => if self.allows(o) {
                self.with_credentials(
                    Self::with_list(
                        self.with_origin(res, o),
                        "Access-Control-Expose-Headers"@,
                        self.expose_headers,
                    ),
                )
            } else {
                res
            },
            None => res,
        }
    }
}

/// A vector of owned strings with the given texts.
fn owned_list(items: &[&str]) -> (out: Vec<String>)
    ensures
        out@.len() == items@.len(),
        forall|i: int| 0 <= i < items@.len() ==> out@[i]@ == items@[i]@,
{
    let mut out: Vec<String> = Vec::new();
    let mut i: usize = 0;
    while i < items.len()
        invariant
            i <= items@.len(),
            out@.len() == i,
            forall|j: int| 0 <= j < i ==> out@[j]@ == items@[j]@,
        decreases items@.len() - i,
    {
        out.push(items[i].to_owned());
        i = i + 1;
    }
    out
}

impl Default for CorsConfig {
    /// The permissive configuration.
    fn default() -> (config: Self)
        ensures
            config@ == CorsConfigView::permissive(),
    {
        let origins: [&str; 1] = ["*"];
        let methods: [&str; 6] = ["GET", "POST", "PUT", "DELETE", "PATCH", "OPTIONS"];
        let headers: [&str; 1] = ["*"];
        let config = Self {
            allow_origins: owned_list(origins.as_slice()),
            allow_methods: owned_list(methods.as_slice()),
            allow_headers: owned_list(headers.as_slice()),
            expose_headers: Vec::new(),
            max_age: Some(3600),
            allow_credentials: false,
        };
        assert(config@.allow_origins =~= CorsConfigView::permissive().allow_origins);
        assert(config@.allow_methods =~= CorsConfigView::permissive().allow_methods);
        assert(config@.allow_headers =~= CorsConfigView::permissive().allow_headers);
        assert(config@.expose_headers =~= CorsConfigView::permissive().expose_headers);
        config
    }
}

impl CorsConfig {
    /// A configuration that allows every origin.
    pub fn permissive() -> (config: Self)
        ensures
            config@ == CorsConfigView::permissive(),
    {
        Self::default()
    }

    /// A configuration that allows no origin until some are listed.
    pub fn restrictive() -> (config: Self)
        ensures
            config@ == CorsConfigView::restrictive(),
    {
        let methods: [&str; 2] = ["GET", "POST"];
        let headers: [&str; 1] = ["Content-Type"];
        let config = Self {
            allow_origins: Vec::new(),
            allow_methods: owned_list(methods.as_slice()),
            allow_headers: owned_list(headers.as_slice()),
            expose_headers: Vec::new(),
            max_age: Some(600),
            allow_credentials: false,
        };
        assert(config@.allow_origins =~= CorsConfigView::restrictive().allow_origins);
        assert(config@.allow_methods =~= CorsConfigView::restrictive().allow_methods);
        assert(config@.allow_headers =~= CorsConfigView::restrictive().allow_headers);
        assert(config@.expose_headers =~= CorsConfigView::restrictive().expose_headers);
        config
    }

    /// Sets the allowed origins.
    pub fn allow_origins(self, origins: Vec<String>) -> (config: Self)
        ensures
            config@ == (CorsConfigView { allow_origins: texts_view(origins@), ..self@ }),
    {
        let mut config = self;
        config.allow_origins = origins;
        config
    }

    /// Sets the allowed methods.
    pub fn allow_methods(self, methods: Vec<String>) -> (config: Self)
        ensures
            config@ == (CorsConfigView { allow_methods: texts_view(methods@), ..self@ }),
    {
        let mut config = self;
        config.allow_methods = methods;
        config
    }

    /// Sets the allowed request headers.
    pub fn allow_headers(self, headers: Vec<String>) -> (config: Self)
        ensures
            config@ == (CorsConfigView { allow_headers: texts_view(headers@), ..self@ }),
    {
        let mut config = self;
        config.allow_headers = headers;
        config
    }

    /// Sets the exposed response headers.
    pub fn expose_headers(self, headers: Vec<String>) -> (config: Self)
        ensures
            config@ == (CorsConfigView { expose_headers: texts_view(headers@), ..self@ }),
    {
        let mut config = self;
        config.expose_headers = headers;
        config
    }

    /// Sets how long a preflight answer may be cached, in seconds.
    pub fn max_age(self, seconds: u64) -> (config: Self)
        ensures
            config@ == (CorsConfigView { max_age: Some(seconds), ..self@ }),
    {
        let mut config = self;
        config.max_age = Some(seconds);
        config
    }

    /// Allows or forbids credentials.
    pub fn allow_credentials(self, allow: bool) -> (config: Self)
        ensures
            config@ == (CorsConfigView { allow_credentials: allow, ..self@ }),
    {
        let mut config = self;
        config.allow_credentials = allow;
        config
    }
}

/// The interceptor that answers preflight requests and adds the sharing
/// headers to other responses.
#[derive(Clone)]
pub struct Cors {
    config: CorsConfig,
}

impl Cors {
    /// The configuration in force.
    pub closed spec fn config(&self) -> CorsConfigView {
        self.config@
    }

    /// An interceptor with a configuration.
    pub fn new(config: CorsConfig) -> (cors: Self)
        ensures
            cors.config() == config@,
    {
        Self { config }
    }

    /// An interceptor with the permissive configuration.
    pub fn default() -> (cors: Self)
        ensures
            cors.config() == CorsConfigView::permissive(),
    {
        Self::new(CorsConfig::default())
    }

    /// An interceptor that allows every origin.
    pub fn permissive() -> (cors: Self)
        ensures
            cors.config() == CorsConfigView::permissive(),
    {
        Self::new(CorsConfig::permissive())
    }

    /// An interceptor that allows no origin.
    pub fn restrictive() -> (cors: Self)
        ensures
            cors.config() == CorsConfigView::restrictive(),
    {
        Self::new(CorsConfig::restrictive())
    }

    /// Whether an origin is allowed.
    pub fn is_origin_allowed(&self, origin: &str) -> (b: bool)
        ensures
            b == self.config().allows(origin@),
    {
        if holds(&self.config.allow_origins, "*") {
            return true;
        }
        holds(&self.config.allow_origins, origin)
    }

    fn add_origin(&self, res: Res, origin: &str) -> (out: Res)
        ensures
            out@ == self.config().with_origin(res@, origin@),
    {
        if holds(&self.config.allow_origins, "*") {
            res.with_header("Access-Control-Allow-Origin", "*")
        } else {
            res.with_header("Access-Control-Allow-Origin", origin).with_header("Vary", "Origin")
        }
    }

    fn add_list(res: Res, name: &str, items: &Vec<String>) -> (out: Res)
        ensures
            out@ == CorsConfigView::with_list(res@, name@, texts_view(items@)),
    {
        if items.len() > 0 {
            let joined = join(items, ", ");
            res.with_header(name, joined.as_str())
        } else {
            res
        }
    }

    fn add_credentials(&self, res: Res) -> (out: Res)
        ensures
            out@ == self.config().with_credentials(res@),
    {
        if self.config.allow_credentials {
            res.with_header("Access-Control-Allow-Credentials", "true")
        } else {
            res
        }
    }

    /// The answer to a preflight request from an origin.
    pub fn build_preflight_response(&self, origin: Option<&str>) -> (res: Res)
        ensures
            res@ == self.config().preflight(
                match origin {
                    Some(o) => Some(o@),
                    None => None,
                },
            ),
    {
        let mut res = Res::builder().status(204).text("");
        proof {
            reveal_strlit("");
            assert(""@ =~= Seq::<char>::empty());
            assert(vstd::utf8::encode_utf8(""@) =~= Seq::<u8>::empty()) by {
                reveal_with_fuel(vstd::utf8::encode_utf8, 1);
            }
            assert(res@.headers =~= CorsConfigView::bare_preflight().headers);
        }
        if let Some(origin) = origin {
            if self.is_origin_allowed(origin) {
                res = self.add_origin(res, origin);
                res = Self::add_list(res, "Access-Control-Allow-Methods", &self.config.allow_methods);
                res = Self::add_list(res, "Access-Control-Allow-Headers", &self.config.allow_headers);
                if let Some(seconds) = self.config.max_age {
                    let age = decimal_string(seconds);
                    res = res.with_header("Access-Control-Max-Age", age.as_str());
                }
                res = self.add_credentials(res);
            }
        }
        res
    }

    /// A response to an actual request from an origin, with the sharing
    /// headers added.
    pub fn add_cors_headers(&self, res: Res, origin: Option<&str>) -> (out: Res)
        ensures
            out@ == self.config().decorate(
                res@,
                match origin {
                    Some(o) => Some(o@),
                    None => None,
                },
            ),
    {
        let mut res = res;
        if let Some(origin) = origin {
            if self.is_origin_allowed(origin) {
                res = self.add_origin(res, origin);
                res = Self::add_list(
                    res,
                    "Access-Control-Expose-Headers",
                    &self.config.expose_headers,
                );
                res = self.add_credentials(res);
            }
        }
        res
    }
}

impl<S> Middleware<S> for Cors {
    open spec fn specified(&self) -> bool {
        true
    }

    /// A preflight request, one with the method `OPTIONS`, is answered at
    /// once. Any other request goes on, and the sharing headers are added to
    /// what comes back.
    open spec fn spec_handle(
        &self,
        req: ReqView,
        state: S,
        next: spec_fn(ReqView) -> ResView,
    ) -> ResView {
        if req.method == "OPTIONS"@ {
            self.config().preflight(req.header("origin"@))
        } else {
            self.config().decorate(next(req), req.header("origin"@))
        }
    }

    fn handle<N: FnOnce(Req) -> Res>(&self, req: Req, state: &S, next: N) -> (res: Res) {
        let origin = req.header("origin");
        let is_preflight = text_eq(req.method(), "OPTIONS");
        let origin_text: Option<&str> = match &origin {
            Some(o) => Some(o.as_str()),
            None => None,
        };
        if is_preflight {
            return self.build_preflight_response(origin_text);
        }
        let res = next(req);
        self.add_cors_headers(res, origin_text)
    }
}

} // verus!
