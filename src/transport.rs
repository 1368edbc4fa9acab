use vstd::prelude::*;

verus! {

/// The HTTP method of a request.
#[derive(Debug, Clone, Copy, PartialEq, Eq, Structural)]
pub enum Method {
    Get,
    Post,
    Put,
    Delete,
}

/// What a request is, as plain values; it is built the same way for both routes.
pub struct RequestView {
    pub method: Method,
    pub url: Seq<char>,
    pub headers: Seq<(Seq<char>, Seq<char>)>,
    pub query: Seq<(Seq<char>, Seq<char>)>,
    pub body: Option<Seq<char>>,
}

pub open spec fn pair_view(p: (String, String)) -> (Seq<char>, Seq<char>) {
    (p.0@, p.1@)
}

/// A request to the host: method, URL, headers, query parameters and an
/// optional body. Both routes send exactly this.
#[derive(Debug)]
pub struct HttpRequest {
    method: Method,
    url: String,
    headers: Vec<(String, String)>,
    query: Vec<(String, String)>,
    body: Option<String>,
}

impl View for HttpRequest {
    type V = RequestView;

    closed spec fn view(&self) -> RequestView {
        RequestView {
            method: self.method,
            url: self.url@,
            headers: self.headers@.map_values(|p: (String, String)| pair_view(p)),
            query: self.query@.map_values(|p: (String, String)| pair_view(p)),
            body: match self.body {
                Some(b) => Some(b@),
                None => None,
            },
        }
    }
}

impl HttpRequest {
    pub fn new(method: Method, url: String) -> (r: Self)
        ensures
            r@ == (RequestView {
                method,
                url: url@,
                headers: Seq::empty(),
                query: Seq::empty(),
                body: None,
            }),
    {
        let r = HttpRequest { method, url, headers: Vec::new(), query: Vec::new(), body: None };
        assert(r@.headers =~= Seq::empty());
        assert(r@.query =~= Seq::empty());
        r
    }

    /// Adds a header.
    pub fn set(self, header: &str, value: &str) -> (r: Self)
        ensures
            r@ == (RequestView { headers: self@.headers.push((header@, value@)), ..self@ }),
    {
        let mut r = self;
        r.headers.push((header.to_owned(), value.to_owned()));
        assert(r@.headers =~= self@.headers.push((header@, value@)));
        r
    }

    /// Adds a query parameter.
    pub fn query(self, key: &str, value: &str) -> (r: Self)
        ensures
            r@ == (RequestView { query: self@.query.push((key@, value@)), ..self@ }),
    {
        let mut r = self;
        r.query.push((key.to_owned(), value.to_owned()));
        assert(r@.query =~= self@.query.push((key@, value@)));
        r
    }

    /// Sets the body.
    pub fn with_body(self, body: String) -> (r: Self)
        ensures
            r@ == (RequestView { body: Some(body@), ..self@ }),
    {
        let mut r = self;
        r.body = Some(body);
        r
    }

    pub fn method(&self) -> (r: Method)
        ensures
            r == self@.method,
    {
        self.method
    }

    pub fn url(&self) -> (r: &str)
        ensures
            r@ == self@.url,
    {
        self.url.as_str()
    }

    pub fn headers(&self) -> (r: &Vec<(String, String)>)
        ensures
            r@.map_values(|p: (String, String)| pair_view(p)) == self@.headers,
    {
        &self.headers
    }

    pub fn query_params(&self) -> (r: &Vec<(String, String)>)
        ensures
            r@.map_values(|p: (String, String)| pair_view(p)) == self@.query,
    {
        &self.query
    }

    pub fn body(&self) -> (r: Option<&String>)
        ensures
            match r {
                Some(b) => self@.body == Some(b@),
                None => self@.body is None,
            },
    {
        self.body.as_ref()
    }
}

/// The two ways out to the host.
#[derive(Debug, Clone, Copy, PartialEq, Eq, Structural)]
pub enum Route {
    Direct,
    Proxied,
}

pub open spec fn route_for(use_proxy: bool) -> Route {
    if use_proxy {
        Route::Proxied
    } else {
        Route::Direct
    }
}

/// Which route is tried first. It lives as long as the transport, and only a
/// failed attempt changes it.
#[derive(Debug, Clone, Copy, PartialEq, Eq, Structural)]
pub struct TransportState {
    pub use_proxy: bool,
}

impl TransportState {
    pub fn new(use_proxy: bool) -> (r: Self)
        ensures
            r.use_proxy == use_proxy,
    {
        TransportState { use_proxy }
    }

    /// The route tried first.
    pub fn get_active_route(&self) -> (r: Route)
        ensures
            r == route_for(self.use_proxy),
    {
        if self.use_proxy {
            Route::Proxied
        } else {
            Route::Direct
        }
    }
}

/// Why one attempt failed: a status outside 2xx, or no response at all.
#[derive(Debug, Clone, PartialEq, Eq)]
pub enum AttemptError {
    Status(u16),
    Connection(String),
}

/// Both routes failed for one request. `causes` holds the first attempt's
/// error, then the second's.
#[derive(Debug)]
pub struct TransportError {
    pub method: Method,
    pub url: String,
    pub causes: Vec<AttemptError>,
}

/// How far one call has gone.
#[derive(Debug, Clone, Copy, PartialEq, Eq, Structural)]
pub enum Phase {
    First,
    Second,
    Done,
}

/// What to do after an attempt: try the other route, or hand back the result.
pub enum FailoverStep<R> {
    Attempt(Route),
    Finished(Result<R, TransportError>),
}

/// Where a call goes after an attempt that succeeded or not: its next phase,
/// the preference afterwards, and the route to try next if any.
pub open spec fn after_attempt(phase: Phase, use_proxy: bool, succeeded: bool) -> (
    Phase,
    bool,
    Option<Route>,
) {
    match phase {
        Phase::First => if succeeded {
            (Phase::Done, use_proxy, None)
        } else {
            (Phase::Second, !use_proxy, Some(route_for(!use_proxy)))
        },
        _ => (Phase::Done, use_proxy, None),
    }
}

/// One call through the transport: the preferred route, then at most once the
/// other.
pub struct Failover {
    phase: Phase,
    method: Method,
    url: String,
    first_error: Option<AttemptError>,
}

impl Failover {
    /// The error of the first attempt is kept while the second is pending.
    pub closed spec fn wf(&self) -> bool {
        self.phase == Phase::Second ==> self.first_error is Some
    }

    pub closed spec fn phase(&self) -> Phase {
        self.phase
    }

    pub closed spec fn first_error(&self) -> Option<AttemptError> {
        self.first_error
    }

    pub closed spec fn request_method(&self) -> Method {
        self.method
    }

    pub closed spec fn request_url(&self) -> Seq<char> {
        self.url@
    }

    /// Starts a call of `request`; the first attempt goes by the preferred route.
    pub fn start(state: &TransportState, request: &HttpRequest) -> (r: (Failover, Route))
        ensures
            r.0.wf(),
            r.0.phase() == Phase::First,
            r.0.first_error() is None,
            r.0.request_method() == request@.method,
            r.0.request_url() == request@.url,
            r.1 == route_for(state.use_proxy),
    {
        let f = Failover {
            phase: Phase::First,
            method: request.method(),
            url: request.url().to_owned(),
            first_error: None,
        };
        (f, state.get_active_route())
    }

    /// Takes the outcome of the attempt just made and says what comes next.
    /// A failure of the first attempt flips the preference, for this call and
    /// the ones after it; a failure of the second ends the call with both
    /// errors.
    pub fn on_attempt<R>(
        &mut self,
        state: &mut TransportState,
        outcome: Result<R, AttemptError>,
    ) -> (r: FailoverStep<R>)
        requires
            old(self).wf(),
            old(self).phase() != Phase::Done,
        ensures
            final(self).wf(),
            ({
                let (phase, use_proxy, next) = after_attempt(
                    old(self).phase(),
                    old(state).use_proxy,
                    outcome is Ok,
                );
                &&& final(self).phase() == phase
                &&& final(state).use_proxy == use_proxy
                &&& match next {
                    Some(route) => r == FailoverStep::<R>::Attempt(route),
                    None => r is Finished,
                }
            }),
            final(self).request_method() == old(self).request_method(),
            final(self).request_url() == old(self).request_url(),
            outcome is Err && old(self).phase() == Phase::First ==> final(self).first_error() == Some(
                outcome->Err_0,
            ),
            match (r, outcome) {
                (FailoverStep::Finished(Ok(v)), Ok(w)) => v == w,
                (FailoverStep::Finished(Ok(_)), Err(_)) => false,
                (FailoverStep::Finished(Err(e)), Err(second)) => {
                    &&& old(self).phase() == Phase::Second
                    &&& e.method == old(self).request_method()
                    &&& e.url@ == old(self).request_url()
                    &&& e.causes@ == seq![old(self).first_error()->0, second]
                },
                (FailoverStep::Finished(Err(_)), Ok(_)) => false,
                (FailoverStep::Attempt(_), _) => true,
            },
    {
        match outcome {
            Ok(v) => {
                self.phase = Phase::Done;
                FailoverStep::Finished(Ok(v))
            },
            Err(e) => {
                if self.phase == Phase::First {
                    state.use_proxy = !state.use_proxy;
                    self.first_error = Some(e);
                    self.phase = Phase::Second;
                    FailoverStep::Attempt(state.get_active_route())
                } else {
                    self.phase = Phase::Done;
                    let mut causes: Vec<AttemptError> = Vec::new();
                    let first = match self.first_error.take() {
                        Some(f) => f,
                        None => e.clone(),
                    };
                    causes.push(first);
                    causes.push(e);
                    FailoverStep::Finished(
                        Err(TransportError { method: self.method, url: self.url.clone(), causes }),
                    )
                }
            },
        }
    }
}

/// Sends a request by one route, over a real connection.
pub trait RouteSender<R> {
    /// The response, or why the attempt failed (no response, or a status
    /// outside 2xx).
    fn send(&mut self, route: Route, request: &HttpRequest) -> Result<R, AttemptError>;
}

/// Sends `request` by the preferred route and, if that fails, once by the
/// other. A failure on the preferred route flips the preference for later
/// calls; when the other route fails too, the error carries both failures.
pub fn execute<R, S: RouteSender<R>>(
    sender: &mut S,
    state: &mut TransportState,
    request: &HttpRequest,
) -> (r: Result<R, TransportError>)
    ensures
        final(state).use_proxy == old(state).use_proxy || final(state).use_proxy
            == !old(state).use_proxy,
        r matches Err(e) ==> {
            &&& final(state).use_proxy == !old(state).use_proxy
            &&& e.method == request@.method
            &&& e.url@ == request@.url
            &&& e.causes@.len() == 2
        },
{
    let ghost start = state.use_proxy;
    let (mut call, mut route) = Failover::start(state, request);
    loop
        invariant
            start == old(state).use_proxy,
            call.wf(),
            call.phase() != Phase::Done,
            call.request_method() == request@.method,
            call.request_url() == request@.url,
            call.phase() == Phase::First ==> state.use_proxy == start,
            call.phase() == Phase::Second ==> state.use_proxy == !start,
        decreases
                if call.phase() == Phase::First {
                    1int
                } else {
                    0int
                },
    {
        let outcome = sender.send(route, request);
        match call.on_attempt(state, outcome) {
            FailoverStep::Attempt(next) => {
                route = next;
            },
            FailoverStep::Finished(result) => {
                return result;
            },
        }
    }
}

/// Failover of one call. When the preferred route succeeds the call ends there:
/// no other route is tried and the preference stays. When it fails, the
/// preference flips and the other route is tried, once; whatever that attempt
/// gives ends the call, and the preference stays flipped.
pub proof fn lemma_failover(use_proxy: bool)
    ensures
        after_attempt(Phase::First, use_proxy, true) == (Phase::Done, use_proxy, None::<Route>),
        after_attempt(Phase::First, use_proxy, false) == (
            Phase::Second,
            !use_proxy,
            Some(route_for(!use_proxy)),
        ),
        route_for(!use_proxy) != route_for(use_proxy),
        after_attempt(Phase::Second, !use_proxy, true) == (Phase::Done, !use_proxy, None::<Route>),
        after_attempt(Phase::Second, !use_proxy, false) == (Phase::Done, !use_proxy, None::<Route>),
{
}

} // verus!
