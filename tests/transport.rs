use gitty::transport::{
    execute, AttemptError, Failover, FailoverStep, HttpRequest, Method, Route, RouteSender,
    TransportState,
};

fn request() -> HttpRequest {
    HttpRequest::new(Method::Get, "https://api.github.com/x".to_string())
        .set("Authorization", "Bearer t")
        .query("per_page", "100")
}

#[test]
fn request_builder_keeps_everything() {
    let r = request().with_body("b".to_string());
    assert_eq!(Method::Get, r.method());
    assert_eq!("https://api.github.com/x", r.url());
    assert_eq!(vec![("Authorization".to_string(), "Bearer t".to_string())], *r.headers());
    assert_eq!(vec![("per_page".to_string(), "100".to_string())], *r.query_params());
    assert_eq!(Some(&"b".to_string()), r.body());
}

#[test]
fn preferred_route_success_ends_the_call() {
    let mut state = TransportState::new(false);
    let (mut call, route) = Failover::start(&state, &request());
    assert_eq!(Route::Direct, route);
    let step = call.on_attempt(&mut state, Ok::<&str, AttemptError>("response"));
    assert!(matches!(step, FailoverStep::Finished(Ok("response"))));
    assert!(!state.use_proxy);
}

#[test]
fn preferred_route_failure_flips_and_tries_the_other() {
    let mut state = TransportState::new(false);
    let (mut call, route) = Failover::start(&state, &request());
    assert_eq!(Route::Direct, route);
    let step = call.on_attempt::<&str>(&mut state, Err(AttemptError::Status(502)));
    assert!(matches!(step, FailoverStep::Attempt(Route::Proxied)));
    assert!(state.use_proxy);
    let step = call.on_attempt(&mut state, Ok::<&str, AttemptError>("via proxy"));
    assert!(matches!(step, FailoverStep::Finished(Ok("via proxy"))));
    assert!(state.use_proxy);
    assert_eq!(Route::Proxied, state.get_active_route());
}

#[test]
fn both_routes_failing_reports_both_errors() {
    let mut state = TransportState::new(true);
    let (mut call, route) = Failover::start(&state, &request());
    assert_eq!(Route::Proxied, route);
    let step = call.on_attempt::<&str>(&mut state, Err(AttemptError::Connection("refused".to_string())));
    assert!(matches!(step, FailoverStep::Attempt(Route::Direct)));
    let step = call.on_attempt::<&str>(&mut state, Err(AttemptError::Status(500)));
    match step {
        FailoverStep::Finished(Err(e)) => {
            assert_eq!(Method::Get, e.method);
            assert_eq!("https://api.github.com/x", e.url);
            assert_eq!(
                vec![AttemptError::Connection("refused".to_string()), AttemptError::Status(500)],
                e.causes
            );
        }
        _ => panic!("expected a transport error"),
    }
    assert!(!state.use_proxy);
}

struct ScriptedSender {
    answers: Vec<Result<String, AttemptError>>,
    tried: Vec<Route>,
}

impl RouteSender<String> for ScriptedSender {
    fn send(&mut self, route: Route, _request: &HttpRequest) -> Result<String, AttemptError> {
        self.tried.push(route);
        self.answers.remove(0)
    }
}

fn scripted(answers: Vec<Result<String, AttemptError>>) -> ScriptedSender {
    ScriptedSender { answers, tried: Vec::new() }
}

#[test]
fn execute_uses_only_the_preferred_route_when_it_works() {
    let mut sender = scripted(vec![Ok("direct".to_string())]);
    let mut state = TransportState::new(false);
    let r = execute(&mut sender, &mut state, &request());
    assert_eq!("direct", r.unwrap());
    assert_eq!(vec![Route::Direct], sender.tried);
    assert!(!state.use_proxy);
}

#[test]
fn execute_falls_back_and_remembers() {
    let mut sender = scripted(vec![Err(AttemptError::Status(503)), Ok("proxied".to_string())]);
    let mut state = TransportState::new(false);
    let r = execute(&mut sender, &mut state, &request());
    assert_eq!("proxied", r.unwrap());
    assert_eq!(vec![Route::Direct, Route::Proxied], sender.tried);
    assert!(state.use_proxy);

    let mut sender = scripted(vec![Ok("again".to_string())]);
    assert_eq!("again", execute(&mut sender, &mut state, &request()).unwrap());
    assert_eq!(vec![Route::Proxied], sender.tried);
}

#[test]
fn execute_reports_both_failures() {
    let mut sender = scripted(vec![
        Err(AttemptError::Connection("timeout".to_string())),
        Err(AttemptError::Status(404)),
    ]);
    let mut state = TransportState::new(true);
    let e = execute(&mut sender, &mut state, &request()).unwrap_err();
    assert_eq!(vec![Route::Proxied, Route::Direct], sender.tried);
    assert_eq!(vec![AttemptError::Connection("timeout".to_string()), AttemptError::Status(404)], e.causes);
    assert!(!state.use_proxy);
}
