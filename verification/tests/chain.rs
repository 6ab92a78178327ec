use std::cell::RefCell;
use std::rc::Rc;

use hyper::HeaderMap;
use rust_api::{
    CombinedMiddleware, ConditionalMiddleware, Layer, Middleware, MiddlewareChain, Req, Res,
};

type Log = Rc<RefCell<Vec<String>>>;

/// Records when it is entered and left, and marks the response on the way out.
struct Recorder {
    name: &'static str,
    log: Log,
}

impl Middleware<()> for Recorder {
    fn handle<N: FnOnce(Req) -> Res>(&self, req: Req, _state: &(), next: N) -> Res {
        self.log.borrow_mut().push(format!("{} before", self.name));
        let res = next(req);
        self.log.borrow_mut().push(format!("{} after {}", self.name, res.status_code()));
        res.with_header(self.name, "seen")
    }
}

/// Lets a request through only where it carries an `authorization` header.
struct Auth {
    log: Log,
}

impl Middleware<()> for Auth {
    fn handle<N: FnOnce(Req) -> Res>(&self, req: Req, _state: &(), next: N) -> Res {
        self.log.borrow_mut().push("Auth before".to_string());
        if req.header("authorization").is_some() {
            next(req)
        } else {
            Res::builder().status(401).text("Unauthorized")
        }
    }
}

enum Either {
    Recorder(Recorder),
    Auth(Auth),
}

impl Middleware<()> for Either {
    fn handle<N: FnOnce(Req) -> Res>(&self, req: Req, state: &(), next: N) -> Res {
        match self {
            Either::Recorder(r) => r.handle(req, state, next),
            Either::Auth(a) => a.handle(req, state, next),
        }
    }
}

fn request(path: &str) -> Req {
    Req::new("GET", path, None, HeaderMap::new())
}

fn recorder(name: &'static str, log: &Log) -> Recorder {
    Recorder { name, log: Rc::clone(log) }
}

fn never(_req: &Req, _state: &()) -> bool {
    false
}

fn under_api(req: &Req, _state: &()) -> bool {
    req.path().starts_with("/api")
}

#[test]
fn onion_order_of_three_layers() {
    let log: Log = Rc::new(RefCell::new(Vec::new()));
    let chain = CombinedMiddleware::new(vec![
        recorder("A", &log),
        recorder("B", &log),
        recorder("C", &log),
    ]);
    let terminal_log = Rc::clone(&log);
    let res = chain.handle(request("/"), &(), move |_req| {
        terminal_log.borrow_mut().push("T".to_string());
        Res::text("done")
    });
    assert_eq!(
        *log.borrow(),
        vec![
            "A before", "B before", "C before", "T", "C after 200", "B after 200", "A after 200"
        ]
    );
    assert_eq!(res.status_code(), 200);
    assert_eq!(res.body().as_slice(), b"done");
    let names: Vec<&str> = res.headers().iter().map(|(n, _)| n.as_str()).collect();
    assert_eq!(names, vec!["Content-Type", "C", "B", "A"]);
}

#[test]
fn terminal_runs_exactly_once() {
    let log: Log = Rc::new(RefCell::new(Vec::new()));
    let chain = CombinedMiddleware::new(vec![recorder("A", &log), recorder("B", &log)]);
    let calls = Rc::new(RefCell::new(0u32));
    let counter = Rc::clone(&calls);
    chain.handle(request("/"), &(), move |_req| {
        *counter.borrow_mut() += 1;
        Res::status(204)
    });
    assert_eq!(*calls.borrow(), 1);
}

#[test]
fn empty_chain_is_the_terminal() {
    let chain: CombinedMiddleware<Recorder> = CombinedMiddleware::new(Vec::new());
    let res = chain.handle(request("/"), &(), |_req| Res::status(418));
    assert_eq!(res, Res::status(418));
}

#[test]
fn with_adds_the_innermost_layer() {
    let log: Log = Rc::new(RefCell::new(Vec::new()));
    let chain = CombinedMiddleware::new(vec![recorder("A", &log)]).with(recorder("B", &log));
    chain.handle(request("/"), &(), |_req| Res::status(200));
    assert_eq!(*log.borrow(), vec!["A before", "B before", "B after 200", "A after 200"]);
}

#[test]
fn short_circuit_is_still_seen_on_the_way_out() {
    let log: Log = Rc::new(RefCell::new(Vec::new()));
    let chain = CombinedMiddleware::new(vec![
        Either::Recorder(recorder("Logger", &log)),
        Either::Auth(Auth { log: Rc::clone(&log) }),
    ]);
    let reached = Rc::new(RefCell::new(false));
    let flag = Rc::clone(&reached);
    let res = chain.handle(request("/api/users"), &(), move |_req| {
        *flag.borrow_mut() = true;
        Res::text("secret")
    });
    assert!(!*reached.borrow());
    assert_eq!(res.status_code(), 401);
    assert_eq!(res.body().as_slice(), b"Unauthorized");
    assert_eq!(res.header("Logger"), Some("seen".to_string()));
    assert_eq!(*log.borrow(), vec!["Logger before", "Auth before", "Logger after 401"]);
}

#[test]
fn false_condition_equals_removed_layer() {
    let with_log: Log = Rc::new(RefCell::new(Vec::new()));
    let with_conditional = MiddlewareChain::new()
        .add(recorder("A", &with_log))
        .when(never as fn(&Req, &()) -> bool, recorder("B", &with_log))
        .add(recorder("C", &with_log))
        .build();
    let with_res = with_conditional.handle(request("/"), &(), |_req| Res::text("x"));

    let without_log: Log = Rc::new(RefCell::new(Vec::new()));
    let without = MiddlewareChain::<(), Recorder, fn(&Req, &()) -> bool>::new()
        .add(recorder("A", &without_log))
        .add(recorder("C", &without_log))
        .build();
    let without_res = without.handle(request("/"), &(), |_req| Res::text("x"));

    assert_eq!(with_res, without_res);
    assert_eq!(*with_log.borrow(), *without_log.borrow());
    assert_eq!(*with_log.borrow(), vec!["A before", "C before", "C after 200", "A after 200"]);
}

#[test]
fn condition_is_asked_of_the_request() {
    let log: Log = Rc::new(RefCell::new(Vec::new()));
    let conditional =
        ConditionalMiddleware::new(recorder("Api", &log), under_api as fn(&Req, &()) -> bool);
    conditional.handle(request("/public"), &(), |_req| Res::status(200));
    assert!(log.borrow().is_empty());
    conditional.handle(request("/api/users"), &(), |_req| Res::status(200));
    assert_eq!(*log.borrow(), vec!["Api before", "Api after 200"]);
}

#[test]
fn layers_dispatch_to_their_entry() {
    let log: Log = Rc::new(RefCell::new(Vec::new()));
    let always: Layer<(), Recorder, fn(&Req, &()) -> bool> = Layer::Always(recorder("A", &log));
    always.handle(request("/"), &(), |_req| Res::status(200));
    let guarded: Layer<(), Recorder, fn(&Req, &()) -> bool> =
        Layer::When(ConditionalMiddleware::new(recorder("B", &log), never));
    guarded.handle(request("/"), &(), |_req| Res::status(200));
    assert_eq!(*log.borrow(), vec!["A before", "A after 200"]);
}

#[test]
fn default_chain_is_empty() {
    let chain: MiddlewareChain<(), Recorder, fn(&Req, &()) -> bool> = MiddlewareChain::default();
    let res = chain.build().handle(request("/"), &(), |_req| Res::status(202));
    assert_eq!(res.status_code(), 202);
}

#[test]
fn state_reaches_every_layer() {
    struct Counting;
    impl Middleware<RefCell<u32>> for Counting {
        fn handle<N: FnOnce(Req) -> Res>(&self, req: Req, state: &RefCell<u32>, next: N) -> Res {
            *state.borrow_mut() += 1;
            next(req)
        }
    }
    let state = RefCell::new(0u32);
    let chain = CombinedMiddleware::new(vec![Counting, Counting, Counting]);
    chain.handle(request("/"), &state, |_req| Res::status(200));
    assert_eq!(*state.borrow(), 3);
}

#[test]
fn false_condition_hands_the_request_on_unchanged() {
    let log: Log = Rc::new(RefCell::new(Vec::new()));
    let conditional = ConditionalMiddleware::new(recorder("B", &log), never as fn(&Req, &()) -> bool);
    let mut req = request("/kept");
    req.set_path_params(vec![("id".to_string(), "7".to_string())]);
    let res = conditional.handle(req, &(), |req| {
        assert_eq!(req.path(), "/kept");
        assert_eq!(req.param("id"), Some("7"));
        Res::status(299)
    });
    assert_eq!(res, Res::status(299));
    assert!(log.borrow().is_empty());
}
