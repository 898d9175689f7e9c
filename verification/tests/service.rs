use hyper_routing::DefaultErrorHandler;
use hyper_routing::DispatchOutcome;
use hyper_routing::ErrorHandling;
use hyper_routing::HttpResponse;
use hyper_routing::Method;
use hyper_routing::RouteBuilder;
use hyper_routing::RouterBuilder;
use hyper_routing::RouterService;
use hyper_routing::handlers::default_404_handler;
use hyper_routing::handlers::method_not_supported_handler;

type Handler = fn() -> HttpResponse;

fn greeting_handler() -> HttpResponse {
    HttpResponse {
        status: 200,
        content_length: "Hello World".len(),
        content_type: "text/plain".to_string(),
        body: "Hello World".to_string(),
    }
}

fn service() -> RouterService<Handler, DefaultErrorHandler> {
    let router = RouterBuilder::new()
        .add(
            RouteBuilder::try_from(Method::Get, "/hello")
                .expect("pattern must be a valid regular expression")
                .using(greeting_handler as Handler),
        )
        .build();
    RouterService::new(router)
}

#[test]
fn dispatch_invokes_the_resolved_handler() {
    let service = service();
    match service.call("/hello", &Method::Get) {
        DispatchOutcome::Handler(h) => {
            let response = h();
            assert_eq!(response.status, 200);
            assert_eq!(response.body, "Hello World");
        }
        DispatchOutcome::Response(_) => panic!("expected the registered handler"),
    }
}

#[test]
fn dispatch_answers_missing_paths_with_404() {
    let service = service();
    match service.call("/missing", &Method::Get) {
        DispatchOutcome::Handler(_) => panic!("no route matches this path"),
        DispatchOutcome::Response(r) => {
            assert_eq!(r.status, 404);
            assert_eq!(r.body, "page not found");
            assert_eq!(r.content_length, "page not found".len());
            assert_eq!(r.content_type, "text/plain");
        }
    }
}

#[test]
fn dispatch_answers_wrong_methods_with_405() {
    let service = service();
    match service.call("/hello", &Method::Post) {
        DispatchOutcome::Handler(_) => panic!("no route has this method"),
        DispatchOutcome::Response(r) => {
            assert_eq!(r.status, 405);
            assert_eq!(r.body, "method not supported");
            assert_eq!(r.content_length, "method not supported".len());
            assert_eq!(r.content_type, "text/plain");
        }
    }
}

#[test]
fn default_error_handler_answers_with_the_canned_responses() {
    let cases = [
        (404u16, 404u16, "page not found"),
        (405, 405, "method not supported"),
        (501, 501, "not implemented"),
        (500, 500, "internal server error"),
        // A status outside the canned set indicates a failure inside the
        // server and gets the canned 500 response.
        (418, 500, "internal server error"),
    ];
    for (given, status, body) in cases {
        let r = DefaultErrorHandler.handle(given);
        assert_eq!(r.status, status);
        assert_eq!(r.body, body);
        assert_eq!(r.content_length, body.len());
        assert_eq!(r.content_type, "text/plain");
    }
}

struct TeapotErrorHandler;

impl ErrorHandling for TeapotErrorHandler {
    fn handle(&self, _status_code: u16) -> HttpResponse {
        HttpResponse {
            status: 418,
            content_length: "teapot".len(),
            content_type: "text/plain".to_string(),
            body: "teapot".to_string(),
        }
    }
}

#[test]
fn configured_error_handler_is_the_one_invoked() {
    let router = RouterBuilder::new()
        .add(
            RouteBuilder::try_from(Method::Get, "/hello")
                .expect("pattern must be a valid regular expression")
                .using(greeting_handler as Handler),
        )
        .build();
    let service = RouterService { router, error_handler: TeapotErrorHandler };
    match service.call("/missing", &Method::Get) {
        DispatchOutcome::Handler(_) => panic!("no route matches this path"),
        DispatchOutcome::Response(r) => {
            assert_eq!(r.status, 418);
            assert_eq!(r.body, "teapot");
        }
    }
}

#[test]
fn service_is_always_ready() {
    let service = service();
    assert!(service.poll_ready());
}

#[test]
fn defaults_are_always_invocable_and_complete() {
    let router = RouterBuilder::new()
        .add(
            RouteBuilder::try_from(Method::Get, "^/hello$")
                .expect("pattern must be a valid regular expression")
                .using(greeting_handler as Handler),
        )
        .build();
    let requests = [
        ("/hello", Method::Get, 200, "Hello World"),
        ("/other", Method::Get, 404, "page not found"),
        ("/hello", Method::Post, 405, "method not supported"),
    ];
    for (path, method, status, body) in requests {
        let handler = router.find_handler_with_defaults(
            path,
            &method,
            default_404_handler as Handler,
            method_not_supported_handler as Handler,
        );
        let response = handler();
        assert_eq!(response.status, status);
        assert_eq!(response.body, body);
        assert_eq!(response.content_length, body.len());
        assert_eq!(response.content_type, "text/plain");
    }
}
