use hyper::{Body, Method, Request, Response, StatusCode};
use std::future::Future;
use std::sync::atomic::{AtomicUsize, Ordering};
use std::sync::Arc;
use std::task::{Context, Poll, Wake, Waker};
use sync_serve::dispatch::{MakeService, Service};

struct Quiet;

impl Wake for Quiet {
    fn wake(self: Arc<Self>) {}
}

fn read_all(body: Body) -> Vec<u8> {
    let waker = Waker::from(Arc::new(Quiet));
    let mut context = Context::from_waker(&waker);
    let mut reading = Box::pin(hyper::body::to_bytes(body));
    loop {
        if let Poll::Ready(bytes) = reading.as_mut().poll(&mut context) {
            return bytes.unwrap().to_vec();
        }
    }
}

fn shout(request: Request<Body>) -> Response<Body> {
    let text = read_all(request.into_body());
    Response::new(Body::from(text.to_ascii_uppercase()))
}

fn by_method(request: Request<Body>) -> Response<Body> {
    let status = if request.method() == Method::GET {
        StatusCode::OK
    } else {
        StatusCode::METHOD_NOT_ALLOWED
    };
    let mut response = Response::new(Body::empty());
    *response.status_mut() = status;
    response
}

#[test]
fn unit_resolves_to_the_handlers_response() {
    let mut make = MakeService(Arc::new(shout));
    let mut connection = make.call(()).unwrap();
    let mut unit = connection.call(Request::new(Body::from("hello, world")));
    assert!(unit.is_pending());
    let response = unit.poll().unwrap();
    assert!(!unit.is_pending());
    assert_eq!(response.status(), StatusCode::OK);
    assert_eq!(read_all(response.into_body()), b"HELLO, WORLD".to_vec());
}

#[test]
fn each_request_gets_its_own_answer() {
    let mut make = MakeService(Arc::new(by_method));
    let mut connection = make.call("peer").unwrap();
    let mut post = Request::new(Body::empty());
    *post.method_mut() = Method::POST;
    let mut first = connection.call(Request::new(Body::empty()));
    let mut second = connection.call(post);
    assert_eq!(second.poll().unwrap().status(), StatusCode::METHOD_NOT_ALLOWED);
    assert_eq!(first.poll().unwrap().status(), StatusCode::OK);
}

#[test]
fn adapters_are_always_ready() {
    let mut make = MakeService(Arc::new(by_method));
    assert!(make.poll_ready().is_ok());
    let mut connection = make.call(()).unwrap();
    assert!(connection.poll_ready().is_ok());
    assert!(make.poll_ready().is_ok());
}

#[test]
fn every_connection_shares_the_one_handler() {
    let mut make = MakeService(Arc::new(by_method));
    assert_eq!(Arc::strong_count(&make.0), 1);
    let mut first = make.call(()).unwrap();
    let second = make.call(()).unwrap();
    assert!(Arc::ptr_eq(&make.0, first.handler()));
    assert!(Arc::ptr_eq(first.handler(), second.handler()));
    assert_eq!(Arc::strong_count(&make.0), 3);
    let unit = first.call(Request::new(Body::empty()));
    assert!(Arc::ptr_eq(&make.0, unit.handler()));
    assert_eq!(Arc::strong_count(&make.0), 4);
    drop(unit);
    drop(first);
    drop(second);
    assert_eq!(Arc::strong_count(&make.0), 1);
}

#[test]
fn handler_runs_exactly_once_for_each_unit() {
    let calls = Arc::new(AtomicUsize::new(0));
    let seen = Arc::clone(&calls);
    let handler = move |_request: Request<Body>| -> Response<Body> {
        seen.fetch_add(1, Ordering::SeqCst);
        Response::new(Body::empty())
    };
    let mut make = MakeService(Arc::new(handler));
    let mut connection = make.call(()).unwrap();
    let mut unit = connection.call(Request::new(Body::empty()));
    assert_eq!(calls.load(Ordering::SeqCst), 0);
    let _ = unit.poll().unwrap();
    assert_eq!(calls.load(Ordering::SeqCst), 1);
    assert!(!unit.is_pending());
    let mut other = connection.call(Request::new(Body::empty()));
    let _ = other.poll().unwrap();
    assert_eq!(calls.load(Ordering::SeqCst), 2);
}

#[test]
fn closure_is_a_handler() {
    let handler = |request: Request<Body>| -> Response<Body> { by_method(request) };
    let response = Service::call(&handler, Request::new(Body::empty()));
    assert_eq!(response.status(), StatusCode::OK);
}

struct Fixed(StatusCode);

impl Service for Fixed {
    fn call(&self, _request: Request<Body>) -> Response<Body> {
        let mut response = Response::new(Body::empty());
        *response.status_mut() = self.0;
        response
    }
}

#[test]
fn struct_is_a_handler() {
    let mut make = MakeService(Arc::new(Fixed(StatusCode::NOT_FOUND)));
    let mut connection = make.call(()).unwrap();
    let mut unit = connection.call(Request::new(Body::from("ignored")));
    assert_eq!(unit.poll().unwrap().status(), StatusCode::NOT_FOUND);
    assert_eq!(connection.handler().0, StatusCode::NOT_FOUND);
}
