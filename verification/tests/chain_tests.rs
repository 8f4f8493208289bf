use handler_chain::chain::{dispatch, CatchPanic, ChainHandler, Outcome};
use handler_chain::model::{DepotValue, LogLevel, Request};

fn log_contains(d: &handler_chain::chain::Dispatched, needle: &str) -> bool {
    let mut i = 0;
    while i < d.log.len() {
        if d.log.get(i).message().contains(needle) {
            return true;
        }
        i += 1;
    }
    false
}

#[test]
fn test_catch_panic() {
    let handlers = vec![
        ChainHandler::Boundary(CatchPanic::new()),
        ChainHandler::Fail { message: "panic error!".to_string() },
    ];
    let req = Request::new();
    let d = dispatch(&handlers, &req);
    assert!(log_contains(&d, "panic occurred"));
}

#[test]
fn boundary_converts_failure_to_single_500() {
    let handlers = vec![
        ChainHandler::Boundary(CatchPanic::new()),
        ChainHandler::Fail { message: "panic error!".to_string() },
    ];
    let req = Request::new();
    let d = dispatch(&handlers, &req);
    assert_eq!(d.response.status_code(), Some(500));
    assert_eq!(d.response.body(), "panic occurred on server");
    assert_eq!(d.response.cause(), "panic error!");
    assert!(matches!(d.outcome, Outcome::Completed));
    assert_eq!(d.log.len(), 1);
    assert_eq!(d.log.get(0).message(), "panic occurred");
    assert_eq!(d.log.get(0).error(), "panic error!");
    assert!(d.log.get(0).level() == LogLevel::Error);
}

#[test]
fn normal_flow_passes_through_boundary() {
    let handlers = vec![
        ChainHandler::Boundary(CatchPanic::new()),
        ChainHandler::Store { key: "user".to_string(), value: "alice".to_string() },
        ChainHandler::Respond { body: "hello".to_string() },
    ];
    let req = Request::new();
    let d = dispatch(&handlers, &req);
    assert_eq!(d.response.status_code(), Some(200));
    assert_eq!(d.response.body(), "hello");
    assert!(matches!(d.outcome, Outcome::Completed));
    assert_eq!(d.log.len(), 0);
    match d.depot.get("user") {
        Some(DepotValue::Text(s)) => assert_eq!(s, "alice"),
        _ => panic!("stored value missing"),
    }
}

#[test]
fn uncontained_failure_propagates_to_dispatch() {
    let handlers = vec![ChainHandler::Fail { message: "boom".to_string() }];
    let req = Request::new();
    let d = dispatch(&handlers, &req);
    match d.outcome {
        Outcome::Panicked(m) => assert_eq!(m, "boom"),
        Outcome::Completed => panic!("failure was not propagated"),
    }
    assert_eq!(d.response.status_code(), None);
    assert_eq!(d.log.len(), 0);
}

#[test]
fn not_advancing_ends_chain_early() {
    let handlers = vec![
        ChainHandler::Respond { body: "denied".to_string() },
        ChainHandler::Fail { message: "never reached".to_string() },
    ];
    let req = Request::new();
    let d = dispatch(&handlers, &req);
    assert_eq!(d.response.body(), "denied");
    assert!(matches!(d.outcome, Outcome::Completed));
}

#[test]
fn partial_write_overwritten_by_fixed_500() {
    let handlers = vec![
        ChainHandler::Boundary(CatchPanic::new()),
        ChainHandler::Render { body: "partial".to_string() },
        ChainHandler::Fail { message: "late failure".to_string() },
    ];
    let req = Request::new();
    let d = dispatch(&handlers, &req);
    assert_eq!(d.response.status_code(), Some(500));
    assert_eq!(d.response.body(), "panic occurred on server");
    assert_eq!(d.response.cause(), "late failure");
}

#[test]
fn extracting_handler_feeds_depot() {
    let mut req = Request::new();
    req.set_param("id", "42");
    let handlers = vec![
        ChainHandler::Boundary(CatchPanic::new()),
        ChainHandler::ExtractUInt { name: "id".to_string() },
        ChainHandler::Respond { body: "ok".to_string() },
    ];
    let d = dispatch(&handlers, &req);
    assert_eq!(d.response.status_code(), Some(200));
    assert_eq!(d.response.body(), "ok");
    match d.depot.get("id") {
        Some(DepotValue::UInt(v)) => assert_eq!(*v, 42),
        _ => panic!("extracted value missing"),
    }
}

#[test]
fn failed_extraction_never_invokes_downstream() {
    let mut req = Request::new();
    req.set_param("id", "abc");
    let handlers = vec![
        ChainHandler::Boundary(CatchPanic::new()),
        ChainHandler::ExtractUInt { name: "id".to_string() },
        ChainHandler::Fail { message: "handler body".to_string() },
    ];
    let d = dispatch(&handlers, &req);
    assert_eq!(d.response.status_code(), Some(400));
    assert_eq!(d.response.body(), "path parameter id not found or convert to type failed");
    assert!(matches!(d.outcome, Outcome::Completed));
    assert_eq!(d.log.len(), 0);
}

#[test]
fn store_is_visible_to_later_handlers_and_dispatch() {
    let handlers = vec![
        ChainHandler::Store { key: "a".to_string(), value: "1".to_string() },
        ChainHandler::Store { key: "a".to_string(), value: "2".to_string() },
        ChainHandler::Respond { body: "done".to_string() },
    ];
    let req = Request::new();
    let d = dispatch(&handlers, &req);
    match d.depot.get("a") {
        Some(DepotValue::Text(s)) => assert_eq!(s, "2"),
        _ => panic!("stored value missing"),
    }
}
