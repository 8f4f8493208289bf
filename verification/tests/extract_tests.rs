use handler_chain::extract::{parse_u64, PathParam};
use handler_chain::model::Request;

#[test]
fn qualified_extraction_converts_integer() {
    let mut req = Request::new();
    req.set_param("id", "42");
    let p = PathParam::<u64>::extract_with_arg(&req, "id").unwrap();
    assert_eq!(p.name(), "id");
    assert_eq!(*p.value(), 42);
}

#[test]
fn unconvertible_value_fails_with_named_error() {
    let mut req = Request::new();
    req.set_param("id", "abc");
    let e = PathParam::<u64>::extract_with_arg(&req, "id").unwrap_err();
    assert_eq!(e.message(), "path parameter id not found or convert to type failed");
    assert!(e.message().contains("id"));
}

#[test]
fn missing_parameter_fails_with_named_error() {
    let req = Request::new();
    let e = PathParam::<u64>::extract_with_arg(&req, "id").unwrap_err();
    assert!(e.message().contains("id"));
    assert_eq!(e.message(), "path parameter id not found or convert to type failed");
}

#[test]
fn qualified_extraction_returns_raw_string() {
    let mut req = Request::new();
    req.set_param("name", "alice");
    let p = PathParam::<String>::extract_with_arg(&req, "name").unwrap();
    assert_eq!(p.name(), "name");
    assert_eq!(p.value(), "alice");
}

#[test]
fn missing_string_parameter_fails() {
    let req = Request::new();
    let e = PathParam::<String>::extract_with_arg(&req, "name").unwrap_err();
    assert_eq!(e.message(), "path parameter name not found or convert to type failed");
}

#[test]
fn unqualified_extraction_is_contract_violation() {
    let req = Request::new();
    let e = PathParam::<u64>::extract(&req).unwrap_err();
    assert_eq!(e.message(), "path parameter can not be extracted from request");
}

#[test]
fn replaced_binding_wins_in_request() {
    let mut req = Request::new();
    req.set_param("id", "1");
    req.set_param("id", "7");
    let p = PathParam::<u64>::extract_with_arg(&req, "id").unwrap();
    assert_eq!(*p.value(), 7);
}

#[test]
fn parse_accepts_exact_bounds() {
    assert_eq!(parse_u64("0"), Some(0));
    assert_eq!(parse_u64("42"), Some(42));
    assert_eq!(parse_u64("18446744073709551615"), Some(u64::MAX));
}

#[test]
fn parse_rejects_overflow_and_junk() {
    assert_eq!(parse_u64("18446744073709551616"), None);
    assert_eq!(parse_u64(""), None);
    assert_eq!(parse_u64("4a2"), None);
    assert_eq!(parse_u64("-1"), None);
    assert_eq!(parse_u64(" 42"), None);
}

#[test]
fn constructed_param_exposes_name_and_value() {
    let p = PathParam::new("id", 7u64);
    assert_eq!(p.name(), "id");
    assert_eq!(*p.value(), 7);
}

#[test]
fn declared_metadata_is_empty() {
    let m = PathParam::<u64>::metadata();
    assert_eq!(m.name(), "");
}
