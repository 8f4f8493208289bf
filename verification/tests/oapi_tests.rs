use handler_chain::extract::PathParam;
use handler_chain::oapi::{Operation, Parameter, ParameterIn};

#[test]
fn synthesis_is_pure_in_its_name() {
    let a = PathParam::<u64>::parameter_with_arg("id");
    let b = PathParam::<u64>::parameter_with_arg("id");
    assert_eq!(a.name, b.name);
    assert!(a.parameter_in == b.parameter_in);
    assert_eq!(a.description, b.description);
    assert_eq!(a.required, b.required);
    assert_eq!(a.schema, b.schema);
}

#[test]
fn synthesized_descriptor_shape() {
    let p = PathParam::<String>::parameter_with_arg("id");
    assert_eq!(p.name, "id");
    assert!(p.parameter_in == ParameterIn::Path);
    assert_eq!(p.description, "Get parameter `id` from request url path");
    assert!(p.required);
    assert!(p.schema.is_none());
}

#[test]
fn duplicate_identity_keeps_one_entry_with_latest_content() {
    let mut op = Operation::new();
    let first = Parameter::new("id").parameter_in(ParameterIn::Path).description("first");
    let second = Parameter::new("id").parameter_in(ParameterIn::Path).description("second");
    op.insert_parameter(first);
    op.insert_parameter(second);
    assert_eq!(op.parameters_len(), 1);
    let got = op.get_parameter("id", ParameterIn::Path).unwrap();
    assert_eq!(got.description, "second");
}

#[test]
fn distinct_locations_are_distinct_identities() {
    let mut op = Operation::new();
    op.insert_parameter(Parameter::new("id").parameter_in(ParameterIn::Path));
    op.insert_parameter(Parameter::new("id").parameter_in(ParameterIn::Query));
    assert_eq!(op.parameters_len(), 2);
    assert!(op.get_parameter("id", ParameterIn::Path).is_some());
    assert!(op.get_parameter("id", ParameterIn::Query).is_some());
    assert!(op.get_parameter("id", ParameterIn::Header).is_none());
}

#[test]
fn repeated_registration_through_modify_hook_merges() {
    let mut op = Operation::new();
    PathParam::<u64>::modify_with_arg(&mut op, "id");
    PathParam::<u64>::modify_with_arg(&mut op, "id");
    assert_eq!(op.parameters_len(), 1);
    let got = op.get_parameter("id", ParameterIn::Path).unwrap();
    assert_eq!(got.description, "Get parameter `id` from request url path");
    assert!(got.required);
}

#[test]
fn unqualified_synthesis_is_contract_violation() {
    let e = PathParam::<u64>::parameter().unwrap_err();
    assert_eq!(e.message(), "path parameter must have a argument");
}

#[test]
fn unqualified_modify_is_contract_violation() {
    let mut op = Operation::new();
    let e = PathParam::<u64>::modify(&mut op).unwrap_err();
    assert_eq!(e.message(), "path parameter can not modify operation without argument");
    assert_eq!(op.parameters_len(), 0);
}

#[test]
fn path_location_marks_required_and_can_be_overridden() {
    let p = Parameter::new("id").parameter_in(ParameterIn::Path);
    assert!(p.required);
    let q = Parameter::new("id").parameter_in(ParameterIn::Path).required(false);
    assert!(!q.required);
    let r = Parameter::new("page").parameter_in(ParameterIn::Query);
    assert!(!r.required);
}

#[test]
fn builders_fill_every_field() {
    let p = Parameter::new("tok")
        .parameter_in(ParameterIn::Header)
        .description("auth token")
        .required(true)
        .schema("string");
    assert_eq!(p.name, "tok");
    assert!(p.parameter_in == ParameterIn::Header);
    assert_eq!(p.description, "auth token");
    assert!(p.required);
    assert_eq!(p.schema.as_deref(), Some("string"));
}
