use potato::rpc::{plan_forward, request_would_panic, unknown_method_answer, ForwardError};
use potato::{create_json, ParamsField, RequestError, RequestFields, RpcCall, RpcImpl};

fn fields(method: Option<&str>, id: Option<&str>, params: ParamsField) -> RequestFields {
    RequestFields {
        method: method.map(|m| m.to_string()),
        id: id.map(|i| i.to_string()),
        params,
    }
}

#[test]
fn create_json_wraps_result_and_id() {
    let json = create_json("3".to_string(), "2");
    assert_eq!(json, "{\"jsonrpc\": \"2.0\", \"result\": 3, \"id\": 2}");
}

#[test]
fn create_json_inserts_texts_verbatim() {
    let json = create_json("\"Hello, World!\"".to_string(), "\"abc\"");
    assert_eq!(json, "{\"jsonrpc\": \"2.0\", \"result\": \"Hello, World!\", \"id\": \"abc\"}");
}

#[test]
fn plan_add_with_two_integers() {
    let f = fields(Some("add"), Some("2"), ParamsField::Array(vec![Some(1), Some(2)]));
    let plan = potato::rpc::plan_request(&f).unwrap();
    assert_eq!(plan.call, RpcCall::Add(1, 2));
    assert_eq!(plan.id, "2");
}

#[test]
fn plan_add_ignores_extra_parameters() {
    let f = fields(Some("add"), Some("9"), ParamsField::Array(vec![Some(5), Some(-7), None]));
    let plan = potato::rpc::plan_request(&f).unwrap();
    assert_eq!(plan.call, RpcCall::Add(5, -7));
}

#[test]
fn plan_exit_and_say_hello() {
    let plan = potato::rpc::plan_request(&fields(Some("exit"), Some("3"), ParamsField::Missing)).unwrap();
    assert_eq!(plan.call, RpcCall::Exit);
    assert_eq!(plan.id, "3");
    let plan = potato::rpc::plan_request(&fields(Some("say_hello"), Some("1"), ParamsField::NotArray)).unwrap();
    assert_eq!(plan.call, RpcCall::SayHello);
}

#[test]
fn plan_unknown_method_is_answered_locally() {
    let plan = potato::rpc::plan_request(&fields(Some("multiply"), Some("4"), ParamsField::Missing)).unwrap();
    assert_eq!(plan.call, RpcCall::Unknown);
    assert_eq!(unknown_method_answer(), "Invalid method");
}

#[test]
fn plan_errors_in_order() {
    let plan = |f: RequestFields| potato::rpc::plan_request(&f).unwrap_err();
    assert_eq!(plan(fields(None, None, ParamsField::Missing)), RequestError::InvalidMethod);
    assert_eq!(plan(fields(Some("add"), None, ParamsField::Missing)), RequestError::InvalidId);
    assert_eq!(plan(fields(Some("add"), Some("1"), ParamsField::Missing)), RequestError::InvalidParameters);
    assert_eq!(plan(fields(Some("add"), Some("1"), ParamsField::NotArray)), RequestError::InvalidParameters);
    assert_eq!(
        plan(fields(Some("add"), Some("1"), ParamsField::Array(vec![None]))),
        RequestError::InvalidFirstParameter
    );
    assert_eq!(
        plan(fields(Some("add"), Some("1"), ParamsField::Array(vec![Some(1), None]))),
        RequestError::InvalidSecondParameter
    );
}

#[test]
fn request_error_messages() {
    assert_eq!(RequestError::InvalidMethod.message(), "Invalid method");
    assert_eq!(RequestError::InvalidId.message(), "Invalid id");
    assert_eq!(RequestError::InvalidParameters.message(), "Invalid parameters");
    assert_eq!(RequestError::InvalidFirstParameter.message(), "Invalid first parameter");
    assert_eq!(RequestError::InvalidSecondParameter.message(), "Invalid second parameter");
}

#[test]
fn short_parameter_arrays_are_detected() {
    assert!(request_would_panic(&fields(Some("add"), Some("1"), ParamsField::Array(vec![]))));
    assert!(request_would_panic(&fields(Some("add"), Some("1"), ParamsField::Array(vec![Some(4)]))));
    assert!(!request_would_panic(&fields(Some("add"), Some("1"), ParamsField::Array(vec![None]))));
    assert!(!request_would_panic(&fields(Some("add"), None, ParamsField::Array(vec![]))));
    assert!(!request_would_panic(&fields(Some("exit"), Some("1"), ParamsField::Array(vec![]))));
    assert!(!request_would_panic(&fields(Some("add"), Some("1"), ParamsField::Array(vec![Some(1), Some(2)]))));
}

#[test]
fn rpc_procedures() {
    assert_eq!(RpcImpl.add(1, 2), 3);
    assert_eq!(RpcImpl.add(-5, 2), -3);
    assert_eq!(RpcImpl.exit(), "exit");
    assert_eq!(RpcImpl.say_hello(), "Hello, World!");
}

#[test]
fn plan_forward_reads_the_request_text() {
    let plan = plan_forward("{ \"jsonrpc\": \"2.0\", \"method\": \"add\", \"params\": [1, 2], \"id\":2 }").unwrap();
    assert_eq!(plan.call, RpcCall::Add(1, 2));
    assert_eq!(plan.id, "2");
    let plan = plan_forward("{ \"jsonrpc\": \"2.0\", \"method\": \"say_hello\", \"params\": \"null\", \"id\":1 }").unwrap();
    assert_eq!(plan.call, RpcCall::SayHello);
    assert_eq!(plan.id, "1");
    let plan = plan_forward("{\"method\": \"exit\", \"id\": \"a\"}").unwrap();
    assert_eq!(plan.call, RpcCall::Exit);
    assert_eq!(plan.id, "\"a\"");
    assert!(matches!(plan_forward("not json"), Err(ForwardError::Json(_))));
    assert!(matches!(plan_forward("{\"id\": 1}"), Err(ForwardError::Request(RequestError::InvalidMethod))));
    assert!(matches!(
        plan_forward("{\"method\": \"add\", \"id\": 1, \"params\": [1.5, 2]}"),
        Err(ForwardError::Request(RequestError::InvalidFirstParameter))
    ));
    assert!(matches!(
        plan_forward("{\"method\": \"add\", \"id\": 1, \"params\": [4]}"),
        Err(ForwardError::ParamsTooShort(1))
    ));
    assert!(matches!(
        plan_forward("{\"method\": \"add\", \"id\": 1, \"params\": []}"),
        Err(ForwardError::ParamsTooShort(0))
    ));
}

#[test]
fn create_json_reads_back_as_a_json_rpc_reply() {
    let text = create_json("[1,\"two\"]".to_string(), "\"id-7\"");
    let value: serde_json::Value = serde_json::from_str(&text).unwrap();
    assert_eq!(value.get("jsonrpc").and_then(serde_json::Value::as_str), Some("2.0"));
    assert_eq!(value.get("result").unwrap().to_string(), "[1,\"two\"]");
    assert_eq!(value.get("id").unwrap().to_string(), "\"id-7\"");
    assert_eq!(value.as_object().unwrap().len(), 3);
}
