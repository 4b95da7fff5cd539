use zana::outcome::CallOutcome;
use zana::params::{parameter_value, ParameterPayload, ResponseError};

fn assert_fail(outcome: CallOutcome<ParameterPayload>) {
    match parameter_value(outcome) {
        Ok(_) => panic!("successful response returned when error expected"),
        Err(err) => assert_eq!(ResponseError::ServiceError, err),
    }
}

#[test]
fn return_error_when_request_cant_complete() {
    assert_fail(CallOutcome::Transport(String::from(
        "error sending request for url (http://localhost/wrong/url/here)",
    )));
}

#[test]
fn return_error_when_response_is_not_200() {
    for status_code in [201u16, 300, 400, 401, 403, 404, 429, 500, 503] {
        assert_fail(CallOutcome::Failure(status_code, String::from("Error returned")));
    }
}

#[test]
fn return_error_when_response_is_not_json() {
    assert_fail(CallOutcome::Malformed(String::from("This is not JSON")));
}

#[test]
fn get_parameter_from_param_store() {
    let response = parameter_value(CallOutcome::Success(ParameterPayload {
        value: String::from("param-value"),
    }))
    .expect("value expected from parameter store");
    assert_eq!("param-value", response);
}
