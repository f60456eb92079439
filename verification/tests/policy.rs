use assert_json_diff::{assert_json_matches_no_panic, CompareMode, Config};
use echo_policy::engine::{evaluate, EvaluationError, Verdict};
use echo_policy::operation::Operation;
use echo_policy::settings::Settings;

fn payload(request: &str) -> String {
    format!("{{\"request\":{}}}", request)
}

#[test]
fn accept() {
    let test_cases = vec![
        (
            "create",
            payload(
                "{\"operation\":\"CREATE\",\"object\":{\"metadata\":{\"annotations\":{}}}}",
            ),
        ),
        (
            "update",
            payload(
                "{\"operation\":\"UPDATE\",\"oldObject\":{\"metadata\":{\"annotations\":{\"owner\":\"tests\"}}}}",
            ),
        ),
        (
            "delete",
            payload("{\"operation\":\"DELETE\",\"oldObject\":{\"metadata\":{}}}"),
        ),
    ];

    for (name, input) in &test_cases {
        let res = evaluate(input.as_bytes()).expect("Validation should not raise errors");
        assert!(
            matches!(res, Verdict::Accept),
            "Request should be accepted with test case: {}",
            name,
        );
    }
}

#[test]
fn reject() {
    let test_cases = vec![
        (
            "create",
            payload(
                "{\"operation\":\"CREATE\",\"object\":{\"metadata\":{\"annotations\":{\"io.kubewarden.policy.echo.create\":\"true\"}}}}",
            ),
        ),
        (
            "update",
            payload(
                "{\"operation\":\"UPDATE\",\"oldObject\":{\"metadata\":{\"annotations\":{\"io.kubewarden.policy.echo.update\":\"true\"}}}}",
            ),
        ),
        (
            "delete",
            payload(
                "{\"operation\":\"DELETE\",\"oldObject\":{\"metadata\":{\"annotations\":{\"io.kubewarden.policy.echo.delete\":\"true\"}}}}",
            ),
        ),
    ];

    for (name, input) in &test_cases {
        let res = evaluate(input.as_bytes()).expect("Validation should not raise errors");
        let message = match res {
            Verdict::Accept => panic!("Request should be rejected with test case: {}", name),
            Verdict::Reject { code, message } => {
                assert_eq!(code, 418);
                message
            }
        };

        let full_input: serde_json::Value = serde_json::from_str(input).unwrap();
        let expected_request = full_input.get("request").unwrap();

        let request: serde_json::Value = serde_json::from_str(&message)
            .expect("response message should contain a valid JSON document");

        assert_json_matches_no_panic(
            &request,
            expected_request,
            Config::new(CompareMode::Inclusive),
        )
        .unwrap();
    }
}

#[test]
fn reject_message_round_trips_the_request() {
    let input = payload(
        "{\"operation\":\"CONNECT\",\"object\":{\"metadata\":{\"annotations\":{\"io.kubewarden.policy.echo.connect\":\"x\"}}}}",
    );
    let res = evaluate(input.as_bytes()).unwrap();
    let message = match res {
        Verdict::Reject { code, message } => {
            assert_eq!(code, 418);
            message
        }
        Verdict::Accept => panic!("the connect sentinel key should reject"),
    };
    let round_tripped: serde_json::Value = serde_json::from_str(&message).unwrap();
    let full_input: serde_json::Value = serde_json::from_str(&input).unwrap();
    assert_eq!(&round_tripped, full_input.get("request").unwrap());
}

#[test]
fn create_with_sentinel_rejects() {
    let input = payload(
        "{\"operation\":\"CREATE\",\"object\":{\"metadata\":{\"annotations\":{\"io.kubewarden.policy.echo.create\":\"x\"}}}}",
    );
    let res = evaluate(input.as_bytes()).unwrap();
    match res {
        Verdict::Reject { code, message } => {
            assert_eq!(code, 418);
            let request: serde_json::Value = serde_json::from_str(&message).unwrap();
            let expected: serde_json::Value = serde_json::from_str(
                "{\"object\":{\"metadata\":{\"annotations\":{\"io.kubewarden.policy.echo.create\":\"x\"}}}}",
            )
            .unwrap();
            assert_json_matches_no_panic(&request, &expected, Config::new(CompareMode::Inclusive))
                .unwrap();
        }
        Verdict::Accept => panic!("the create sentinel key should reject"),
    }
}

#[test]
fn create_with_empty_annotations_accepts() {
    let input = payload("{\"operation\":\"CREATE\",\"object\":{\"metadata\":{\"annotations\":{}}}}");
    let res = evaluate(input.as_bytes()).unwrap();
    assert!(matches!(res, Verdict::Accept));
}

#[test]
fn update_with_sentinel_on_old_object_rejects() {
    let input = payload(
        "{\"operation\":\"UPDATE\",\"oldObject\":{\"metadata\":{\"annotations\":{\"io.kubewarden.policy.echo.update\":\"y\"}}}}",
    );
    let res = evaluate(input.as_bytes()).unwrap();
    assert!(matches!(res, Verdict::Reject { code: 418, .. }));
}

#[test]
fn update_with_sentinel_on_new_object_only_accepts() {
    let input = payload(
        "{\"operation\":\"UPDATE\",\"object\":{\"metadata\":{\"annotations\":{\"io.kubewarden.policy.echo.update\":\"y\"}}},\"oldObject\":{\"metadata\":{\"annotations\":{}}}}",
    );
    let res = evaluate(input.as_bytes()).unwrap();
    assert!(matches!(res, Verdict::Accept));
}

#[test]
fn delete_without_annotations_key_accepts() {
    let input = payload("{\"operation\":\"DELETE\",\"oldObject\":{\"metadata\":{}}}");
    let res = evaluate(input.as_bytes()).unwrap();
    assert!(matches!(res, Verdict::Accept));
}

#[test]
fn annotations_of_unexpected_shape_accepts() {
    let input = payload(
        "{\"operation\":\"CONNECT\",\"object\":{\"metadata\":{\"annotations\":\"not a mapping\"}}}",
    );
    let res = evaluate(input.as_bytes()).unwrap();
    assert!(matches!(res, Verdict::Accept));
}

#[test]
fn wrong_kind_sentinel_key_accepts() {
    let input = payload(
        "{\"operation\":\"CREATE\",\"object\":{\"metadata\":{\"annotations\":{\"io.kubewarden.policy.echo.update\":\"x\"}}}}",
    );
    let res = evaluate(input.as_bytes()).unwrap();
    assert!(matches!(res, Verdict::Accept));
}

#[test]
fn unsupported_operation_fails_without_verdict() {
    let input = payload("{\"operation\":\"PATCH\",\"object\":{\"metadata\":{}}}");
    let res = evaluate(input.as_bytes());
    assert_eq!(
        res.unwrap_err(),
        EvaluationError::UnknownOperation {
            operation: String::from("PATCH")
        }
    );
}

#[test]
fn non_json_payload_fails_with_malformed_input() {
    let res = evaluate(b"this is not json");
    assert_eq!(res.unwrap_err(), EvaluationError::MalformedInput);
}

#[test]
fn missing_operation_fails_with_malformed_input() {
    let input = payload("{\"object\":{\"metadata\":{\"annotations\":{}}}}");
    let res = evaluate(input.as_bytes());
    assert_eq!(res.unwrap_err(), EvaluationError::MalformedInput);
}

#[test]
fn non_string_operation_fails_with_malformed_input() {
    let input = payload("{\"operation\":7,\"object\":{\"metadata\":{\"annotations\":{}}}}");
    let res = evaluate(input.as_bytes());
    assert_eq!(res.unwrap_err(), EvaluationError::MalformedInput);
}

#[test]
fn classify_accepts_the_four_tags() {
    assert_eq!(
        Operation::classify(&String::from("CREATE")).unwrap(),
        Operation::Create
    );
    assert_eq!(
        Operation::classify(&String::from("UPDATE")).unwrap(),
        Operation::Update
    );
    assert_eq!(
        Operation::classify(&String::from("DELETE")).unwrap(),
        Operation::Delete
    );
    assert_eq!(
        Operation::classify(&String::from("CONNECT")).unwrap(),
        Operation::Connect
    );
}

#[test]
fn classify_rejects_everything_else() {
    for tag in ["create", "Create", "", "PATCH", "CREATE ", " CREATE"] {
        let res = Operation::classify(&String::from(tag));
        assert_eq!(res.unwrap_err(), tag);
    }
}

#[test]
fn settings_validation_always_succeeds() {
    let settings = Settings {};
    assert!(settings.validate().is_ok());
}
