//! The checks of the management API probe.

use axvisor_control::probe::checks::{
    assert_action, assert_detail, assert_status, assert_vm_status, body_returns_id, list_has_vm,
    read_exchange, vm_status, Exchange,
};
use axvisor_control::probe::json::{create_body, read_body, Json, JsonBody};
use serde_json::Value;

fn body(text: &str) -> Option<JsonBody> {
    read_body(text.as_bytes()).unwrap()
}

#[test]
fn create_body_round_trips_the_fixture_toml() {
    let toml = "name = \"linux\"\npath = \"a\\b\"";
    let body = create_body(toml);
    // A raw newline would break JSON; it must be escaped as `\n`.
    assert!(!body.contains('\n'));
    // Round-trips back to the same TOML.
    let parsed: Value = serde_json::from_str(&body).unwrap();
    assert_eq!(parsed["toml"], Value::String(toml.to_string()));
}

#[test]
fn assert_status_reports_mismatch() {
    assert!(assert_status("x", reqwest::StatusCode::OK.as_u16(), 200).is_ok());
    assert!(assert_status("x", reqwest::StatusCode::NOT_FOUND.as_u16(), 200).is_err());
}

#[test]
fn vm_status_parses_the_detail_body() {
    let running = body("{\"id\": 1, \"status\": \"running\"}");
    assert_eq!(vm_status(&running).unwrap(), "running");
    assert!(vm_status(&None).is_err());
    assert!(vm_status(&body("{\"id\": 1}")).is_err());
}

#[test]
fn list_has_vm_matches_by_id() {
    let list = body("[{\"id\": 2}, {\"id\": 1}]");
    assert!(list_has_vm(&list, 1));
    assert!(!list_has_vm(&list, 3));
    assert!(!list_has_vm(&None, 1));
    assert!(!list_has_vm(&body("{\"id\": 1}"), 1)); // object, not array
}

#[test]
fn assert_action_checks_ok_and_async() {
    let start = body("{\"ok\": true, \"status\": \"running\", \"async\": false}");
    assert!(assert_action("start", &start, true, false).is_ok());
    assert!(assert_action("start", &start, true, true).is_err());
    assert!(assert_action("start", &start, false, false).is_err());
    assert!(assert_action("stop", &body("{\"ok\": true, \"async\": true}"), true, true).is_ok());
    assert!(assert_action("start", &None, true, false).is_err());
}

#[test]
fn status_mismatch_names_both_codes() {
    assert_eq!(assert_status("GET /x", 503, 200), Err("GET /x returned 503, expected 200".to_string()));
}

#[test]
fn vm_status_errors_show_the_body() {
    assert_eq!(vm_status(&None), Err("VM detail response had no JSON body".to_string()));
    assert_eq!(
        vm_status(&body("{\"status\": 3, \"a\": [1.5, -2, null, true]}")),
        Err("VM detail response had no status string: {\"a\":[1.5,-2,null,true],\"status\":3}"
            .to_string())
    );
}

#[test]
fn an_id_must_be_an_unsigned_number() {
    assert!(!list_has_vm(&body("[{\"id\": \"1\"}, {\"id\": -1}, {\"id\": 1.0}, 1]"), 1));
    assert!(list_has_vm(&body("[{\"id\": 18446744073709551615}]"), u64::MAX));
}

#[test]
fn action_errors_name_the_marker() {
    assert_eq!(
        assert_action("start", &body("{\"ok\": false}"), true, false),
        Err("start reported ok=Some(false), expected true".to_string())
    );
    assert_eq!(
        assert_action("start", &body("{\"ok\": true}"), true, false),
        Err("start reported async=None, expected false".to_string())
    );
    assert_eq!(
        assert_action("start", &None, true, false),
        Err("start had no JSON body".to_string())
    );
}

#[test]
fn the_detail_must_describe_the_default_vm() {
    let label = "GET /api/vms/1";
    let cases = [
        ("{\"id\": 2}", "GET /api/vms/1 did not report id=1"),
        ("{\"id\": 1, \"name\": \"x\"}", "GET /api/vms/1 did not report the fixture name"),
        (
            "{\"id\": 1, \"name\": \"linux-http-control-plane\", \"cpu_num\": 2}",
            "GET /api/vms/1 did not report cpu_num=1",
        ),
        (
            "{\"id\": 1, \"name\": \"linux-http-control-plane\", \"cpu_num\": 1}",
            "GET /api/vms/1 had no vcpu_states array",
        ),
        (
            "{\"id\": 1, \"name\": \"linux-http-control-plane\", \"cpu_num\": 1, \
             \"vcpu_states\": []}",
            "GET /api/vms/1 reported an empty vcpu_states array",
        ),
    ];
    for (text, error) in cases {
        assert_eq!(assert_detail(label, &body(text)), Err(error.to_string()));
    }
    assert_eq!(assert_detail(label, &None), Err("GET /api/vms/1 had no JSON body".to_string()));
    assert_eq!(
        assert_detail(
            label,
            &body(
                "{\"id\": 1, \"name\": \"linux-http-control-plane\", \"cpu_num\": 1, \
                 \"vcpu_states\": [0]}"
            )
        ),
        Ok(())
    );
}

#[test]
fn a_vm_status_is_compared() {
    let ready = body("{\"status\": \"ready\"}");
    assert_eq!(assert_vm_status("GET /x", &ready, "ready"), Ok(()));
    assert_eq!(
        assert_vm_status("GET /x", &ready, "running"),
        Err("GET /x reported status ready, expected running".to_string())
    );
}

#[test]
fn a_recreated_vm_returns_its_id() {
    assert!(body_returns_id(&body("{\"id\": 1}")));
    assert!(!body_returns_id(&body("{\"id\": 2}")));
    assert!(!body_returns_id(&None));
}

#[test]
fn null_is_no_body() {
    assert!(body("null").is_none());
    assert!(body(" null ").is_none());
    assert!(body("false").is_some());
    assert!(read_body(b"").is_err());
    assert!(read_body(b"{\"a\": 1} trailing").is_err());
}

#[test]
fn a_document_is_taken_apart_to_the_innermost_item() {
    let found = body("{\"b\": {\"c\": [true, \"x\", 7]}, \"a\": -3}").unwrap();
    assert_eq!(found.text, "{\"a\":-3,\"b\":{\"c\":[true,\"x\",7]}}");
    match &found.json {
        Json::Object(members) => {
            assert_eq!(members.len(), 2);
            assert_eq!(members[0].0, "a");
            assert!(matches!(&members[0].1, Json::Number(digits) if digits == "-3"));
            let inner = members[1].1.get("c").unwrap();
            match inner {
                Json::Array(items) => {
                    assert!(matches!(items[0], Json::Bool(true)));
                    assert!(matches!(&items[1], Json::Text(text) if text == "x"));
                    assert!(matches!(items[2], Json::Unsigned(7)));
                }
                _ => panic!("not an array"),
            }
        }
        _ => panic!("not an object"),
    }
}

#[test]
fn an_empty_response_has_no_body() {
    let reply = read_exchange(
        "http://h/x",
        Exchange::Arrived { status: 204, phrase: "204 No Content".to_string(), bytes: Vec::new() },
    )
    .unwrap();
    assert_eq!(reply.status, 204);
    assert!(reply.body.is_none());
}

#[test]
fn a_response_that_is_not_json_is_an_error_with_its_first_bytes() {
    let failure = read_exchange(
        "http://h/x",
        Exchange::Arrived { status: 200, phrase: "200 OK".to_string(), bytes: b"hi".to_vec() },
    )
    .unwrap_err();
    assert_eq!(
        failure.contexts,
        vec!["HTTP response from http://h/x was not valid JSON: [104, 105]".to_string()]
    );
    let cause = serde_json::from_slice::<Value>(b"hi").unwrap_err().to_string();
    assert_eq!(failure.cause, cause);

    let long = vec![b'x'; 300];
    let failure = read_exchange(
        "u",
        Exchange::Arrived { status: 200, phrase: "200 OK".to_string(), bytes: long },
    )
    .unwrap_err();
    assert_eq!(failure.contexts[0].matches("120").count(), 256);
}
