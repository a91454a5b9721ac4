//! Whole runs of the probe against a pretended management API.

use axvisor_control::probe::checks::{read_answer, Answer, Exchange};
use axvisor_control::probe::http_probe::{script, Method, Request, Step};
use axvisor_control::probe::runner::{Probe, ProbeAction};

const SECOND: u64 = 1_000_000_000;
const TOML: &str = "[base]\nid = 1\n";

/// A management API with one VM.
struct Api {
    registered: bool,
    status: &'static str,
    ran: bool,
}

impl Api {
    fn new() -> Api {
        Api { registered: true, status: "ready", ran: false }
    }

    fn handle(&mut self, request: &Request) -> (u16, String) {
        let path = request.url.strip_prefix("http://127.0.0.1:8080").unwrap();
        if request.method != Method::Get && request.bearer.as_deref() != Some("secret") {
            return (401, String::new());
        }
        match (request.method, path) {
            (Method::Get, "/api/vms") => {
                if self.registered {
                    (200, "[{\"id\": 1}]".to_string())
                } else {
                    (200, "[]".to_string())
                }
            }
            (Method::Get, "/api/vms/1") => {
                if self.registered {
                    let status = self.status;
                    (
                        200,
                        format!(
                            "{{\"id\": 1, \"name\": \"linux-http-control-plane\", \"cpu_num\": 1, \
                             \"status\": \"{status}\", \"vcpu_states\": [\"free\"]}}"
                        ),
                    )
                } else {
                    (404, "{}".to_string())
                }
            }
            (Method::Post, "/api/vms/create") => {
                assert_eq!(request.content_type.as_deref(), Some("application/json"));
                let body = request.body.as_deref().unwrap();
                if body == "{}" || body.contains("not [[ valid") {
                    (400, String::new())
                } else if self.registered {
                    (409, String::new())
                } else {
                    assert_eq!(body, "{\"toml\":\"[base]\\nid = 1\\n\"}");
                    self.registered = true;
                    self.status = "ready";
                    self.ran = false;
                    (200, "{\"id\": 1}".to_string())
                }
            }
            (Method::Post, "/api/vms/1/start") => {
                if self.ran {
                    (409, String::new())
                } else {
                    self.ran = true;
                    self.status = "running";
                    (200, "{\"ok\": true, \"async\": false}".to_string())
                }
            }
            (Method::Post, "/api/vms/1/stop") => {
                self.status = "stopped";
                (200, "{\"ok\": true, \"async\": true}".to_string())
            }
            (Method::Delete, "/api/vms/1") => {
                self.registered = false;
                (204, String::new())
            }
            _ => (404, "{\"error\": \"unknown\"}".to_string()),
        }
    }
}

fn start() -> Probe {
    Probe::start("127.0.0.1:8080", Some("secret".to_string()), "vm.toml", Ok(TOML.to_string()))
        .unwrap()
}

fn arrived(status: u16, body: &str) -> Exchange {
    Exchange::Arrived {
        status,
        phrase: format!("{status} Phrase"),
        bytes: body.as_bytes().to_vec(),
    }
}

fn answer(request: &Request, status: u16, body: &str) -> Answer {
    read_answer(&request.url, arrived(status, body))
}

/// Answers everything from `api` until the verdict is in.
fn run(probe: &mut Probe, api: &mut Api) -> usize {
    let mut now = 0;
    let mut requests = 0;
    loop {
        match probe.action() {
            ProbeAction::Consult => probe.consult(false, now),
            ProbeAction::Send(request) => {
                requests += 1;
                let (status, body) = api.handle(&request);
                let reply = answer(&request, status, &body);
                probe.answer(reply, now);
            }
            ProbeAction::Sleep(secs) => {
                now += secs * SECOND;
                probe.wake();
            }
            ProbeAction::Finished => return requests,
        }
    }
}

/// Answers as [`run`] does, up to the request with this number.
fn run_to(probe: &mut Probe, api: &mut Api, number: usize) -> Request {
    let mut requests = 0;
    loop {
        match probe.action() {
            ProbeAction::Consult => probe.consult(false, 0),
            ProbeAction::Send(request) => {
                requests += 1;
                if requests == number {
                    return request;
                }
                let (status, body) = api.handle(&request);
                let reply = answer(&request, status, &body);
                probe.answer(reply, 0);
            }
            ProbeAction::Sleep(_) => probe.wake(),
            ProbeAction::Finished => panic!("finished after {requests} requests"),
        }
    }
}

#[test]
fn the_whole_contract_passes() {
    let mut probe = start();
    let mut api = Api::new();
    let requests = run(&mut probe, &mut api);
    assert_eq!(requests, script().len());
    assert_eq!(requests, 32);
    assert!(!api.registered);
    let notes = probe.take_notes();
    assert_eq!(notes[0].text, "  http probe: guest management server reachable");
    assert_eq!(notes[1].text, "  http probe: GET /api/vms -> 200 (expect 200)");
    assert_eq!(notes[3].text, "  http probe: GET /api/vms/1 -> status ready (expect ready)");
    assert!(notes.iter().any(|note| note.text
        == "  http probe: POST /api/vms/1/start -> ok=Some(true) async=Some(false) (expect \
            ok=true async=false)"));
    assert!(notes.iter().any(|note| note.text == "  http probe: VM[1] -> running"));
    assert!(notes.iter().any(|note| note.text == "  http probe: VM[1] -> gone"));
    assert_eq!(
        notes.last().unwrap().text,
        "  http probe: full control-plane contract passed"
    );
    assert!(notes.iter().all(|note| !note.unusual));
    assert!(probe.take_notes().is_empty());
    assert!(probe.into_verdict().is_ok());
}

#[test]
fn the_fixture_must_be_readable() {
    let failure =
        Probe::start("a", None, "case/vm-memory.toml", Err("not found".to_string())).unwrap_err();
    assert_eq!(
        failure.to_text(),
        "failed to read VM config fixture case/vm-memory.toml: not found"
    );
}

#[test]
fn requests_carry_what_the_step_says() {
    let steps = script();
    assert!(matches!(steps[0], Step::Ready { expected: 200, deadline_secs: 30, .. }));
    let mut probe = start();
    let mut api = Api::new();
    let open = run_to(&mut probe, &mut api, 6);
    assert_eq!(open.method, Method::Post);
    assert_eq!(open.url, "http://127.0.0.1:8080/api/vms/create");
    assert_eq!(open.bearer, None);
    assert_eq!(open.content_type, None);
    assert_eq!(open.body, None);

    let mut probe = start();
    let mut api = Api::new();
    let invalid = run_to(&mut probe, &mut api, 11);
    assert_eq!(invalid.bearer, Some("secret".to_string()));
    assert_eq!(
        invalid.body,
        Some("{\"toml\":\"this is not [[ valid toml {{{\"}".to_string())
    );

    let anonymous =
        Probe::start("127.0.0.1:8080", None, "vm.toml", Ok(TOML.to_string())).unwrap();
    let mut anonymous = anonymous;
    let mut api = Api::new();
    assert_eq!(run_to(&mut anonymous, &mut api, 10).bearer, None);
}

#[test]
fn a_wrong_status_code_fails_the_probe() {
    let mut probe = start();
    let mut api = Api::new();
    let request = run_to(&mut probe, &mut api, 5);
    probe.answer(answer(&request, 200, "{}"), 0);
    assert_eq!(probe.action(), ProbeAction::Finished);
    assert_eq!(
        probe.into_verdict().unwrap_err().to_text(),
        "GET /api/vms/999 returned 200, expected 404"
    );
}

#[test]
fn a_wrong_body_fails_the_probe() {
    let mut probe = start();
    let mut api = Api::new();
    let request = run_to(&mut probe, &mut api, 2);
    probe.answer(answer(&request, 200, "[{\"id\": 2}]"), 0);
    assert_eq!(
        probe.into_verdict().unwrap_err().to_text(),
        "GET /api/vms did not list the default VM id=1"
    );

    let mut probe = start();
    let mut api = Api::new();
    let request = run_to(&mut probe, &mut api, 24);
    assert_eq!(request.url, "http://127.0.0.1:8080/api/vms/create");
    probe.answer(answer(&request, 200, "{\"id\": 2}"), 0);
    assert_eq!(
        probe.into_verdict().unwrap_err().to_text(),
        "recreate did not return id=1"
    );
}

#[test]
fn a_transport_error_fails_a_single_request() {
    let mut probe = start();
    let mut api = Api::new();
    let request = run_to(&mut probe, &mut api, 2);
    probe.answer(
        read_answer(&request.url, Exchange::SendFailed("connection reset".to_string())),
        0,
    );
    assert_eq!(
        probe.into_verdict().unwrap_err().to_text(),
        "HTTP request http://127.0.0.1:8080/api/vms failed: connection reset"
    );
}

#[test]
fn the_first_request_is_retried_until_its_deadline() {
    let mut probe = start();
    let mut now = 7 * SECOND;
    let mut tries = 0;
    loop {
        match probe.action() {
            ProbeAction::Consult => probe.consult(false, now),
            ProbeAction::Send(request) => {
                tries += 1;
                probe.answer(
                    read_answer(&request.url, Exchange::SendFailed("refused".to_string())),
                    now,
                );
            }
            ProbeAction::Sleep(secs) => {
                assert_eq!(secs, 1);
                now += secs * SECOND;
                probe.wake();
            }
            ProbeAction::Finished => break,
        }
    }
    assert_eq!(tries, 31);
    assert_eq!(
        probe.into_verdict().unwrap_err().to_text(),
        "guest management HTTP server never became reachable: request \
         http://127.0.0.1:8080/api/vms never returned HTTP 200 within 30s"
    );
}

#[test]
fn a_poll_goes_on_through_oddities_and_gives_up_in_the_end() {
    let mut probe = start();
    let mut api = Api::new();
    let request = run_to(&mut probe, &mut api, 17);
    assert_eq!(request.url, "http://127.0.0.1:8080/api/vms/1");
    probe.take_notes();
    probe.answer(answer(&request, 503, ""), 0);
    assert_eq!(probe.action(), ProbeAction::Sleep(1));
    probe.wake();
    probe.consult(false, SECOND);
    probe.answer(
        read_answer(&request.url, Exchange::BodyFailed("reset".to_string())),
        SECOND,
    );
    probe.wake();
    probe.consult(false, 2 * SECOND);
    probe.answer(answer(&request, 200, "{\"status\": \"starting\"}"), 2 * SECOND);
    let notes = probe.take_notes();
    assert_eq!(notes.len(), 2);
    assert!(notes[0].unusual);
    assert_eq!(notes[0].text, "  http probe: VM[1] poll saw HTTP 503 Phrase");
    assert_eq!(
        notes[1].text,
        "  http probe: VM[1] poll transport error: HTTP response body from \
         http://127.0.0.1:8080/api/vms/1 failed to read: reset"
    );
    probe.wake();
    probe.consult(false, 119 * SECOND);
    probe.answer(answer(&request, 503, ""), 120 * SECOND - 1);
    assert_eq!(probe.action(), ProbeAction::Sleep(1));
    probe.wake();
    probe.consult(false, 120 * SECOND);
    probe.answer(answer(&request, 503, ""), 120 * SECOND);
    assert_eq!(
        probe.into_verdict().unwrap_err().to_text(),
        "VM[1] never became running within 120s"
    );
}

#[test]
fn a_detail_without_a_status_ends_a_poll() {
    let mut probe = start();
    let mut api = Api::new();
    let request = run_to(&mut probe, &mut api, 17);
    probe.answer(answer(&request, 200, "{\"id\": 1}"), 0);
    assert_eq!(
        probe.into_verdict().unwrap_err().to_text(),
        "VM detail response had no status string: {\"id\":1}"
    );
}

#[test]
fn a_vm_that_stays_fails_the_probe() {
    let mut probe = start();
    let mut api = Api::new();
    let request = run_to(&mut probe, &mut api, 23);
    assert_eq!(request.url, "http://127.0.0.1:8080/api/vms/1");
    probe.take_notes();
    probe.answer(answer(&request, 200, "{}"), 0);
    assert_eq!(
        probe.take_notes()[0].text,
        "  http probe: VM[1] gone-poll saw HTTP 200 Phrase"
    );
    probe.wake();
    probe.consult(false, 0);
    probe.answer(answer(&request, 200, "{}"), 500 * SECOND);
    assert_eq!(
        probe.into_verdict().unwrap_err().to_text(),
        "VM[1] never disappeared within 120s"
    );
}

#[test]
fn a_stop_ends_a_poll() {
    let mut probe = start();
    probe.consult(true, 0);
    assert_eq!(probe.action(), ProbeAction::Finished);
    assert_eq!(
        probe.into_verdict().unwrap_err().to_text(),
        "guest management HTTP server never became reachable: host http probe stopped"
    );

    let mut probe = start();
    let mut api = Api::new();
    let request = run_to(&mut probe, &mut api, 17);
    probe.answer(answer(&request, 404, ""), 0);
    probe.wake();
    probe.consult(true, 0);
    assert_eq!(
        probe.into_verdict().unwrap_err().to_text(),
        "host http probe stopped"
    );
}

#[test]
fn the_script_rejects_open_writes_and_cleans_up() {
    let steps = script();
    for step in &steps {
        if let Step::Ask { method, authorized, expected, .. } = step {
            assert!(*method == Method::Get || *authorized || *expected == 401);
        }
    }
    assert!(matches!(steps.last(), Some(Step::Disappears { id: 1 })));
}

#[test]
fn a_404_means_gone_whatever_its_body() {
    let mut probe = start();
    let mut api = Api::new();
    let request = run_to(&mut probe, &mut api, 23);
    probe.take_notes();
    probe.answer(answer(&request, 404, "Not Found"), 0);
    assert_eq!(probe.take_notes()[0].text, "  http probe: VM[1] -> gone");
    match probe.action() {
        ProbeAction::Send(next) => assert_eq!(next.method, Method::Post),
        other => panic!("unexpected {other:?}"),
    }

    // A transport error is not an answer.
    let mut probe = start();
    let mut api = Api::new();
    let request = run_to(&mut probe, &mut api, 23);
    let failed = Exchange::BodyFailed("reset".to_string());
    probe.answer(read_answer(&request.url, failed), 0);
    assert_eq!(probe.action(), ProbeAction::Sleep(1));
    probe.wake();
    probe.consult(false, 0);
    probe.answer(answer(&request, 200, "Not Found"), 0);
    assert_eq!(probe.action(), ProbeAction::Sleep(1));
}

#[test]
fn readiness_is_a_matter_of_the_status_code() {
    let mut probe = start();
    let mut api = Api::new();
    let request = run_to(&mut probe, &mut api, 1);
    probe.answer(answer(&request, 200, "<html>"), 0);
    assert_eq!(
        probe.take_notes()[0].text,
        "  http probe: guest management server reachable"
    );
    // A single request is judged by its body too.
    probe.answer(answer(&request, 200, "<html>"), 0);
    assert_eq!(probe.action(), ProbeAction::Finished);
    assert!(probe
        .into_verdict()
        .unwrap_err()
        .to_text()
        .starts_with("HTTP response from http://127.0.0.1:8080/api/vms was not valid JSON: [60, "));
}
