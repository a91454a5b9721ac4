//! Waiting for the port, quitting QEMU, and the guard around both.

use axvisor_control::probe::host_probe::{
    address, announce, request_qmp_quit, wait_for_port_ready, Guard, GuardAction, PortAction,
    QmpAction, QMP_CONNECT_RETRIES,
};
use axvisor_control::report::Failure;

const SECOND: u64 = 1_000_000_000;

#[test]
fn the_address_is_on_the_local_host() {
    assert_eq!(address(8080), "127.0.0.1:8080");
    assert_eq!(address(0), "127.0.0.1:0");
    assert_eq!(
        announce(true, "127.0.0.1:1234", 8080, "case"),
        Ok("  host http probe: 127.0.0.1:1234 -> guest:8080".to_string())
    );
    assert_eq!(
        announce(false, "127.0.0.1:1234", 8080, "case"),
        Err("host http probe for `case` did not become ready".to_string())
    );
}

#[test]
fn the_port_is_retried_until_it_accepts() {
    let mut wait = wait_for_port_ready(10, SECOND);
    assert_eq!(wait.action(), PortAction::Consult);
    wait.consult(false, SECOND);
    assert_eq!(wait.action(), PortAction::Connect);
    wait.connect(false);
    assert_eq!(wait.action(), PortAction::Sleep(100));
    wait.wake();
    wait.consult(false, 11 * SECOND - 1);
    wait.connect(true);
    assert_eq!(wait.action(), PortAction::Finished);
    assert!(wait.into_verdict().is_ok());
}

#[test]
fn the_port_wait_times_out() {
    let mut wait = wait_for_port_ready(10, SECOND);
    wait.consult(false, 11 * SECOND);
    assert_eq!(wait.action(), PortAction::Finished);
    assert_eq!(wait.into_verdict().unwrap_err().to_text(), "timed out after 10s");

    let mut wait = wait_for_port_ready(0, SECOND);
    wait.consult(false, SECOND);
    assert_eq!(wait.into_verdict().unwrap_err().to_text(), "timed out after 0ns");
}

#[test]
fn a_stop_comes_before_the_deadline() {
    let mut wait = wait_for_port_ready(10, 0);
    wait.consult(true, 20 * SECOND);
    assert_eq!(wait.into_verdict().unwrap_err().to_text(), "host http probe stopped");
}

#[test]
fn qemu_is_told_to_quit() {
    let mut quit = request_qmp_quit("/tmp/qmp", true);
    quit.connect(false);
    assert_eq!(quit.action(), QmpAction::Sleep(100));
    quit.wake();
    assert_eq!(quit.action(), QmpAction::Connect);
    quit.connect(true);
    assert_eq!(quit.action(), QmpAction::SetTimeouts(200));
    quit.proceed();
    assert_eq!(quit.action(), QmpAction::Read);
    quit.proceed();
    assert_eq!(quit.action(), QmpAction::WriteCapabilities);
    assert_eq!(quit.command_text(), "{\"execute\":\"qmp_capabilities\"}\r\n");
    quit.write(Ok(()));
    assert_eq!(quit.action(), QmpAction::Read);
    quit.proceed();
    assert_eq!(quit.action(), QmpAction::WriteQuit);
    assert_eq!(quit.command_text(), "{\"execute\":\"quit\"}\r\n");
    quit.write(Ok(()));
    assert_eq!(quit.action(), QmpAction::Flush);
    quit.write(Ok(()));
    assert_eq!(quit.action(), QmpAction::Finished);
    assert!(quit.into_verdict().is_ok());
}

#[test]
fn the_socket_is_tried_ten_times() {
    let mut quit = request_qmp_quit("/tmp/qmp", true);
    let mut tries = 0;
    loop {
        match quit.action() {
            QmpAction::Connect => {
                tries += 1;
                quit.connect(false);
            }
            QmpAction::Sleep(_) => quit.wake(),
            _ => break,
        }
    }
    assert_eq!(tries, QMP_CONNECT_RETRIES);
    assert_eq!(tries, 10);
    assert_eq!(
        quit.into_verdict().unwrap_err().to_text(),
        "failed to connect QMP socket /tmp/qmp"
    );
}

#[test]
fn a_write_that_fails_ends_the_conversation() {
    let mut quit = request_qmp_quit("/tmp/qmp", true);
    quit.connect(true);
    quit.proceed();
    quit.proceed();
    quit.write(Err("broken pipe".to_string()));
    assert_eq!(quit.action(), QmpAction::Finished);
    assert_eq!(quit.into_verdict().unwrap_err().to_text(), "broken pipe");
    let unsupported = request_qmp_quit("/tmp/qmp", false);
    assert_eq!(
        unsupported.into_verdict().unwrap_err().to_text(),
        "QMP unix sockets are not supported on this host"
    );
}

#[test]
fn the_verdict_is_stored_before_qemu_is_quit() {
    let mut guard = Guard::start(60, "case", Some("/tmp/qmp".to_string()));
    assert_eq!(guard.action(), GuardAction::WaitForPort);
    guard.waited(Ok(()));
    assert_eq!(guard.action(), GuardAction::RunProbe);
    guard.probed(Err(Failure::new("boom".to_string())));
    assert_eq!(guard.action(), GuardAction::Store);
    assert_eq!(guard.store().unwrap_err().to_text(), "boom");
    assert_eq!(guard.action(), GuardAction::Quit("/tmp/qmp".to_string()));
    let failure = Failure::new("cause".to_string()).context("context".to_string());
    assert_eq!(
        guard.quit(Err(failure)),
        Some("  host http probe: case: failed to quit QEMU via QMP: context: cause".to_string())
    );
    assert_eq!(guard.action(), GuardAction::Finished);
}

#[test]
fn an_unreachable_guest_is_a_failure() {
    let mut guard = Guard::start(60, "case", None);
    guard.waited(Err(Failure::new("timed out after 60s".to_string())));
    assert_eq!(guard.action(), GuardAction::Store);
    assert_eq!(
        guard.store().unwrap_err().to_text(),
        "guest HTTP server never became reachable within 60s: timed out after 60s"
    );
    assert_eq!(guard.action(), GuardAction::Finished);
}

#[test]
fn a_clean_quit_says_nothing() {
    let mut guard = Guard::start(1, "case", Some("s".to_string()));
    guard.waited(Ok(()));
    guard.probed(Ok(()));
    assert!(guard.store().is_ok());
    assert_eq!(guard.quit(Ok(())), None);
}
