//! The VM manager and the test suites.

use axvisor_control::bringup::{Bringup, BringupAction};
use axvisor_control::io_mpx::{run, Suite, SuiteRun};
use axvisor_control::manager::{AxvmManager, RegistrationAction};
use axvisor_control::report::{Failure, Level};
use axvisor_control::vm_pool::{scan_dir, Pool};

type Manager = AxvmManager<u8>;

fn failure(text: &str) -> Failure {
    Failure::new(text.to_string())
}

fn pool(id: usize) -> Pool {
    let mut scanner = scan_dir("/pool");
    scanner.read_directory(Ok(vec![Ok("/pool/a.toml".to_string()), Ok("/pool/b.toml".to_string())]));
    scanner.read_text(Ok(format!("[base]\nid = {id}\nname = \"a\"\n")));
    scanner.read_text(Ok(String::new()));
    scanner.finish()
}

#[test]
fn a_manager_holds_its_runtime() {
    let manager = Manager::new(Ok(7)).map_err(|failure| failure.to_text()).unwrap();
    assert_eq!(*manager.runtime(), 7);
    assert_eq!(manager.init_default_vms(true).action(), BringupAction::InitGuestVms);
    let error = match Manager::new(Err(failure("no VMX"))) {
        Ok(_) => panic!("no runtime"),
        Err(error) => error,
    };
    assert_eq!(error.to_text(), "initialize AxVM runtime: no VMX");
}

/// A bring-up whose VMs are initialized.
fn initialized(capable: bool) -> Bringup {
    let manager = Manager::new(Ok(7)).map_err(|failure| failure.to_text()).unwrap();
    let mut bringup = manager.init_default_vms(capable);
    assert_eq!(bringup.action(), BringupAction::InitGuestVms);
    bringup.loaded();
    assert_eq!(bringup.action(), BringupAction::InitVms);
    bringup.initialized();
    bringup
}

#[test]
fn the_host_filesystem_is_released_only_where_it_must_be() {
    assert_eq!(initialized(false).action(), BringupAction::Finished);

    let mut bringup = initialized(true);
    assert_eq!(bringup.action(), BringupAction::AskRelease);
    bringup.release_host_filesystem_for_guest_passthrough(false);
    assert_eq!(bringup.action(), BringupAction::Finished);
}

#[test]
fn the_block_device_is_prepared_after_a_clean_shutdown() {
    let mut bringup = initialized(true);
    bringup.release_host_filesystem_for_guest_passthrough(true);
    assert_eq!(bringup.action(), BringupAction::ShutdownFilesystems);
    bringup.shut_down(Ok(()));
    assert_eq!(bringup.action(), BringupAction::PrepareBlockPassthroughDevice);
    bringup.prepared();
    match bringup.action() {
        BringupAction::Log(line) => {
            assert_eq!(line.level, Level::Info);
            assert_eq!(
                line.text,
                "Host filesystem cleanly unmounted before guest passthrough devices start"
            );
        }
        other => panic!("unexpected {other:?}"),
    }
    bringup.reported();
    assert_eq!(bringup.action(), BringupAction::Finished);
}

#[test]
fn a_failed_shutdown_ends_the_bringup() {
    let mut bringup = initialized(true);
    bringup.release_host_filesystem_for_guest_passthrough(true);
    bringup.shut_down(Err("ResourceBusy".to_string()));
    assert_eq!(
        bringup.action(),
        BringupAction::Panic(
            "Failed to release host filesystem before guest passthrough devices take ownership: \
             ResourceBusy"
                .to_string()
        )
    );
}

#[test]
fn errors_say_what_was_being_done() {
    assert_eq!(Manager::create_vm_from_toml(Ok(3)), Ok(3));
    assert_eq!(
        Manager::create_vm_from_toml(Err(failure("bad"))).unwrap_err().to_text(),
        "create VM from TOML configuration: bad"
    );
    assert_eq!(Manager::start_vm(12, Ok(())), Ok(()));
    assert_eq!(Manager::start_vm(12, Err(failure("x"))).unwrap_err().to_text(), "start VM[12]: x");
    assert_eq!(Manager::stop_vm(0, Err(failure("x"))).unwrap_err().to_text(), "stop VM[0]: x");
    assert_eq!(Manager::pause_vm(1, Err(failure("x"))).unwrap_err().to_text(), "pause VM[1]: x");
    assert_eq!(Manager::resume_vm(1, Err(failure("x"))).unwrap_err().to_text(), "resume VM[1]: x");
    assert_eq!(Manager::reset_vm(1, Err(failure("x"))).unwrap_err().to_text(), "reset VM[1]: x");
    assert_eq!(Manager::notify_vm(1, Err(failure("x"))).unwrap_err().to_text(), "notify VM[1]: x");
}

#[test]
fn a_registered_vm_is_not_created() {
    let mut registration = Manager::ensure_registered(5);
    assert_eq!(registration.action(), RegistrationAction::LookUp(5));
    registration.look_up(true);
    assert_eq!(registration.action(), RegistrationAction::Finished);
    assert!(registration.log().is_empty());
    assert_eq!(registration.into_outcome(), Ok(true));
}

#[test]
fn a_pooled_vm_is_created_from_its_config() {
    let mut registration = Manager::ensure_registered(5);
    registration.look_up(false);
    assert_eq!(registration.action(), RegistrationAction::Scan);
    registration.scan(&pool(5));
    assert_eq!(
        registration.action(),
        RegistrationAction::Create("[base]\nid = 5\nname = \"a\"\n".to_string())
    );
    registration.create(Ok(5));
    assert_eq!(registration.into_outcome(), Ok(true));

    let mut registration = Manager::ensure_registered(5);
    registration.look_up(false);
    registration.scan(&pool(5));
    registration.create(Err(failure("out of memory")));
    assert_eq!(
        registration.into_outcome().unwrap_err().to_text(),
        "create VM[5] from VM pool entry `/pool/a.toml`: create VM from TOML configuration: out \
         of memory"
    );
}

#[test]
fn an_unknown_vm_reports_the_issues_of_the_pool() {
    let mut registration = Manager::ensure_registered(5);
    registration.look_up(false);
    registration.scan(&pool(6));
    assert_eq!(registration.action(), RegistrationAction::Finished);
    assert_eq!(registration.log().len(), 1);
    assert_eq!(registration.log()[0].text, "VM pool: /pool/b.toml: is empty");
    assert_eq!(registration.into_outcome(), Ok(false));
}

#[test]
fn guest_images_are_read_whole() {
    assert_eq!(Manager::open_file("/k", Ok(())), Ok(()));
    assert_eq!(
        Manager::open_file("/k", Err("gone".to_string())).unwrap_err().to_text(),
        "open guest image file `/k`: gone"
    );
    assert_eq!(Manager::file_size("/k", Ok(()), Ok(9)), Ok(9));
    assert_eq!(
        Manager::file_size("/k", Ok(()), Err("io".to_string())).unwrap_err().to_text(),
        "read metadata for guest image file `/k`: io"
    );
    assert_eq!(
        Manager::file_size("/k", Err("gone".to_string()), Ok(9)).unwrap_err().to_text(),
        "open guest image file `/k`: gone"
    );
    assert_eq!(Manager::read_file_exact("/k", 2, Ok(()), Ok(vec![1, 2])), Ok(vec![1, 2]));
    assert_eq!(
        Manager::read_file_exact("/k", 20, Ok(()), Err("short".to_string()))
            .unwrap_err()
            .to_text(),
        "read 20 bytes from guest image file `/k`: short"
    );
    let size = Manager::file_size("/k", Ok(()), Ok(2));
    assert_eq!(Manager::read_file("/k", size, Ok(()), Ok(vec![1, 2])), Ok(vec![1, 2]));
    let size = Manager::file_size("/k", Err("gone".to_string()), Ok(2));
    assert_eq!(
        Manager::read_file("/k", size, Ok(()), Ok(vec![1, 2])).unwrap_err().to_text(),
        "open guest image file `/k`: gone"
    );
}

#[test]
fn the_suites_run_in_order() {
    let suites: SuiteRun<&str> = run();
    assert_eq!(suites.next(), Some(Suite::Pipe));
    let suites = suites.ran(Ok(()));
    assert_eq!(suites.next(), Some(Suite::Eventfd));
    let suites = suites.ran(Ok(()));
    assert_eq!(suites.next(), Some(Suite::Epoll));
    let suites = suites.ran(Ok(()));
    assert_eq!(suites.next(), None);
    assert_eq!(suites.into_verdict(), Ok(()));
}

#[test]
fn the_first_failing_suite_is_the_verdict() {
    let suites: SuiteRun<&str> = run();
    let suites = suites.ran(Ok(())).ran(Err("eventfd"));
    assert_eq!(suites.next(), None);
    assert_eq!(suites.into_verdict(), Err("eventfd"));
}
