//! The pool as a single directory.

use axvisor_control::control::domain::scan::ScanAction;
use axvisor_control::report::Level;
use axvisor_control::vm_pool::{
    directory, log_issues, log_startup_state, parse_entry, scan, scan_dir, IssueKind, Pool, Scanner,
};

const ALPHA: &str = "[base]\nid = 1\nname = \"alpha\"\n";
const ALPHA_COPY: &str = "[base]\nid = 1\nname = \"alpha-copy\"\n";
const ON_DISK: &str =
    "[base]\nid = 3\nname = \"disk\"\n\n[kernel]\nimage_location = \"fs\"\nkernel_path = \"/k\"\n";

fn run(
    mut scanner: Scanner,
    listing: Result<Vec<Result<String, String>>, String>,
    files: &[(&str, &str)],
) -> Pool {
    let mut listing = Some(listing);
    loop {
        match scanner.action() {
            ScanAction::ReadDirectory(_) => scanner.read_directory(listing.take().unwrap()),
            ScanAction::ReadText(path) => {
                let mut content = Err("unreadable".to_string());
                for (name, text) in files {
                    if *name == path {
                        content = Ok(text.to_string());
                    }
                }
                scanner.read_text(content);
            }
            ScanAction::LookUp(_) => unreachable!("images are not looked up"),
            ScanAction::Finished => return scanner.finish(),
        }
    }
}

fn names(items: &[&str]) -> Result<Vec<Result<String, String>>, String> {
    Ok(items.iter().map(|item| Ok(item.to_string())).collect())
}

#[test]
fn the_single_directory_can_be_configured() {
    assert_eq!(directory(None), "/guest/vm_pool");
    assert_eq!(directory(Some("/elsewhere")), "/elsewhere");
    assert_eq!(
        scan(Some("/elsewhere")).action(),
        ScanAction::ReadDirectory("/elsewhere".to_string())
    );
}

#[test]
fn the_first_file_wins_an_id() {
    let pool = run(
        scan_dir("/pool"),
        names(&["/pool/a.toml", "/pool/notes.txt", "/pool/b.toml", "/pool/disk.toml"]),
        &[("/pool/a.toml", ALPHA), ("/pool/b.toml", ALPHA_COPY), ("/pool/disk.toml", ON_DISK)],
    );
    assert_eq!(pool.directory(), "/pool");
    assert_eq!(pool.entries().len(), 2);
    assert_eq!(pool.entries()[0].path(), "/pool/a.toml");
    assert_eq!(pool.entries()[0].id(), 1);
    assert_eq!(pool.entries()[0].name(), "alpha");
    assert_eq!(pool.entries()[0].toml(), ALPHA);
    assert_eq!(pool.entry(3).unwrap().name(), "disk");
    assert!(pool.entry(2).is_none());
    assert_eq!(pool.issues().len(), 1);
    assert_eq!(
        pool.issues()[0].kind(),
        &IssueKind::DuplicateId { id: 1, claimed_by: "/pool/a.toml".to_string() }
    );
    assert_eq!(
        pool.issues()[0].to_text(),
        "/pool/b.toml: asks for VM id 1, which `/pool/a.toml` already claims in this pool"
    );
}

#[test]
fn every_kind_of_trouble_is_reported() {
    let listing = Ok(vec![
        Ok("/pool/empty.toml".to_string()),
        Err("io".to_string()),
        Ok("/pool/binary.toml".to_string()),
        Ok("/pool/bad.toml".to_string()),
    ]);
    let pool = run(
        scan_dir("/pool"),
        listing,
        &[("/pool/empty.toml", "\n"), ("/pool/bad.toml", "[base")],
    );
    assert!(pool.entries().is_empty());
    let texts: Vec<String> = pool.issues().iter().map(|issue| issue.to_text()).collect();
    assert_eq!(texts[0], "/pool/empty.toml: is empty");
    assert_eq!(texts[1], "/pool: cannot be read: directory entry: io");
    assert_eq!(texts[2], "/pool/binary.toml: cannot be read: unreadable");
    assert!(texts[3].starts_with("/pool/bad.toml: is not a guest config: "));

    let missing = run(scan_dir("/none"), Err("not found".to_string()), &[]);
    assert_eq!(missing.issues().len(), 1);
    assert_eq!(
        missing.issues()[0].to_text(),
        "/none: directory is unavailable: not found"
    );
}

#[test]
fn the_single_directory_is_reported_line_by_line() {
    let pool = run(
        scan_dir("/pool"),
        names(&["/pool/a.toml", "/pool/b.toml"]),
        &[("/pool/a.toml", ALPHA), ("/pool/b.toml", "")],
    );
    let log = log_startup_state(&pool);
    let texts: Vec<&str> = log.iter().map(|line| line.text.as_str()).collect();
    assert_eq!(
        texts,
        vec![
            "VM pool `/pool`: 1 config(s)",
            "  VM pool entry: VM[1] `alpha` from /pool/a.toml",
            "VM pool: /pool/b.toml: is empty",
        ]
    );
    assert_eq!(log[2].level, Level::Warn);
    let missing = run(scan_dir("/none"), Err("not found".to_string()), &[]);
    assert_eq!(log_issues(&missing)[0].level, Level::Info);
}

#[test]
fn one_file_of_the_single_directory() {
    assert_eq!(parse_entry("/p/a.toml", Ok(ALPHA.to_string())).unwrap().name(), "alpha");
    assert_eq!(parse_entry("/p/a.toml", Ok(" ".to_string())), Err(IssueKind::Empty));
}
