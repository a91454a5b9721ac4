//! Storing configs, and the pool directories themselves.

use axvisor_control::control::domain::pool::{save, save_in, scan_dir, scan_dirs, SaveError};
use axvisor_control::control::domain::save::{
    ensure_directories, ensure_directory, ensure_each, EnsureAction, EnsureAllAction, SaveAction,
};
use axvisor_control::control::domain::scan::{parse_entry, ScanAction};
use axvisor_control::report::Level;

const ALPHA: &str = "[base]\nid = 1\nname = \"alpha\"\n";

#[test]
fn a_config_is_written_into_the_directory() {
    let mut saver = save_in("/pool", " alpha.toml\n", ALPHA).unwrap();
    assert_eq!(saver.action(), SaveAction::ReadDirectory("/pool".to_string()));
    saver.probe(true);
    assert_eq!(
        saver.action(),
        SaveAction::Write { path: "/pool/alpha.toml".to_string(), toml: ALPHA.to_string() }
    );
    saver.write(Ok(()));
    assert_eq!(saver.action(), SaveAction::Finished(Ok("/pool/alpha.toml".to_string())));
}

#[test]
fn a_missing_directory_is_created_one_level_deep() {
    let mut saver = save(None, "alpha.toml", ALPHA).unwrap();
    saver.probe(false);
    assert_eq!(saver.action(), SaveAction::CreateDirectory("/guest/vm_pool".to_string()));
    saver.create(Ok(()));
    assert_eq!(
        saver.action(),
        SaveAction::Write {
            path: "/guest/vm_pool/alpha.toml".to_string(),
            toml: ALPHA.to_string(),
        }
    );
    saver.write(Err("disk full".to_string()));
    assert_eq!(
        saver.action(),
        SaveAction::Finished(Err(SaveError::Unwritable("disk full".to_string())))
    );

    let mut saver = save(Some("/a/b"), "alpha.toml", ALPHA).unwrap();
    saver.probe(false);
    saver.create(Err("read-only".to_string()));
    assert_eq!(
        saver.action(),
        SaveAction::Finished(Err(SaveError::Unwritable("read-only".to_string())))
    );
}

#[test]
fn the_name_cannot_lead_out_of_the_directory() {
    for name in ["", "  ", "alpha", "alpha.toml.bak", "../alpha.toml", "/alpha.toml", ".toml", ".a.toml"] {
        assert_eq!(
            save_in("/pool", name, ALPHA),
            Err(SaveError::InvalidName(name.trim().to_string()))
        );
    }
    assert!(save_in("/pool", "a..toml", ALPHA).is_ok());
    // The name is checked before the text.
    assert_eq!(
        save_in("/pool", "a/b.toml", "[["),
        Err(SaveError::InvalidName("a/b.toml".to_string()))
    );
}

#[test]
fn the_text_must_be_a_config() {
    assert!(matches!(save_in("/pool", "a.toml", "not = [["), Err(SaveError::InvalidToml(_))));
    assert!(matches!(
        save_in("/pool", "a.toml", "unknown_key = 1\n"),
        Err(SaveError::InvalidToml(_))
    ));
}

#[test]
fn save_errors_say_what_is_wrong() {
    assert_eq!(
        SaveError::InvalidName("a/b".to_string()).to_text(),
        "`a/b` is not a file name (a plain name ending in .toml is required)"
    );
    assert_eq!(
        SaveError::InvalidToml("line 1".to_string()).to_text(),
        "not a guest config: line 1"
    );
    assert_eq!(
        SaveError::Unwritable("full".to_string()).to_text(),
        "cannot be written: full"
    );
}

#[test]
fn a_stored_config_is_found_by_the_next_scan() {
    let mut saver = save_in("/pool", "alpha.toml", ALPHA).unwrap();
    saver.probe(true);
    let (path, toml) = match saver.action() {
        SaveAction::Write { path, toml } => (path, toml),
        other => panic!("unexpected {other:?}"),
    };
    let mut scanner = scan_dir("/pool");
    scanner.read_directory(Ok(vec![Ok(path.clone())]));
    assert_eq!(scanner.action(), ScanAction::ReadText(path.clone()));
    scanner.read_text(Ok(toml));
    assert_eq!(scanner.finish().entry(1).unwrap().path(), path);
}

#[test]
fn a_blank_text_is_stored_but_not_startable() {
    assert!(save_in("/pool", "blank.toml", "").is_ok());
    assert!(parse_entry("/pool/blank.toml", "/pool", Ok(String::new())).is_err());
}

#[test]
fn an_existing_directory_is_left_alone() {
    let mut ensuring = ensure_directory("/pool");
    assert_eq!(ensuring.action(), EnsureAction::ReadDirectory("/pool".to_string()));
    ensuring.probe(true);
    assert_eq!(ensuring.action(), EnsureAction::Finished(Ok(())));

    let mut ensuring = ensure_directory("/pool");
    ensuring.probe(false);
    assert_eq!(ensuring.action(), EnsureAction::CreateDirectory("/pool".to_string()));
    ensuring.create(Err("denied".to_string()));
    assert_eq!(ensuring.action(), EnsureAction::Finished(Err("denied".to_string())));
}

#[test]
fn every_pool_directory_has_its_turn() {
    let mut all =
        ensure_each(vec!["/a".to_string(), "/b".to_string(), "/c".to_string()]);
    assert_eq!(all.action(), EnsureAllAction::ReadDirectory("/a".to_string()));
    all.probe(false);
    assert_eq!(all.action(), EnsureAllAction::CreateDirectory("/a".to_string()));
    all.create(Err("read-only".to_string()));
    assert_eq!(all.action(), EnsureAllAction::ReadDirectory("/b".to_string()));
    all.probe(true);
    assert_eq!(all.action(), EnsureAllAction::ReadDirectory("/c".to_string()));
    all.probe(false);
    all.create(Ok(()));
    assert_eq!(all.action(), EnsureAllAction::Finished);
    let log = all.into_log();
    assert_eq!(log.len(), 1);
    assert_eq!(log[0].level, Level::Info);
    assert_eq!(log[0].text, "VM pool: cannot create `/a`: read-only");
    assert_eq!(
        ensure_directories(None, Some(":/x")).action(),
        EnsureAllAction::ReadDirectory("/guest/vm_pool".to_string())
    );
}

#[test]
fn a_config_stored_in_the_first_directory_has_its_id() {
    let mut scanner = scan_dirs(&["/pool".to_string(), "/extra".to_string()]);
    scanner.read_directory(Ok(vec![Ok("/pool/alpha.toml".to_string())]));
    scanner.read_text(Ok(ALPHA.to_string()));
    scanner.read_directory(Ok(vec![Ok("/extra/other.toml".to_string())]));
    scanner.read_text(Ok("[base]\nid = 1\nname = \"other\"\n".to_string()));
    let pool = scanner.finish();
    let entry = pool.entry(1).unwrap();
    assert_eq!(entry.path(), "/pool/alpha.toml");
    assert_eq!(entry.source(), "/pool");
    assert_eq!(entry.toml(), ALPHA);
}
