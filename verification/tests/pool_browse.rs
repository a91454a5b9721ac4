//! Browsing directories.

use axvisor_control::control::domain::browse::{browse, parent_directory, Browser, Folder};
use axvisor_control::control::domain::pool::IssueKind;
use axvisor_control::control::domain::scan::ScanAction;

const ALPHA: &str = "[base]\nid = 1\nname = \"alpha\"\n";
const ON_DISK: &str = "[base]\nid = 1\nname = \"disk\"\n\n[kernel]\nimage_location = \"fs\"\n\
                       kernel_path = \"/images/kernel\"\n";

fn run(
    mut browser: Browser,
    listing: Result<Vec<Result<(String, bool), String>>, String>,
    files: &[(&str, &str)],
) -> Folder {
    let mut listing = Some(listing);
    loop {
        match browser.action() {
            ScanAction::ReadDirectory(_) => browser.read_directory(listing.take().unwrap()),
            ScanAction::ReadText(path) => {
                let mut content = Err("unreadable".to_string());
                for (name, text) in files {
                    if *name == path {
                        content = Ok(text.to_string());
                    }
                }
                browser.read_text(content);
            }
            ScanAction::LookUp(path) => {
                browser.look_up(files.iter().any(|(name, _)| *name == path))
            }
            ScanAction::Finished => return browser.finish(),
        }
    }
}

fn item(path: &str, is_directory: bool) -> Result<(String, bool), String> {
    Ok((path.to_string(), is_directory))
}

#[test]
fn a_folder_is_sorted_and_keeps_both_configs_of_an_id() {
    let listing = Ok(vec![
        item("/guest/z.toml", false),
        item("/guest/vm_pool", true),
        item("/guest/a.toml", false),
        item("/guest/notes", false),
        item("/guest/Images", true),
        item("/guest/dir.toml", true),
        Err("bad block".to_string()),
        item("/guest/b.toml", false),
    ]);
    let folder = run(
        browse("/guest"),
        listing,
        &[
            ("/guest/z.toml", ALPHA),
            ("/guest/a.toml", ON_DISK),
            ("/guest/b.toml", " "),
            ("/images/kernel", ""),
        ],
    );
    assert_eq!(folder.path(), "/guest");
    assert_eq!(folder.parent(), Some("/"));
    let directories: Vec<(&str, &str)> =
        folder.directories().iter().map(|dir| (dir.name(), dir.path())).collect();
    assert_eq!(
        directories,
        vec![
            ("Images", "/guest/Images"),
            ("dir.toml", "/guest/dir.toml"),
            ("vm_pool", "/guest/vm_pool"),
        ]
    );
    let entries: Vec<&str> = folder.entries().iter().map(|entry| entry.path()).collect();
    assert_eq!(entries, vec!["/guest/a.toml", "/guest/z.toml"]);
    assert_eq!(folder.entries()[0].source(), "/guest");
    let issues: Vec<String> = folder.issues().iter().map(|issue| issue.to_text()).collect();
    assert_eq!(
        issues,
        vec![
            "/guest: cannot be read: directory entry: bad block".to_string(),
            "/guest/b.toml: is empty".to_string(),
        ]
    );
}

#[test]
fn equal_paths_keep_their_order() {
    let listing =
        Ok(vec![Err("first".to_string()), Err("second".to_string()), Err("third".to_string())]);
    let folder = run(browse("/d"), listing, &[]);
    let issues: Vec<String> = folder.issues().iter().map(|issue| issue.to_text()).collect();
    assert_eq!(
        issues,
        vec![
            "/d: cannot be read: directory entry: first".to_string(),
            "/d: cannot be read: directory entry: second".to_string(),
            "/d: cannot be read: directory entry: third".to_string(),
        ]
    );
}

#[test]
fn a_missing_image_is_an_issue_of_the_folder() {
    let folder = run(
        browse("/guest"),
        Ok(vec![item("/guest/disk.toml", false)]),
        &[("/guest/disk.toml", ON_DISK)],
    );
    assert!(folder.entries().is_empty());
    assert_eq!(
        folder.issues()[0].kind(),
        &IssueKind::MissingImage("/images/kernel".to_string())
    );
}

#[test]
fn an_unreadable_folder_comes_back_empty() {
    let folder = run(browse("/nowhere/"), Err("not found".to_string()), &[]);
    assert_eq!(folder.path(), "/nowhere/");
    assert_eq!(folder.parent(), Some("/"));
    assert!(folder.directories().is_empty());
    assert!(folder.entries().is_empty());
    assert_eq!(folder.issues().len(), 1);
    assert_eq!(
        folder.issues()[0].to_text(),
        "/nowhere/: directory is unavailable: not found"
    );
}

#[test]
fn the_directory_above() {
    assert_eq!(parent_directory("/guest/vm_pool"), Some("/guest".to_string()));
    assert_eq!(parent_directory("/guest/vm_pool//"), Some("/guest".to_string()));
    assert_eq!(parent_directory("/guest"), Some("/".to_string()));
    assert_eq!(parent_directory("/guest/"), Some("/".to_string()));
    assert_eq!(parent_directory("/"), None);
    assert_eq!(parent_directory("//"), None);
    assert_eq!(parent_directory(""), None);
    assert_eq!(parent_directory("guest"), None);
    assert_eq!(parent_directory("guest/pool"), Some("guest".to_string()));
    assert_eq!(parent_directory("//guest"), Some("/".to_string()));
}
