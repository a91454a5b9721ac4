//! Scanning the pool directories of a small filesystem.

use axvisor_control::control::domain::pool::{
    directory, log_issues, scan, scan_dir, scan_dirs, sources, startup_report, IssueKind, Pool,
    Scanner, DEFAULT_POOL_DIR, DEFAULT_VM_CONFIG_DIR,
};
use axvisor_control::control::domain::scan::{names_config, parse_entry, ScanAction};
use axvisor_control::control::domain::startup::{log_startup_state, StartupAction};
use axvisor_control::report::Level;

const ALPHA: &str = "[base]\nid = 1\nname = \"alpha\"\n";
const ALPHA_COPY: &str = "[base]\nid = 1\nname = \"alpha-copy\"\n";
const BETA: &str = "[base]\nid = 2\nname = \"beta\"\n";
const ON_DISK: &str = "[base]\nid = 3\nname = \"disk\"\n\n[kernel]\nimage_location = \"fs\"\n\
                       kernel_path = \"/images/kernel\"\nramdisk_path = \"/images/ramdisk\"\n\
                       dtb_path = \"/images/dtb\"\n";
const IN_MEMORY: &str = "[base]\nid = 4\nname = \"memory\"\n\n[kernel]\n\
                         image_location = \"memory\"\nkernel_path = \"/images/absent\"\n";

struct Disk {
    listings: Vec<(&'static str, Vec<Result<&'static str, &'static str>>)>,
    files: Vec<(&'static str, &'static str)>,
}

impl Disk {
    fn list(&self, path: &str) -> Result<Vec<Result<String, String>>, String> {
        for (name, items) in &self.listings {
            if *name == path {
                let mut copy = Vec::new();
                for item in items {
                    copy.push(match item {
                        Ok(path) => Ok(path.to_string()),
                        Err(error) => Err(error.to_string()),
                    });
                }
                return Ok(copy);
            }
        }
        Err("no such directory".to_string())
    }

    fn read(&self, path: &str) -> Result<String, String> {
        for (name, text) in &self.files {
            if *name == path {
                return Ok(text.to_string());
            }
        }
        Err("stream did not contain valid UTF-8".to_string())
    }

    fn run(&self, mut scanner: Scanner) -> (Pool, Vec<ScanAction>) {
        let mut asked = Vec::new();
        loop {
            let action = scanner.action();
            asked.push(action.clone());
            match action {
                ScanAction::ReadDirectory(path) => scanner.read_directory(self.list(&path)),
                ScanAction::ReadText(path) => scanner.read_text(self.read(&path)),
                ScanAction::LookUp(path) => scanner.look_up(self.read(&path).is_ok()),
                ScanAction::Finished => return (scanner.finish(), asked),
            }
        }
    }
}

#[test]
fn the_drop_in_directory_comes_first_and_none_twice() {
    assert_eq!(directory(None), DEFAULT_POOL_DIR);
    assert_eq!(directory(Some("/pool")), "/pool");
    assert_eq!(sources(None, None), vec!["/guest/vm_pool".to_string()]);
    assert!(!sources(None, None).contains(&DEFAULT_VM_CONFIG_DIR.to_string()));
    assert_eq!(
        sources(Some(" /drop "), Some("/a: /b :/a::\t:/drop")),
        vec!["/drop".to_string(), "/a".to_string(), "/b".to_string()]
    );
    assert_eq!(sources(Some("  "), Some("")), Vec::<String>::new());
}

#[test]
fn only_toml_files_are_configs() {
    assert!(names_config("/pool/a.toml"));
    assert!(names_config(".toml"));
    assert!(!names_config("/pool/a.toml.bak"));
    assert!(!names_config("toml"));
    assert!(!names_config(""));
}

#[test]
fn a_scan_keeps_the_order_of_the_filesystem() {
    let disk = Disk {
        listings: vec![("/pool", vec![Ok("/pool/b.toml"), Ok("/pool/readme"), Ok("/pool/a.toml")])],
        files: vec![("/pool/a.toml", ALPHA), ("/pool/b.toml", BETA)],
    };
    let (pool, asked) = disk.run(scan_dir("/pool"));
    assert_eq!(
        asked,
        vec![
            ScanAction::ReadDirectory("/pool".to_string()),
            ScanAction::ReadText("/pool/b.toml".to_string()),
            ScanAction::ReadText("/pool/a.toml".to_string()),
            ScanAction::Finished,
        ]
    );
    assert_eq!(pool.directory(), "/pool");
    assert_eq!(pool.sources(), &["/pool".to_string()]);
    assert!(pool.issues().is_empty());
    assert_eq!(pool.entries().len(), 2);
    let beta = &pool.entries()[0];
    assert_eq!(beta.path(), "/pool/b.toml");
    assert_eq!(beta.source(), "/pool");
    assert_eq!(beta.id(), 2);
    assert_eq!(beta.name(), "beta");
    assert_eq!(beta.toml(), BETA);
    assert_eq!(pool.entry(1).map(|entry| entry.name()), Some("alpha"));
    assert!(pool.entry(9).is_none());
}

#[test]
fn the_first_directory_wins_an_id() {
    let disk = Disk {
        listings: vec![
            ("/first", vec![Ok("/first/a.toml")]),
            ("/second", vec![Ok("/second/a.toml"), Ok("/second/b.toml")]),
        ],
        files: vec![
            ("/first/a.toml", ALPHA),
            ("/second/a.toml", ALPHA_COPY),
            ("/second/b.toml", BETA),
        ],
    };
    let (pool, _) = disk.run(scan_dirs(&["/first".to_string(), "/second".to_string()]));
    assert_eq!(pool.directory(), "/first");
    assert_eq!(pool.entries().len(), 2);
    assert_eq!(pool.entry(1).unwrap().name(), "alpha");
    assert_eq!(pool.entry(2).unwrap().source(), "/second");
    assert_eq!(pool.issues().len(), 1);
    let issue = &pool.issues()[0];
    assert_eq!(issue.path(), "/second/a.toml");
    assert_eq!(
        issue.kind(),
        &IssueKind::DuplicateId { id: 1, claimed_by: "/first/a.toml".to_string() }
    );
    assert_eq!(
        issue.to_text(),
        "/second/a.toml: asks for VM id 1, which `/first/a.toml` already claims in this pool"
    );
}

#[test]
fn unusable_files_become_issues() {
    let disk = Disk {
        listings: vec![(
            "/pool",
            vec![
                Ok("/pool/blank.toml"),
                Err("bad block"),
                Ok("/pool/binary.toml"),
                Ok("/pool/broken.toml"),
            ],
        )],
        files: vec![("/pool/blank.toml", " \n\t\u{3000}"), ("/pool/broken.toml", "not = [[ toml")],
    };
    let (pool, _) = disk.run(scan_dir("/pool"));
    assert!(pool.entries().is_empty());
    assert_eq!(pool.issues().len(), 4);
    assert_eq!(pool.issues()[0].kind(), &IssueKind::Empty);
    assert_eq!(pool.issues()[0].to_text(), "/pool/blank.toml: is empty");
    assert_eq!(pool.issues()[1].path(), "/pool");
    assert_eq!(
        pool.issues()[1].to_text(),
        "/pool: cannot be read: directory entry: bad block"
    );
    assert_eq!(
        pool.issues()[2].kind(),
        &IssueKind::Unreadable("stream did not contain valid UTF-8".to_string())
    );
    assert_eq!(pool.issues()[3].path(), "/pool/broken.toml");
    assert!(matches!(pool.issues()[3].kind(), IssueKind::InvalidToml(_)));
    assert!(pool.issues()[3].to_text().starts_with("/pool/broken.toml: is not a guest config: "));
}

#[test]
fn a_missing_directory_is_an_empty_pool() {
    let disk = Disk { listings: Vec::new(), files: Vec::new() };
    let (pool, _) = disk.run(scan_dir("/nowhere"));
    assert!(pool.entries().is_empty());
    assert_eq!(pool.issues().len(), 1);
    assert_eq!(
        pool.issues()[0].to_text(),
        "/nowhere: directory is unavailable: no such directory"
    );
    let (pool, asked) = disk.run(scan_dirs(&[]));
    assert_eq!(asked, vec![ScanAction::Finished]);
    assert_eq!(pool.directory(), "");
    let (pool, _) = disk.run(scan(None, Some("/extra")));
    assert_eq!(pool.directory(), DEFAULT_POOL_DIR);
    assert_eq!(pool.issues().len(), 2);
}

#[test]
fn images_on_the_filesystem_must_exist() {
    let disk = Disk {
        listings: vec![("/pool", vec![Ok("/pool/disk.toml"), Ok("/pool/memory.toml")])],
        files: vec![
            ("/pool/disk.toml", ON_DISK),
            ("/pool/memory.toml", IN_MEMORY),
            ("/images/kernel", ""),
            ("/images/dtb", ""),
        ],
    };
    let (pool, asked) = disk.run(scan_dir("/pool"));
    assert_eq!(
        asked,
        vec![
            ScanAction::ReadDirectory("/pool".to_string()),
            ScanAction::ReadText("/pool/disk.toml".to_string()),
            ScanAction::LookUp("/images/kernel".to_string()),
            ScanAction::LookUp("/images/ramdisk".to_string()),
            ScanAction::ReadText("/pool/memory.toml".to_string()),
            ScanAction::Finished,
        ]
    );
    assert_eq!(pool.entries().len(), 1);
    assert_eq!(pool.entries()[0].name(), "memory");
    assert_eq!(
        pool.issues()[0].to_text(),
        "/pool/disk.toml: names an image that does not exist: /images/ramdisk"
    );

    let complete = Disk {
        listings: vec![("/pool", vec![Ok("/pool/disk.toml")])],
        files: vec![
            ("/pool/disk.toml", ON_DISK),
            ("/images/kernel", ""),
            ("/images/ramdisk", ""),
            ("/images/dtb", ""),
        ],
    };
    let (pool, asked) = complete.run(scan_dir("/pool"));
    assert_eq!(asked.len(), 6);
    assert_eq!(pool.entries()[0].name(), "disk");
    assert!(pool.issues().is_empty());
}

#[test]
fn the_token_of_an_issue_names_its_kind() {
    assert_eq!(
        IssueKind::DirectoryUnavailable("x".to_string()).as_str(),
        "directory-unavailable"
    );
    assert_eq!(IssueKind::Unreadable("x".to_string()).as_str(), "unreadable");
    assert_eq!(IssueKind::Empty.as_str(), "empty");
    assert_eq!(IssueKind::InvalidToml("x".to_string()).as_str(), "invalid-toml");
    assert_eq!(
        IssueKind::DuplicateId { id: 10, claimed_by: "y".to_string() }.as_str(),
        "duplicate-id"
    );
    assert_eq!(IssueKind::MissingImage("x".to_string()).as_str(), "missing-image");
    assert_eq!(
        IssueKind::DuplicateId { id: 1234567890, claimed_by: "y".to_string() }.to_text(),
        "asks for VM id 1234567890, which `y` already claims in this pool"
    );
}

#[test]
fn the_pool_is_reported_line_by_line() {
    let disk = Disk {
        listings: vec![("/a", vec![Ok("/a/a.toml"), Ok("/a/c.toml")])],
        files: vec![("/a/a.toml", ALPHA), ("/a/c.toml", "")],
    };
    let (pool, _) = disk.run(scan_dirs(&["/a".to_string(), "/b".to_string()]));
    let log = startup_report(&pool);
    let texts: Vec<&str> = log.iter().map(|line| line.text.as_str()).collect();
    assert_eq!(
        texts,
        vec![
            "VM pool: 2 folder(s): /a, /b",
            "VM pool `/a`: 1 config(s)",
            "  VM pool entry: VM[1] `alpha` from /a/a.toml",
            "VM pool: /a/c.toml: is empty",
            "VM pool: /b: directory is unavailable: no such directory",
        ]
    );
    let levels: Vec<Level> = log.iter().map(|line| line.level).collect();
    assert_eq!(
        levels,
        vec![Level::Info, Level::Info, Level::Info, Level::Warn, Level::Info]
    );
    assert_eq!(log_issues(&pool), log[3..].to_vec());
}

#[test]
fn a_config_is_parsed_on_its_own() {
    assert!(parse_entry("/p/a.toml", "/p", Ok(ALPHA.to_string())).is_ok());
    assert!(matches!(
        parse_entry("/p/a.toml", "/p", Ok("id = ".to_string())),
        Err(IssueKind::InvalidToml(_))
    ));
    assert!(matches!(
        parse_entry("/p/a.toml", "/p", Err("gone".to_string())),
        Err(IssueKind::Unreadable(_))
    ));
}

#[test]
fn the_startup_report_ensures_the_directories_before_it_scans_them() {
    let disk = Disk {
        listings: vec![("/a", vec![Ok("/a/a.toml")])],
        files: vec![("/a/a.toml", ALPHA)],
    };
    let mut startup = log_startup_state(Some("/a"), Some("/b"));
    let mut asked = Vec::new();
    let log = loop {
        let action = startup.action();
        asked.push(action.clone());
        match action {
            StartupAction::ProbeDirectory(path) => startup.probe(disk.list(&path).is_ok()),
            StartupAction::CreateDirectory(_) => startup.create(Err("read-only".to_string())),
            StartupAction::ReadDirectory(path) => startup.read_directory(disk.list(&path)),
            StartupAction::ReadText(path) => startup.read_text(disk.read(&path)),
            StartupAction::LookUp(path) => startup.look_up(disk.read(&path).is_ok()),
            StartupAction::Finished => break startup.finish(),
        }
    };
    assert_eq!(
        asked,
        vec![
            StartupAction::ProbeDirectory("/a".to_string()),
            StartupAction::ProbeDirectory("/b".to_string()),
            StartupAction::CreateDirectory("/b".to_string()),
            StartupAction::ReadDirectory("/a".to_string()),
            StartupAction::ReadText("/a/a.toml".to_string()),
            StartupAction::ReadDirectory("/b".to_string()),
            StartupAction::Finished,
        ]
    );
    let texts: Vec<&str> = log.iter().map(|line| line.text.as_str()).collect();
    assert_eq!(
        texts,
        vec![
            "VM pool: cannot create `/b`: read-only",
            "VM pool: 2 folder(s): /a, /b",
            "VM pool `/a`: 1 config(s)",
            "  VM pool entry: VM[1] `alpha` from /a/a.toml",
            "VM pool: /b: directory is unavailable: no such directory",
        ]
    );
}

#[test]
fn later_directories_only_add() {
    let disk = Disk {
        listings: vec![
            ("/first", vec![Ok("/first/a.toml"), Ok("/first/blank.toml")]),
            ("/second", vec![Ok("/second/a.toml"), Ok("/second/b.toml")]),
        ],
        files: vec![
            ("/first/a.toml", ALPHA),
            ("/first/blank.toml", ""),
            ("/second/a.toml", ALPHA_COPY),
            ("/second/b.toml", BETA),
        ],
    };
    let (alone, _) = disk.run(scan_dir("/first"));
    let (both, _) = disk.run(scan_dirs(&["/first".to_string(), "/second".to_string()]));
    assert_eq!(alone.entries().len(), 1);
    assert_eq!(alone.issues().len(), 1);
    assert_eq!(&both.entries()[..1], alone.entries());
    assert_eq!(&both.issues()[..1], alone.issues());
    assert_eq!(both.entries().len(), 2);
    assert_eq!(both.issues().len(), 2);
}
