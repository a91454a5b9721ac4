//! Routes, manifest and dashboard assets.

use axvisor_control::control::capability::table::{resources, router};
use axvisor_control::control::capability::{Features, Handler, Method, Verb, MANIFEST_PATH};
use axvisor_control::http::bind_addr;
use axvisor_control::http::manifest::{build_panels, get_manifest};
use axvisor_control::http::web_ui::{
    get_web_ui_assets, init, mime_of, requested_asset, respond, serve_asset, ui_routes,
    InstallAction,
};
use axvisor_control::report::Level;

const FULL: Features = Features { http_axum: true, browser_console: true, fs: true };
const NOTHING: Features = Features { http_axum: false, browser_console: false, fs: true };
const MANAGEMENT: Features = Features { http_axum: true, browser_console: false, fs: false };
const TERMINALS: Features = Features { http_axum: false, browser_console: true, fs: false };

fn routes(features: Features) -> Vec<(Method, &'static str, Handler)> {
    router(features).iter().map(|mount| (mount.method, mount.path, mount.handler)).collect()
}

#[test]
fn a_full_build_serves_everything() {
    assert_eq!(
        routes(FULL),
        vec![
            (Method::Get, "/api/manifest", Handler::Manifest),
            (Method::Get, "/api/vms", Handler::ListVms),
            (Method::Get, "/api/vms/{id}", Handler::VmDetail),
            (Method::Get, "/api/vms/pool", Handler::VmPool),
            (Method::Post, "/api/vms/pool", Handler::VmPoolSave),
            (Method::Get, "/api/vms/browse", Handler::VmBrowse),
            (Method::Get, "/ws/events", Handler::EventsStream),
            (Method::Delete, "/api/vms/{id}", Handler::VmDelete),
            (Method::Post, "/api/vms/create", Handler::VmCreate),
            (Method::Post, "/api/vms/{id}/start", Handler::VmStart),
            (Method::Post, "/api/vms/{id}/stop", Handler::VmStop),
            (Method::Post, "/api/vms/{id}/pause", Handler::VmPause),
            (Method::Post, "/api/vms/{id}/resume", Handler::VmResume),
            (Method::Get, "/api/consoles", Handler::ConsoleList),
            (Method::Get, "/ws/{endpoint}", Handler::ConsoleStream),
        ]
    );
}

#[test]
fn a_build_serves_only_what_it_has() {
    assert_eq!(routes(NOTHING), vec![(Method::Get, MANIFEST_PATH, Handler::Manifest)]);
    assert_eq!(routes(MANAGEMENT).len(), 9);
    assert_eq!(
        routes(TERMINALS),
        vec![
            (Method::Get, "/api/manifest", Handler::Manifest),
            (Method::Get, "/api/consoles", Handler::ConsoleList),
            (Method::Get, "/ws/{endpoint}", Handler::ConsoleStream),
        ]
    );
}

#[test]
fn no_route_is_mounted_twice() {
    for features in [FULL, NOTHING, MANAGEMENT, TERMINALS] {
        let mounted = router(features);
        for (i, a) in mounted.iter().enumerate() {
            for b in &mounted[i + 1..] {
                assert!(a.path != b.path || a.method != b.method);
            }
        }
        for resource in resources(features) {
            assert!(!resource.endpoints.is_empty());
            for endpoint in &resource.endpoints {
                assert!(mounted.iter().any(|mount| mount.path == endpoint.path
                    && mount.method == endpoint.method
                    && mount.handler == endpoint.handler));
            }
        }
    }
}

#[test]
fn the_resources_have_their_parts() {
    let all = resources(FULL);
    assert_eq!(all.len(), 3);
    assert_eq!((all[0].kind, all[0].title, all[0].root), ("vms", "虚拟机", "/api/vms"));
    assert_eq!(all[0].verbs, vec![Verb::Read, Verb::Write]);
    assert_eq!(
        (all[1].kind, all[1].title, all[1].root),
        ("console", "客户机终端", "/api/consoles")
    );
    assert_eq!((all[2].kind, all[2].title, all[2].root), ("shell", "管理终端", "/ws"));
    assert_eq!(all[2].verbs, vec![Verb::Read, Verb::Write, Verb::Stream]);
    let pool_save = &all[0].endpoints[3];
    assert_eq!(pool_save.name, "pool_save");
    assert_eq!(pool_save.verb, Verb::Write);
}

#[test]
fn the_manifest_declares_the_resources() {
    for features in [FULL, NOTHING, MANAGEMENT, TERMINALS] {
        let panels = build_panels(features);
        let all = resources(features);
        assert_eq!(panels.len(), all.len());
        for (panel, resource) in panels.iter().zip(&all) {
            assert_eq!(panel.kind, resource.kind);
            assert_eq!(panel.title, resource.title);
            assert_eq!(panel.verbs.len(), resource.verbs.len());
        }
    }
    let manifest = get_manifest(FULL);
    assert_eq!(manifest.proto, 1);
    assert_eq!(manifest.panels[0].verbs, vec!["read", "write"]);
    assert_eq!(manifest.panels[1].kind, "console");
    assert_eq!(manifest.panels[2].verbs, vec!["read", "write", "stream"]);
}

#[test]
fn the_listener_is_local_unless_told_otherwise() {
    assert_eq!(bind_addr(None), "127.0.0.1:8080");
    assert_eq!(bind_addr(Some("0.0.0.0:80")), "0.0.0.0:80");
}

#[test]
fn the_assets_are_written_one_after_the_other() {
    let mut installer = init();
    assert_eq!(installer.action(), InstallAction::CreateDirectory("/web".to_string()));
    installer.create(Ok(()));
    assert_eq!(
        installer.action(),
        InstallAction::Write { asset: 0, path: "/web/index.html".to_string() }
    );
    installer.write(42, Ok(()));
    assert_eq!(
        installer.action(),
        InstallAction::Write { asset: 1, path: "/web/dashboard.js".to_string() }
    );
    installer.write(7, Err("disk full".to_string()));
    assert_eq!(
        installer.action(),
        InstallAction::Write { asset: 2, path: "/web/style.css".to_string() }
    );
    installer.write(0, Ok(()));
    assert_eq!(installer.action(), InstallAction::Finished);
    let log = installer.into_log();
    let texts: Vec<&str> = log.iter().map(|line| line.text.as_str()).collect();
    assert_eq!(
        texts,
        vec![
            "web-ui: wrote /web/index.html (42 bytes)",
            "web-ui: failed to write /web/dashboard.js: disk full",
            "web-ui: wrote /web/style.css (0 bytes)",
        ]
    );
    assert_eq!(log[0].level, Level::Info);
    assert_eq!(log[1].level, Level::Warn);
}

#[test]
fn without_a_root_nothing_is_written() {
    let mut installer = init();
    installer.create(Err("read-only".to_string()));
    assert_eq!(installer.action(), InstallAction::Finished);
    let log = installer.into_log();
    assert_eq!(log.len(), 1);
    assert_eq!(log[0].level, Level::Warn);
    assert_eq!(log[0].text, "web-ui: failed to create /web: read-only");
}

#[test]
fn every_route_of_the_dashboard_serves_an_asset() {
    assert_eq!(ui_routes(), vec!["/", "/style.css", "/dashboard.js"]);
    for route in ui_routes() {
        let name = requested_asset(route);
        assert!(get_web_ui_assets().iter().any(|asset| asset.name == name));
    }
    assert_eq!(requested_asset("/"), "index.html");
    assert_eq!(requested_asset("//style.css"), "style.css");
    assert_eq!(serve_asset("/dashboard.js"), "/web/dashboard.js");
}

#[test]
fn an_asset_is_served_with_its_type() {
    assert_eq!(mime_of("index.html"), "text/html; charset=utf-8");
    assert_eq!(mime_of("dashboard.js"), "text/javascript; charset=utf-8");
    assert_eq!(mime_of("style.css"), "text/css; charset=utf-8");
    assert_eq!(mime_of("logo.png"), "application/octet-stream");
    let found = respond("/", Some(b"<html>".to_vec()));
    assert_eq!(found.status, 200);
    assert_eq!(found.content_type, "text/html; charset=utf-8");
    assert_eq!(found.body, b"<html>".to_vec());
    let missing = respond("/style.css", None);
    assert_eq!(missing.status, 404);
    assert_eq!(missing.content_type, "text/plain; charset=utf-8");
    assert_eq!(missing.body, b"Not Found".to_vec());
}
