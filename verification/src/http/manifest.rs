//! What a hypervisor build tells the dashboard that it can serve.
//!
//! The browser frontend builds its navigation from the manifest: a panel that
//! is not declared has no UI, and every declared panel must be backed by routes
//! that the same build mounts. The declaration is derived from the parts of the
//! build, so a build with VM management only advertises that, and one with
//! terminals only advertises those.
//!
//! `verbs` are the operations a panel may use: `read` (list, detail), `write`
//! (create, start, stop, delete), `stream` (live output on a socket).

use crate::control::capability::{table, table_laws, Features, ResourceView, Verb};
use vstd::prelude::*;

verus! {

/// Control-plane contract version. Bumped when the response shape changes in a
/// way an older frontend cannot ignore.
pub const PROTO: u8 = 1;

/// One panel of the dashboard.
#[derive(Debug, Clone)]
pub struct Panel {
    /// Name of the kind.
    pub kind: &'static str,
    /// Title of the panel.
    pub title: &'static str,
    /// Names of the operations it may use.
    pub verbs: Vec<&'static str>,
}

/// The view of a [`Panel`].
#[verifier::ext_equal]
pub struct PanelView {
    /// Name of the kind.
    pub kind: &'static str,
    /// Title of the panel.
    pub title: &'static str,
    /// Names of the operations it may use.
    pub verbs: Seq<&'static str>,
}

impl View for Panel {
    type V = PanelView;

    open spec fn view(&self) -> PanelView {
        PanelView { kind: self.kind, title: self.title, verbs: self.verbs@ }
    }
}

/// The views of a sequence of panels.
pub open spec fn panel_views(panels: Seq<Panel>) -> Seq<PanelView> {
    panels.map_values(|panel: Panel| panel@)
}

/// The panels of a build, in the order the dashboard shows them.
pub open spec fn panels_of(features: Features) -> Seq<PanelView> {
    table::only_if(
        features.http_axum,
        seq![PanelView { kind: "vms", title: "虚拟机", verbs: seq!["read", "write"] }],
    ) + table::only_if(
        features.browser_console,
        seq![
            PanelView {
                kind: "console",
                title: "客户机终端",
                verbs: seq!["read", "write", "stream"],
            },
            PanelView { kind: "shell", title: "管理终端", verbs: seq!["read", "write", "stream"] },
        ],
    )
}

/// The panels of a build, in the order the dashboard shows them.
pub fn build_panels(features: Features) -> (r: Vec<Panel>)
    ensures
        panel_views(r@) == panels_of(features),
{
    let mut panels: Vec<Panel> = Vec::new();
    if features.http_axum {
        panels.push(Panel { kind: "vms", title: "虚拟机", verbs: vec!["read", "write"] });
        assert(panels@[0]@.verbs =~= seq!["read", "write"]);
    }
    if features.browser_console {
        let console = Panel {
            kind: "console",
            title: "客户机终端",
            verbs: vec!["read", "write", "stream"],
        };
        let shell = Panel {
            kind: "shell",
            title: "管理终端",
            verbs: vec!["read", "write", "stream"],
        };
        assert(console@.verbs =~= seq!["read", "write", "stream"]);
        assert(shell@.verbs =~= seq!["read", "write", "stream"]);
        panels.push(console);
        panels.push(shell);
    }
    assert(panel_views(panels@) =~= panels_of(features));
    panels
}

/// What a build answers about itself.
#[derive(Debug, Clone)]
pub struct Manifest {
    /// Version of the contract.
    pub proto: u8,
    /// The panels of the dashboard.
    pub panels: Vec<Panel>,
}

/// What a build answers about itself.
pub fn get_manifest(features: Features) -> (r: Manifest)
    ensures
        r.proto == PROTO,
        panel_views(r.panels@) == panels_of(features),
{
    Manifest { proto: PROTO, panels: build_panels(features) }
}

/// The name of an operation.
pub open spec fn verb_name(verb: Verb) -> &'static str {
    match verb {
        Verb::Read => "read",
        Verb::Write => "write",
        Verb::Stream => "stream",
    }
}

/// The panel that declares a resource.
pub open spec fn panel_of(resource: ResourceView) -> PanelView {
    PanelView {
        kind: resource.kind,
        title: resource.title,
        verbs: resource.verbs.map_values(|verb: Verb| verb_name(verb)),
    }
}

/// The manifest declares exactly the resources that the build serves, in the
/// same order, under the same titles and with the same operations.
pub proof fn law_panels_are_the_resources(features: Features)
    ensures
        panels_of(features) == table::resources_of(features).map_values(
            |resource: ResourceView| panel_of(resource),
        ),
{
    let resources = table::resources_of(features);
    let declared = resources.map_values(
        |resource: ResourceView| panel_of(resource),
    );
    assert(panel_of(table::vms_resource(features)).verbs =~= seq!["read", "write"]);
    assert(panel_of(table::console_resource()).verbs =~= seq!["read", "write", "stream"]);
    assert(panel_of(table::shell_resource()).verbs =~= seq!["read", "write", "stream"]);
    assert(panels_of(features) =~= declared);
}

/// Every declared panel is backed by routes of the same build: it has at least
/// one, and each of them is mounted.
pub proof fn law_panels_are_backed(features: Features, p: int)
    requires
        0 <= p < panels_of(features).len(),
    ensures
        ({
            let resource = table::resources_of(features)[p];
            &&& p < table::resources_of(features).len()
            &&& resource.kind == panels_of(features)[p].kind
            &&& resource.endpoints.len() > 0
            &&& forall|e: int|
                #![trigger resource.endpoints[e]]
                0 <= e < resource.endpoints.len() ==> table::is_mounted(
                    table::routes_of(features),
                    resource.endpoints[e].path@,
                    resource.endpoints[e].method,
                )
        }),
{
    let resource = table::resources_of(features)[p];
    law_panels_are_the_resources(features);
    table_laws::law_resources_follow_the_build(features);
    assert forall|e: int|
        #![trigger resource.endpoints[e]]
        0 <= e < resource.endpoints.len() implies table::is_mounted(
        table::routes_of(features),
        resource.endpoints[e].path@,
        resource.endpoints[e].method,
    ) by {
        table_laws::law_every_endpoint_is_mounted(features, p, e);
    }
}

/// The views of panels keep them all, in order, each with its parts.
pub proof fn law_views(panels: Seq<Panel>)
    ensures
        panel_views(panels).len() == panels.len(),
        forall|i: int|
            0 <= i < panels.len() ==> (#[trigger] panel_views(panels)[i]).kind == panels[i].kind
                && panel_views(panels)[i].title == panels[i].title && panel_views(panels)[i].verbs
                == panels[i].verbs@,
        verb_name(Verb::Read)@ == "read"@,
        verb_name(Verb::Write)@ == "write"@,
        verb_name(Verb::Stream)@ == "stream"@,
        PROTO == 1,
{
}

}
