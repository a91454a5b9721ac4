//! The one authority for what a build serves.
//!
//! Every route appears here exactly once. Both consumers walk this table
//! instead of restating it: [`router`] mounts each entry, and the manifest
//! declares the same kinds to the dashboard.
//!
//! An id that is not registered yet may still be startable: with a host
//! filesystem, `start` creates a VM from the matching config in the VM pool
//! first, and `/api/vms/pool` reports those candidates.

use super::{Endpoint, Features, Handler, Method, Resource, ResourceView, Verb, MANIFEST_PATH};
use crate::text;
use vstd::prelude::*;

verus! {

/// The endpoint with the given parts.
pub open spec fn endpoint_of(
    name: &'static str,
    verb: Verb,
    method: Method,
    path: &'static str,
    handler: Handler,
) -> Endpoint {
    Endpoint { name, verb, method, path, handler }
}

/// The endpoint with the given parts.
fn endpoint(
    name: &'static str,
    verb: Verb,
    method: Method,
    path: &'static str,
    handler: Handler,
) -> (r: Endpoint)
    ensures
        r == endpoint_of(name, verb, method, path, handler),
{
    Endpoint { name, verb, method, path, handler }
}

/// The endpoints on VMs that every build with VM management has, before those
/// that depend on the build.
pub open spec fn vms_reading() -> Seq<Endpoint> {
    seq![
        endpoint_of("list", Verb::Read, Method::Get, "/api/vms", Handler::ListVms),
        endpoint_of("detail", Verb::Read, Method::Get, "/api/vms/{id}", Handler::VmDetail),
    ]
}

/// The endpoints on the pool. The pool is a directory on the host filesystem,
/// so its routes only exist in builds that can read one.
pub open spec fn vms_pool() -> Seq<Endpoint> {
    seq![
        endpoint_of("pool", Verb::Read, Method::Get, "/api/vms/pool", Handler::VmPool),
        endpoint_of("pool_save", Verb::Write, Method::Post, "/api/vms/pool", Handler::VmPoolSave),
        endpoint_of("browse", Verb::Read, Method::Get, "/api/vms/browse", Handler::VmBrowse),
    ]
}

/// The stream of registry changes. Only the dashboard subscribes to it, and
/// reaching it needs both the socket and a panel to hang it on.
pub open spec fn vms_events() -> Seq<Endpoint> {
    seq![endpoint_of("events", Verb::Read, Method::Get, "/ws/events", Handler::EventsStream)]
}

/// The endpoints that change VMs.
pub open spec fn vms_writing() -> Seq<Endpoint> {
    seq![
        endpoint_of("delete", Verb::Write, Method::Delete, "/api/vms/{id}", Handler::VmDelete),
        endpoint_of("create", Verb::Write, Method::Post, "/api/vms/create", Handler::VmCreate),
        endpoint_of("start", Verb::Write, Method::Post, "/api/vms/{id}/start", Handler::VmStart),
        endpoint_of("stop", Verb::Write, Method::Post, "/api/vms/{id}/stop", Handler::VmStop),
        endpoint_of("pause", Verb::Write, Method::Post, "/api/vms/{id}/pause", Handler::VmPause),
        endpoint_of(
            "resume",
            Verb::Write,
            Method::Post,
            "/api/vms/{id}/resume",
            Handler::VmResume,
        ),
    ]
}

/// `items` if `present`, and otherwise nothing.
pub open spec fn only_if<T>(present: bool, items: Seq<T>) -> Seq<T> {
    if present {
        items
    } else {
        Seq::empty()
    }
}

/// The VMs.
pub open spec fn vms_resource(features: Features) -> ResourceView {
    ResourceView {
        kind: "vms",
        title: "虚拟机",
        root: "/api/vms",
        verbs: seq![Verb::Read, Verb::Write],
        endpoints: vms_reading() + only_if(features.fs, vms_pool()) + only_if(
            features.browser_console,
            vms_events(),
        ) + vms_writing(),
    }
}

/// The terminals of the guests.
pub open spec fn console_resource() -> ResourceView {
    ResourceView {
        kind: "console",
        title: "客户机终端",
        root: "/api/consoles",
        verbs: seq![Verb::Read, Verb::Write, Verb::Stream],
        endpoints: seq![
            endpoint_of("list", Verb::Read, Method::Get, "/api/consoles", Handler::ConsoleList),
            endpoint_of(
                "stream",
                Verb::Stream,
                Method::Get,
                "/ws/{endpoint}",
                Handler::ConsoleStream,
            ),
        ],
    }
}

/// The management lane.
///
/// It has no route of its own: the socket of the consoles already serves it.
/// Declaring the socket again under this kind is what tells the dashboard that
/// a management terminal exists.
pub open spec fn shell_resource() -> ResourceView {
    ResourceView {
        kind: "shell",
        title: "管理终端",
        root: "/ws",
        verbs: seq![Verb::Read, Verb::Write, Verb::Stream],
        endpoints: seq![
            endpoint_of(
                "stream",
                Verb::Stream,
                Method::Get,
                "/ws/{endpoint}",
                Handler::ConsoleStream,
            ),
        ],
    }
}

/// The resource kinds a build serves, in the order the dashboard shows them.
pub open spec fn resources_of(features: Features) -> Seq<ResourceView> {
    only_if(features.http_axum, seq![vms_resource(features)]) + only_if(
        features.browser_console,
        seq![console_resource(), shell_resource()],
    )
}

/// The VMs.
fn vms(features: Features) -> (r: Resource)
    ensures
        r@ == vms_resource(features),
{
    let mut endpoints: Vec<Endpoint> = vec![
        endpoint("list", Verb::Read, Method::Get, "/api/vms", Handler::ListVms),
        endpoint("detail", Verb::Read, Method::Get, "/api/vms/{id}", Handler::VmDetail),
    ];
    if features.fs {
        let mut pool: Vec<Endpoint> = vec![
            endpoint("pool", Verb::Read, Method::Get, "/api/vms/pool", Handler::VmPool),
            endpoint("pool_save", Verb::Write, Method::Post, "/api/vms/pool", Handler::VmPoolSave),
            endpoint("browse", Verb::Read, Method::Get, "/api/vms/browse", Handler::VmBrowse),
        ];
        endpoints.append(&mut pool);
    }
    if features.browser_console {
        endpoints.push(
            endpoint("events", Verb::Read, Method::Get, "/ws/events", Handler::EventsStream),
        );
    }
    let mut writing: Vec<Endpoint> = vec![
        endpoint("delete", Verb::Write, Method::Delete, "/api/vms/{id}", Handler::VmDelete),
        endpoint("create", Verb::Write, Method::Post, "/api/vms/create", Handler::VmCreate),
        endpoint("start", Verb::Write, Method::Post, "/api/vms/{id}/start", Handler::VmStart),
        endpoint("stop", Verb::Write, Method::Post, "/api/vms/{id}/stop", Handler::VmStop),
        endpoint("pause", Verb::Write, Method::Post, "/api/vms/{id}/pause", Handler::VmPause),
        endpoint("resume", Verb::Write, Method::Post, "/api/vms/{id}/resume", Handler::VmResume),
    ];
    endpoints.append(&mut writing);
    let r = Resource {
        kind: "vms",
        title: "虚拟机",
        root: "/api/vms",
        verbs: vec![Verb::Read, Verb::Write],
        endpoints,
    };
    assert(r@ =~= vms_resource(features));
    r
}

/// The terminals of the guests.
fn console() -> (r: Resource)
    ensures
        r@ == console_resource(),
{
    let r = Resource {
        kind: "console",
        title: "客户机终端",
        root: "/api/consoles",
        verbs: vec![Verb::Read, Verb::Write, Verb::Stream],
        endpoints: vec![
            endpoint("list", Verb::Read, Method::Get, "/api/consoles", Handler::ConsoleList),
            endpoint(
                "stream",
                Verb::Stream,
                Method::Get,
                "/ws/{endpoint}",
                Handler::ConsoleStream,
            ),
        ],
    };
    assert(r@ =~= console_resource());
    r
}

/// The management lane.
fn shell() -> (r: Resource)
    ensures
        r@ == shell_resource(),
{
    let r = Resource {
        kind: "shell",
        title: "管理终端",
        root: "/ws",
        verbs: vec![Verb::Read, Verb::Write, Verb::Stream],
        endpoints: vec![
            endpoint(
                "stream",
                Verb::Stream,
                Method::Get,
                "/ws/{endpoint}",
                Handler::ConsoleStream,
            ),
        ],
    };
    assert(r@ =~= shell_resource());
    r
}

/// The resource kinds a build serves, in the order the dashboard shows them.
///
/// A kind is present exactly when its routes are: there is no way to declare a
/// panel that the build cannot answer.
pub fn resources(features: Features) -> (r: Vec<Resource>)
    ensures
        super::resource_views(r@) == resources_of(features),
{
    let mut all: Vec<Resource> = Vec::new();
    if features.http_axum {
        all.push(vms(features));
    }
    if features.browser_console {
        all.push(console());
        all.push(shell());
    }
    assert(super::resource_views(all@) =~= resources_of(features));
    all
}

/// A route and what answers it.
#[derive(Debug, Clone, Copy)]
pub struct Mount {
    /// Path of the route.
    pub path: &'static str,
    /// Method of the route.
    pub method: Method,
    /// What answers it.
    pub handler: Handler,
}

/// Whether `mounts` has a route with this path and method.
pub open spec fn is_mounted(mounts: Seq<Mount>, path: Seq<char>, method: Method) -> bool {
    exists|i: int|
        0 <= i < mounts.len() && (#[trigger] mounts[i]).path@ == path && mounts[i].method == method
}

/// `mounts` with the route of `endpoint`, unless it is there already.
pub open spec fn with_endpoint(mounts: Seq<Mount>, endpoint: Endpoint) -> Seq<Mount> {
    if is_mounted(mounts, endpoint.path@, endpoint.method) {
        mounts
    } else {
        mounts.push(
            Mount { path: endpoint.path, method: endpoint.method, handler: endpoint.handler },
        )
    }
}

/// `mounts` with the route of each of `endpoints` in turn.
pub open spec fn with_endpoints(mounts: Seq<Mount>, endpoints: Seq<Endpoint>) -> Seq<Mount>
    decreases endpoints.len(),
{
    if endpoints.len() == 0 {
        mounts
    } else {
        with_endpoint(with_endpoints(mounts, endpoints.drop_last()), endpoints.last())
    }
}

/// `mounts` with the routes of each of `resources` in turn.
pub open spec fn with_resources(mounts: Seq<Mount>, resources: Seq<ResourceView>) -> Seq<Mount>
    decreases resources.len(),
{
    if resources.len() == 0 {
        mounts
    } else {
        with_endpoints(
            with_resources(mounts, resources.drop_last()),
            resources.last().endpoints,
        )
    }
}

/// The route of the manifest.
pub open spec fn manifest_mount() -> Mount {
    Mount { path: MANIFEST_PATH, method: Method::Get, handler: Handler::Manifest }
}

/// Every route a build serves: the manifest, then the routes of its resources,
/// each once.
pub open spec fn routes_of(features: Features) -> Seq<Mount> {
    seq![manifest_mount()] + with_resources(Seq::empty(), resources_of(features))
}

/// Adds the route of `endpoint` to `mounts`, unless it is there already.
fn mount(mounts: &mut Vec<Mount>, endpoint: &Endpoint)
    ensures
        final(mounts)@ == with_endpoint(old(mounts)@, *endpoint),
{
    let mut i: usize = 0;
    while i < mounts.len()
        invariant
            i <= mounts.len(),
            mounts@ == old(mounts)@,
            forall|j: int|
                0 <= j < i ==> (#[trigger] mounts@[j]).path@ != endpoint.path@ || mounts@[j].method
                    != endpoint.method,
        decreases mounts.len() - i,
    {
        let known: Mount = mounts[i];
        if text::same(known.path, endpoint.path) && known.method == endpoint.method {
            assert(old(mounts)@[i as int].path@ == endpoint.path@);
            return;
        }
        i = i + 1;
    }
    mounts.push(Mount { path: endpoint.path, method: endpoint.method, handler: endpoint.handler });
}

/// Adds the routes of `endpoints` to `mounts`.
fn mount_all(mounts: &mut Vec<Mount>, endpoints: &Vec<Endpoint>)
    ensures
        final(mounts)@ == with_endpoints(old(mounts)@, endpoints@),
{
    let mut i: usize = 0;
    while i < endpoints.len()
        invariant
            i <= endpoints.len(),
            mounts@ == with_endpoints(old(mounts)@, endpoints@.take(i as int)),
        decreases endpoints.len() - i,
    {
        mount(mounts, &endpoints[i]);
        assert(endpoints@.take(i + 1).drop_last() =~= endpoints@.take(i as int));
        assert(endpoints@.take(i + 1).last() == endpoints@[i as int]);
        i = i + 1;
    }
    assert(endpoints@.take(i as int) =~= endpoints@);
}

/// The routes of everything a build serves.
///
/// A path may appear more than once: `GET /api/vms/{id}` and
/// `DELETE /api/vms/{id}` are two entries on one path. The same path and method
/// appearing twice is mounted once instead: the console and shell panels share
/// `/ws/{endpoint}`, and mounting the same handler twice would panic rather
/// than serve.
pub fn router(features: Features) -> (r: Vec<Mount>)
    ensures
        r@ == routes_of(features),
{
    let all: Vec<Resource> = resources(features);
    let ghost views = super::resource_views(all@);
    let mut mounted: Vec<Mount> = Vec::new();
    let mut i: usize = 0;
    while i < all.len()
        invariant
            i <= all.len(),
            views == super::resource_views(all@),
            mounted@ == with_resources(Seq::empty(), views.take(i as int)),
        decreases all.len() - i,
    {
        mount_all(&mut mounted, &all[i].endpoints);
        assert(views.take(i + 1).drop_last() =~= views.take(i as int));
        assert(views.take(i + 1).last() == all@[i as int]@);
        i = i + 1;
    }
    assert(views.take(i as int) =~= views);
    let mut routes: Vec<Mount> = vec![
        Mount { path: MANIFEST_PATH, method: Method::Get, handler: Handler::Manifest },
    ];
    routes.append(&mut mounted);
    routes
}

}
