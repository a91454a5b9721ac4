//! What holds of the routes of every build.

use super::table::{self, Mount};
use super::{
    resource_views, Endpoint, Features, Handler, Method, Resource, ResourceView, Verb,
    MANIFEST_PATH,
};
use vstd::prelude::*;

verus! {

/// Whether no two of `mounts` have the same path and method.
pub open spec fn are_distinct(mounts: Seq<Mount>) -> bool {
    forall|i: int, j: int|
        0 <= i < j < mounts.len() ==> (#[trigger] mounts[i]).path@ != (#[trigger] mounts[j]).path@
            || mounts[i].method != mounts[j].method
}

/// Whether `mount` is the route of `endpoint`.
pub open spec fn mounts_endpoint(mount: Mount, endpoint: Endpoint) -> bool {
    mount == (Mount { path: endpoint.path, method: endpoint.method, handler: endpoint.handler })
}

/// Whether `mount` is the route of an endpoint of `resources`.
pub open spec fn comes_from(resources: Seq<ResourceView>, mount: Mount) -> bool {
    exists|r: int, e: int|
        0 <= r < resources.len() && 0 <= e < resources[r].endpoints.len() && mounts_endpoint(
            mount,
            #[trigger] resources[r].endpoints[e],
        )
}

proof fn lemma_mounted_stays(mounts: Seq<Mount>, added: Mount, path: Seq<char>, method: Method)
    requires
        table::is_mounted(mounts, path, method),
    ensures
        table::is_mounted(mounts.push(added), path, method),
{
    let i = choose|i: int|
        0 <= i < mounts.len() && (#[trigger] mounts[i]).path@ == path && mounts[i].method == method;
    assert(mounts.push(added)[i].path@ == path);
}

proof fn lemma_endpoint(mounts: Seq<Mount>, endpoint: Endpoint)
    ensures
        table::is_mounted(
            table::with_endpoint(mounts, endpoint),
            endpoint.path@,
            endpoint.method,
        ),
        forall|path: Seq<char>, method: Method| #[trigger]
            table::is_mounted(mounts, path, method) ==> table::is_mounted(
                table::with_endpoint(mounts, endpoint),
                path,
                method,
            ),
        are_distinct(mounts) ==> are_distinct(table::with_endpoint(mounts, endpoint)),
{
    let next = table::with_endpoint(mounts, endpoint);
    let added = Mount {
        path: endpoint.path,
        method: endpoint.method,
        handler: endpoint.handler,
    };
    if !table::is_mounted(mounts, endpoint.path@, endpoint.method) {
        assert(next[mounts.len() as int] == added);
        assert forall|path: Seq<char>, method: Method| #[trigger]
            table::is_mounted(mounts, path, method) implies table::is_mounted(
            next,
            path,
            method,
        ) by {
            lemma_mounted_stays(mounts, added, path, method);
        }
    }
}

proof fn lemma_endpoints(mounts: Seq<Mount>, endpoints: Seq<Endpoint>)
    ensures
        forall|e: int|
            #![trigger endpoints[e]]
            0 <= e < endpoints.len() ==> table::is_mounted(
                table::with_endpoints(mounts, endpoints),
                endpoints[e].path@,
                endpoints[e].method,
            ),
        forall|path: Seq<char>, method: Method| #[trigger]
            table::is_mounted(mounts, path, method) ==> table::is_mounted(
                table::with_endpoints(mounts, endpoints),
                path,
                method,
            ),
        are_distinct(mounts) ==> are_distinct(table::with_endpoints(mounts, endpoints)),
        forall|i: int|
            #![trigger table::with_endpoints(mounts, endpoints)[i]]
            0 <= i < table::with_endpoints(mounts, endpoints).len() ==> {
                let mount = table::with_endpoints(mounts, endpoints)[i];
                ||| mounts.contains(mount)
                ||| exists|e: int|
                    0 <= e < endpoints.len() && mounts_endpoint(mount, #[trigger] endpoints[e])
            },
    decreases endpoints.len(),
{
    let next = table::with_endpoints(mounts, endpoints);
    if endpoints.len() == 0 {
        assert forall|i: int| #![trigger next[i]] 0 <= i < next.len() implies mounts.contains(
            next[i],
        ) by {
            assert(mounts[i] == next[i]);
        }
    } else {
        let init = endpoints.drop_last();
        let before = table::with_endpoints(mounts, init);
        lemma_endpoints(mounts, init);
        lemma_endpoint(before, endpoints.last());
        assert forall|e: int|
            #![trigger endpoints[e]]
            0 <= e < endpoints.len() implies table::is_mounted(
            next,
            endpoints[e].path@,
            endpoints[e].method,
        ) by {
            if e < init.len() {
                assert(init[e] == endpoints[e]);
            }
        }
        assert forall|i: int| #![trigger next[i]] 0 <= i < next.len() implies {
            ||| mounts.contains(next[i])
            ||| exists|e: int|
                0 <= e < endpoints.len() && mounts_endpoint(next[i], #[trigger] endpoints[e])
        } by {
            if i < before.len() {
                assert(next[i] == before[i]);
                if !mounts.contains(before[i]) {
                    let e = choose|e: int|
                        0 <= e < init.len() && mounts_endpoint(before[i], #[trigger] init[e]);
                    assert(endpoints[e] == init[e]);
                }
            } else {
                assert(mounts_endpoint(next[i], endpoints[endpoints.len() - 1]));
            }
        }
    }
}

proof fn lemma_resources(resources: Seq<ResourceView>)
    ensures
        forall|r: int, e: int|
            #![trigger resources[r].endpoints[e]]
            0 <= r < resources.len() && 0 <= e < resources[r].endpoints.len() ==> table::is_mounted(
                table::with_resources(Seq::empty(), resources),
                resources[r].endpoints[e].path@,
                resources[r].endpoints[e].method,
            ),
        are_distinct(table::with_resources(Seq::empty(), resources)),
        forall|i: int|
            #![trigger table::with_resources(Seq::empty(), resources)[i]]
            0 <= i < table::with_resources(Seq::empty(), resources).len() ==> comes_from(
                resources,
                table::with_resources(Seq::empty(), resources)[i],
            ),
    decreases resources.len(),
{
    if resources.len() > 0 {
        let init = resources.drop_last();
        let last = resources.last();
        let before = table::with_resources(Seq::empty(), init);
        let next = table::with_resources(Seq::empty(), resources);
        lemma_resources(init);
        lemma_endpoints(before, last.endpoints);
        assert forall|r: int, e: int|
            #![trigger resources[r].endpoints[e]]
            0 <= r < resources.len() && 0 <= e
                < resources[r].endpoints.len() implies table::is_mounted(
            next,
            resources[r].endpoints[e].path@,
            resources[r].endpoints[e].method,
        ) by {
            if r < init.len() {
                assert(init[r].endpoints[e] == resources[r].endpoints[e]);
                assert(table::is_mounted(
                    before,
                    resources[r].endpoints[e].path@,
                    resources[r].endpoints[e].method,
                ));
            } else {
                assert(last.endpoints[e] == resources[r].endpoints[e]);
            }
        }
        assert forall|i: int| #![trigger next[i]] 0 <= i < next.len() implies comes_from(
            resources,
            next[i],
        ) by {
            if before.contains(next[i]) {
                let k = choose|k: int| 0 <= k < before.len() && before[k] == next[i];
                assert(comes_from(init, before[k]));
                let (r, e) = choose|r: int, e: int|
                    0 <= r < init.len() && 0 <= e < init[r].endpoints.len() && mounts_endpoint(
                        before[k],
                        #[trigger] init[r].endpoints[e],
                    );
                assert(mounts_endpoint(next[i], resources[r].endpoints[e]));
            } else {
                let e = choose|e: int|
                    0 <= e < last.endpoints.len() && mounts_endpoint(
                        next[i],
                        #[trigger] last.endpoints[e],
                    );
                assert(mounts_endpoint(next[i], resources[resources.len() - 1].endpoints[e]));
            }
        }
    }
}

/// The handler of the endpoint with this method and path, told apart by length
/// and single characters.
spec fn handler_by(method: Method, path: Seq<char>) -> Handler {
    match method {
        Method::Delete => Handler::VmDelete,
        Method::Post => if path.len() == 13 {
            Handler::VmPoolSave
        } else if path.len() == 15 {
            Handler::VmCreate
        } else if path.len() == 18 {
            Handler::VmStop
        } else if path.len() == 20 {
            Handler::VmResume
        } else if path[14] == 's' {
            Handler::VmStart
        } else {
            Handler::VmPause
        },
        Method::Get => if path.len() == 8 {
            Handler::ListVms
        } else if path.len() == 15 {
            Handler::VmBrowse
        } else if path.len() == 10 {
            Handler::EventsStream
        } else if path.len() == 14 {
            Handler::ConsoleStream
        } else if path[5] == 'c' {
            Handler::ConsoleList
        } else if path[9] == 'p' {
            Handler::VmPool
        } else {
            Handler::VmDetail
        },
    }
}

proof fn lemma_handler(features: Features, r: int, e: int)
    requires
        0 <= r < table::resources_of(features).len(),
        0 <= e < table::resources_of(features)[r].endpoints.len(),
    ensures
        ({
            let endpoint = table::resources_of(features)[r].endpoints[e];
            endpoint.handler == handler_by(endpoint.method, endpoint.path@)
        }),
{
    reveal_strlit("/api/vms");
    reveal_strlit("/api/vms/{id}");
    reveal_strlit("/api/vms/pool");
    reveal_strlit("/api/vms/browse");
    reveal_strlit("/ws/events");
    reveal_strlit("/api/vms/create");
    reveal_strlit("/api/vms/{id}/start");
    reveal_strlit("/api/vms/{id}/stop");
    reveal_strlit("/api/vms/{id}/pause");
    reveal_strlit("/api/vms/{id}/resume");
    reveal_strlit("/api/consoles");
    reveal_strlit("/ws/{endpoint}");
}

/// Every endpoint of every resource is mounted, and its own handler answers it:
/// endpoints share a route only where they share the handler.
pub proof fn law_every_endpoint_is_mounted(features: Features, r: int, e: int)
    requires
        0 <= r < table::resources_of(features).len(),
        0 <= e < table::resources_of(features)[r].endpoints.len(),
    ensures
        ({
            let routes = table::routes_of(features);
            let endpoint = table::resources_of(features)[r].endpoints[e];
            exists|i: int|
                0 <= i < routes.len() && (#[trigger] routes[i]).path@ == endpoint.path@
                    && routes[i].method == endpoint.method && routes[i].handler == endpoint.handler
        }),
{
    let resources = table::resources_of(features);
    let mounted = table::with_resources(Seq::empty(), resources);
    let routes = table::routes_of(features);
    let endpoint = resources[r].endpoints[e];
    lemma_resources(resources);
    let i = choose|i: int|
        0 <= i < mounted.len() && (#[trigger] mounted[i]).path@ == endpoint.path@
            && mounted[i].method == endpoint.method;
    assert(comes_from(resources, mounted[i]));
    let (r2, e2) = choose|r2: int, e2: int|
        0 <= r2 < resources.len() && 0 <= e2 < resources[r2].endpoints.len() && mounts_endpoint(
            mounted[i],
            #[trigger] resources[r2].endpoints[e2],
        );
    lemma_handler(features, r, e);
    lemma_handler(features, r2, e2);
    assert(routes[i + 1] == mounted[i]);
}

/// Every route is that of the manifest, or that of an endpoint of a resource
/// the build serves, with the handler the endpoint names.
pub proof fn law_routes_come_from_the_table(features: Features, i: int)
    requires
        0 <= i < table::routes_of(features).len(),
    ensures
        table::routes_of(features)[i] == table::manifest_mount() || comes_from(
            table::resources_of(features),
            table::routes_of(features)[i],
        ),
{
    let resources = table::resources_of(features);
    let mounted = table::with_resources(Seq::empty(), resources);
    lemma_resources(resources);
    if i > 0 {
        assert(table::routes_of(features)[i] == mounted[i - 1]);
    }
}

proof fn lemma_no_endpoint_is_the_manifest(features: Features, r: int, e: int)
    requires
        0 <= r < table::resources_of(features).len(),
        0 <= e < table::resources_of(features)[r].endpoints.len(),
    ensures
        table::resources_of(features)[r].endpoints[e].path@ != MANIFEST_PATH@,
{
    reveal_strlit("/api/manifest");
    reveal_strlit("/api/vms");
    reveal_strlit("/api/vms/{id}");
    reveal_strlit("/api/vms/pool");
    reveal_strlit("/api/vms/browse");
    reveal_strlit("/ws/events");
    reveal_strlit("/api/vms/create");
    reveal_strlit("/api/vms/{id}/start");
    reveal_strlit("/api/vms/{id}/stop");
    reveal_strlit("/api/vms/{id}/pause");
    reveal_strlit("/api/vms/{id}/resume");
    reveal_strlit("/api/consoles");
    reveal_strlit("/ws/{endpoint}");
    let endpoint = table::resources_of(features)[r].endpoints[e];
    assert(MANIFEST_PATH@.len() == 13);
    assert(MANIFEST_PATH@[5] == 'm');
    assert(endpoint.path@.len() != 13 || endpoint.path@[5] != 'm');
}

/// No path and method is mounted twice: mounting one twice would panic rather
/// than serve.
pub proof fn law_routes_are_distinct(features: Features)
    ensures
        are_distinct(table::routes_of(features)),
{
    let resources = table::resources_of(features);
    let mounted = table::with_resources(Seq::empty(), resources);
    let routes = table::routes_of(features);
    lemma_resources(resources);
    assert forall|i: int, j: int| 0 <= i < j < routes.len() implies (#[trigger] routes[i]).path@ != (
    #[trigger] routes[j]).path@ || routes[i].method != routes[j].method by {
        assert(routes[j] == mounted[j - 1]);
        if i > 0 {
            assert(routes[i] == mounted[i - 1]);
        } else {
            assert(comes_from(resources, mounted[j - 1]));
            let (r, e) = choose|r: int, e: int|
                0 <= r < resources.len() && 0 <= e < resources[r].endpoints.len()
                    && mounts_endpoint(mounted[j - 1], #[trigger] resources[r].endpoints[e]);
            lemma_no_endpoint_is_the_manifest(features, r, e);
        }
    }
}

/// The manifest is always mounted.
pub proof fn law_manifest_is_mounted(features: Features)
    ensures
        table::is_mounted(table::routes_of(features), MANIFEST_PATH@, Method::Get),
{
    assert(table::routes_of(features)[0] == table::manifest_mount());
}

/// A resource is present exactly when its routes are: VM management in a build
/// that has it, the terminals in a build that has those; and every resource has
/// a route.
pub proof fn law_resources_follow_the_build(features: Features)
    ensures
        ({
            let resources = table::resources_of(features);
            &&& features.http_axum <==> resources.contains(table::vms_resource(features))
            &&& features.browser_console <==> resources.contains(table::console_resource())
            &&& features.browser_console <==> resources.contains(table::shell_resource())
            &&& forall|r: int|
                0 <= r < resources.len() ==> (#[trigger] resources[r]).endpoints.len() > 0
        }),
{
    let resources = table::resources_of(features);
    let vms = table::vms_resource(features);
    let console = table::console_resource();
    let shell = table::shell_resource();
    assert(vms.verbs.len() == 2);
    assert(console.verbs.len() == 3);
    assert(shell.verbs.len() == 3);
    assert(console.endpoints.len() == 2);
    assert(shell.endpoints.len() == 1);
    if features.http_axum {
        assert(resources[0] == vms);
    }
    if features.browser_console {
        let k: int = if features.http_axum {
            1
        } else {
            0
        };
        assert(resources[k] == console);
        assert(resources[k + 1] == shell);
    }
}

/// The routes of a build, by its parts: the manifest always, VM management in a
/// build that has it, the pool only with a host filesystem, the events only
/// with terminals, and the consoles in a build that has terminals.
pub open spec fn is_served(features: Features, path: Seq<char>, method: Method) -> bool {
    let vms = features.http_axum;
    match method {
        Method::Get => {
            ||| path == "/api/manifest"@
            ||| vms && path == "/api/vms"@
            ||| vms && path == "/api/vms/{id}"@
            ||| vms && features.fs && path == "/api/vms/pool"@
            ||| vms && features.fs && path == "/api/vms/browse"@
            ||| vms && features.browser_console && path == "/ws/events"@
            ||| features.browser_console && path == "/api/consoles"@
            ||| features.browser_console && path == "/ws/{endpoint}"@
        },
        Method::Post => {
            ||| vms && features.fs && path == "/api/vms/pool"@
            ||| vms && path == "/api/vms/create"@
            ||| vms && path == "/api/vms/{id}/start"@
            ||| vms && path == "/api/vms/{id}/stop"@
            ||| vms && path == "/api/vms/{id}/pause"@
            ||| vms && path == "/api/vms/{id}/resume"@
        },
        Method::Delete => vms && path == "/api/vms/{id}"@,
    }
}

proof fn lemma_table_is_served(features: Features, r: int, e: int)
    requires
        0 <= r < table::resources_of(features).len(),
        0 <= e < table::resources_of(features)[r].endpoints.len(),
    ensures
        ({
            let endpoint = table::resources_of(features)[r].endpoints[e];
            is_served(features, endpoint.path@, endpoint.method)
        }),
{
}

/// Whether some endpoint of a resource of the build has this path and method.
spec fn is_in_table(features: Features, path: Seq<char>, method: Method, r: int, e: int) -> bool {
    let resources = table::resources_of(features);
    &&& 0 <= r < resources.len()
    &&& 0 <= e < resources[r].endpoints.len()
    &&& resources[r].endpoints[e].path@ == path
    &&& resources[r].endpoints[e].method == method
}

proof fn lemma_served_is_in_table(features: Features, path: Seq<char>, method: Method) -> (at: (
    int,
    int,
))
    requires
        is_served(features, path, method),
        !(method == Method::Get && path == "/api/manifest"@),
    ensures
        is_in_table(features, path, method, at.0, at.1),
{
    let pool: int = if features.fs {
        3
    } else {
        0
    };
    let events: int = if features.browser_console {
        1
    } else {
        0
    };
    let consoles: int = if features.http_axum {
        1
    } else {
        0
    };
    let writing = 2 + pool + events;
    let vms = table::vms_resource(features).endpoints;
    if features.http_axum {
        assert(table::resources_of(features)[0] == table::vms_resource(features));
        assert(vms[0] == table::vms_reading()[0]);
        assert(vms[1] == table::vms_reading()[1]);
        if features.fs {
            assert(vms[2] == table::vms_pool()[0]);
            assert(vms[3] == table::vms_pool()[1]);
            assert(vms[4] == table::vms_pool()[2]);
        }
        if features.browser_console {
            assert(vms[2 + pool] == table::vms_events()[0]);
        }
        assert(vms[writing] == table::vms_writing()[0]);
        assert(vms[writing + 1] == table::vms_writing()[1]);
        assert(vms[writing + 2] == table::vms_writing()[2]);
        assert(vms[writing + 3] == table::vms_writing()[3]);
        assert(vms[writing + 4] == table::vms_writing()[4]);
        assert(vms[writing + 5] == table::vms_writing()[5]);
    }
    if features.browser_console {
        assert(table::resources_of(features)[consoles] == table::console_resource());
    }
    match method {
        Method::Get => if features.http_axum && path == "/api/vms"@ {
            (0, 0)
        } else if features.http_axum && path == "/api/vms/{id}"@ {
            (0, 1)
        } else if features.http_axum && features.fs && path == "/api/vms/pool"@ {
            (0, 2)
        } else if features.http_axum && features.fs && path == "/api/vms/browse"@ {
            (0, 4)
        } else if features.http_axum && features.browser_console && path == "/ws/events"@ {
            (0, 2 + pool)
        } else if path == "/api/consoles"@ {
            (consoles, 0)
        } else {
            (consoles, 1)
        },
        Method::Post => if features.fs && path == "/api/vms/pool"@ {
            (0, 3)
        } else if path == "/api/vms/create"@ {
            (0, writing + 1)
        } else if path == "/api/vms/{id}/start"@ {
            (0, writing + 2)
        } else if path == "/api/vms/{id}/stop"@ {
            (0, writing + 3)
        } else if path == "/api/vms/{id}/pause"@ {
            (0, writing + 4)
        } else {
            (0, writing + 5)
        },
        Method::Delete => (0, writing),
    }
}

/// A build mounts the routes of its parts, and no others.
pub proof fn law_routes_of_the_build(features: Features, path: Seq<char>, method: Method)
    ensures
        table::is_mounted(table::routes_of(features), path, method) <==> is_served(
            features,
            path,
            method,
        ),
{
    let routes = table::routes_of(features);
    let resources = table::resources_of(features);
    if table::is_mounted(routes, path, method) {
        let i = choose|i: int|
            0 <= i < routes.len() && (#[trigger] routes[i]).path@ == path && routes[i].method
                == method;
        law_routes_come_from_the_table(features, i);
        if routes[i] != table::manifest_mount() {
            let (r, e) = choose|r: int, e: int|
                0 <= r < resources.len() && 0 <= e < resources[r].endpoints.len()
                    && mounts_endpoint(routes[i], #[trigger] resources[r].endpoints[e]);
            lemma_table_is_served(features, r, e);
        }
    }
    if is_served(features, path, method) {
        if method == Method::Get && path == "/api/manifest"@ {
            law_manifest_is_mounted(features);
        } else {
            let (r, e) = lemma_served_is_in_table(features, path, method);
            law_every_endpoint_is_mounted(features, r, e);
        }
    }
}

/// Each route is answered by the handler that its path and method stand for.
pub proof fn law_handlers(features: Features, i: int)
    requires
        0 <= i < table::routes_of(features).len(),
    ensures
        ({
            let route = table::routes_of(features)[i];
            &&& route.handler == Handler::Manifest <==> route.path@ == "/api/manifest"@
            &&& route.handler == Handler::ListVms ==> route.path@ == "/api/vms"@ && route.method
                == Method::Get
            &&& route.handler == Handler::VmDetail ==> route.path@ == "/api/vms/{id}"@
                && route.method == Method::Get
            &&& route.handler == Handler::VmDelete ==> route.path@ == "/api/vms/{id}"@
                && route.method == Method::Delete
            &&& route.handler == Handler::VmPool ==> route.path@ == "/api/vms/pool"@
                && route.method == Method::Get
            &&& route.handler == Handler::VmPoolSave ==> route.path@ == "/api/vms/pool"@
                && route.method == Method::Post
            &&& route.handler == Handler::VmBrowse ==> route.path@ == "/api/vms/browse"@
                && route.method == Method::Get
            &&& route.handler == Handler::EventsStream ==> route.path@ == "/ws/events"@
                && route.method == Method::Get
            &&& route.handler == Handler::VmCreate ==> route.path@ == "/api/vms/create"@
                && route.method == Method::Post
            &&& route.handler == Handler::VmStart ==> route.path@ == "/api/vms/{id}/start"@
                && route.method == Method::Post
            &&& route.handler == Handler::VmStop ==> route.path@ == "/api/vms/{id}/stop"@
                && route.method == Method::Post
            &&& route.handler == Handler::VmPause ==> route.path@ == "/api/vms/{id}/pause"@
                && route.method == Method::Post
            &&& route.handler == Handler::VmResume ==> route.path@ == "/api/vms/{id}/resume"@
                && route.method == Method::Post
            &&& route.handler == Handler::ConsoleList ==> route.path@ == "/api/consoles"@
                && route.method == Method::Get
            &&& route.handler == Handler::ConsoleStream ==> route.path@ == "/ws/{endpoint}"@
                && route.method == Method::Get
        }),
{
    let route = table::routes_of(features)[i];
    let resources = table::resources_of(features);
    law_routes_come_from_the_table(features, i);
    if route != table::manifest_mount() {
        let (r, e) = choose|r: int, e: int|
            0 <= r < resources.len() && 0 <= e < resources[r].endpoints.len() && mounts_endpoint(
                route,
                #[trigger] resources[r].endpoints[e],
            );
        lemma_no_endpoint_is_the_manifest(features, r, e);
        lemma_endpoint_handler(features, r, e);
    }
}

proof fn lemma_endpoint_handler(features: Features, r: int, e: int)
    requires
        0 <= r < table::resources_of(features).len(),
        0 <= e < table::resources_of(features)[r].endpoints.len(),
    ensures
        ({
            let endpoint = table::resources_of(features)[r].endpoints[e];
            &&& endpoint.handler != Handler::Manifest
            &&& endpoint.handler == Handler::ListVms ==> endpoint.path@ == "/api/vms"@
                && endpoint.method == Method::Get
            &&& endpoint.handler == Handler::VmDetail ==> endpoint.path@ == "/api/vms/{id}"@
                && endpoint.method == Method::Get
            &&& endpoint.handler == Handler::VmDelete ==> endpoint.path@ == "/api/vms/{id}"@
                && endpoint.method == Method::Delete
            &&& endpoint.handler == Handler::VmPool ==> endpoint.path@ == "/api/vms/pool"@
                && endpoint.method == Method::Get
            &&& endpoint.handler == Handler::VmPoolSave ==> endpoint.path@ == "/api/vms/pool"@
                && endpoint.method == Method::Post
            &&& endpoint.handler == Handler::VmBrowse ==> endpoint.path@ == "/api/vms/browse"@
                && endpoint.method == Method::Get
            &&& endpoint.handler == Handler::EventsStream ==> endpoint.path@ == "/ws/events"@
                && endpoint.method == Method::Get
            &&& endpoint.handler == Handler::VmCreate ==> endpoint.path@ == "/api/vms/create"@
                && endpoint.method == Method::Post
            &&& endpoint.handler == Handler::VmStart ==> endpoint.path@ == "/api/vms/{id}/start"@
                && endpoint.method == Method::Post
            &&& endpoint.handler == Handler::VmStop ==> endpoint.path@ == "/api/vms/{id}/stop"@
                && endpoint.method == Method::Post
            &&& endpoint.handler == Handler::VmPause ==> endpoint.path@ == "/api/vms/{id}/pause"@
                && endpoint.method == Method::Post
            &&& endpoint.handler == Handler::VmResume ==> endpoint.path@
                == "/api/vms/{id}/resume"@ && endpoint.method == Method::Post
            &&& endpoint.handler == Handler::ConsoleList ==> endpoint.path@ == "/api/consoles"@
                && endpoint.method == Method::Get
            &&& endpoint.handler == Handler::ConsoleStream ==> endpoint.path@
                == "/ws/{endpoint}"@ && endpoint.method == Method::Get
        }),
{
}

/// What an endpoint is for agrees with its method: reading and streaming are
/// requests that change nothing, and writing is not one of those. A resource
/// declares every operation that its endpoints are for.
pub proof fn law_verbs(features: Features, r: int, e: int)
    requires
        0 <= r < table::resources_of(features).len(),
        0 <= e < table::resources_of(features)[r].endpoints.len(),
    ensures
        ({
            let resource = table::resources_of(features)[r];
            let endpoint = resource.endpoints[e];
            &&& endpoint.verb == Verb::Write <==> endpoint.method != Method::Get
            &&& endpoint.verb == Verb::Stream <==> endpoint.handler == Handler::ConsoleStream
            &&& resource.verbs.contains(endpoint.verb)
        }),
{
    let resource = table::resources_of(features)[r];
    assert(resource.verbs[0] == Verb::Read);
    assert(resource.verbs[1] == Verb::Write);
    if resource.verbs.len() == 3 {
        assert(resource.verbs[2] == Verb::Stream);
    }
}

/// Each endpoint is named after what it does.
pub proof fn law_endpoint_names(features: Features, r: int, e: int)
    requires
        0 <= r < table::resources_of(features).len(),
        0 <= e < table::resources_of(features)[r].endpoints.len(),
    ensures
        ({
            let endpoint = table::resources_of(features)[r].endpoints[e];
            endpoint.name@ == (match endpoint.handler {
                Handler::ListVms => "list"@,
                Handler::ConsoleList => "list"@,
                Handler::VmDetail => "detail"@,
                Handler::VmPool => "pool"@,
                Handler::VmPoolSave => "pool_save"@,
                Handler::VmBrowse => "browse"@,
                Handler::EventsStream => "events"@,
                Handler::VmDelete => "delete"@,
                Handler::VmCreate => "create"@,
                Handler::VmStart => "start"@,
                Handler::VmStop => "stop"@,
                Handler::VmPause => "pause"@,
                Handler::VmResume => "resume"@,
                Handler::ConsoleStream => "stream"@,
                Handler::Manifest => "manifest"@,
            })
        }),
{
}

/// A build serves the VMs first, then the consoles and the management lane,
/// each at most once; the VMs have three more endpoints with a host filesystem
/// and one more with terminals.
pub proof fn law_resource_kinds(features: Features)
    ensures
        ({
            let resources = table::resources_of(features);
            let vms: int = if features.http_axum {
                1
            } else {
                0
            };
            let terminals: int = if features.browser_console {
                2
            } else {
                0
            };
            &&& resources.len() == vms + terminals
            &&& features.http_axum ==> resources[0].kind@ == "vms"@ && resources[0].title@
                == "虚拟机"@ && resources[0].root@ == "/api/vms"@
            &&& features.browser_console ==> resources[vms].kind@ == "console"@
                && resources[vms].title@ == "客户机终端"@ && resources[vms].root@
                == "/api/consoles"@ && resources[vms].endpoints.len() == 2
            &&& features.browser_console ==> resources[vms + 1].kind@ == "shell"@ && resources[vms
                + 1].title@ == "管理终端"@ && resources[vms + 1].root@ == "/ws"@ && resources[vms
                + 1].endpoints.len() == 1
            &&& features.http_axum ==> resources[0].verbs == seq![Verb::Read, Verb::Write]
                && resources[0].endpoints.len() == 8 + (if features.fs {
                3int
            } else {
                0int
            }) + (if features.browser_console {
                1int
            } else {
                0int
            })
        }),
{
}

/// The views of resources keep them all, in order, each with its parts.
pub proof fn law_views(resources: Seq<Resource>)
    ensures
        resource_views(resources).len() == resources.len(),
        forall|i: int|
            0 <= i < resources.len() ==> (#[trigger] resource_views(resources)[i]).kind
                == resources[i].kind && resource_views(resources)[i].title == resources[i].title
                && resource_views(resources)[i].root == resources[i].root && resource_views(
                resources,
            )[i].verbs == resources[i].verbs@ && resource_views(resources)[i].endpoints
                == resources[i].endpoints@,
{
}

}
