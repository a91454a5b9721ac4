//! What a build of the hypervisor can serve.

pub mod table;
pub mod table_laws;

use vstd::prelude::*;

verus! {

/// Path of the manifest.
pub const MANIFEST_PATH: &'static str = "/api/manifest";

/// The optional parts of a build.
#[derive(Debug, Clone, Copy, PartialEq, Eq, Structural)]
pub struct Features {
    /// VM management over HTTP.
    pub http_axum: bool,
    /// Terminals in the browser.
    pub browser_console: bool,
    /// A host filesystem.
    pub fs: bool,
}

/// An HTTP method.
#[derive(Debug, Clone, Copy, PartialEq, Eq, Structural)]
pub enum Method {
    /// `GET`
    Get,
    /// `POST`
    Post,
    /// `DELETE`
    Delete,
}

/// What a panel may do with a resource.
#[derive(Debug, Clone, Copy, PartialEq, Eq, Structural)]
pub enum Verb {
    /// List and look at.
    Read,
    /// Create, start, stop, delete.
    Write,
    /// Follow live output on a socket.
    Stream,
}

/// What answers a route.
#[derive(Debug, Clone, Copy, PartialEq, Eq, Structural)]
pub enum Handler {
    /// Describes the build.
    Manifest,
    /// Lists the VMs.
    ListVms,
    /// Describes one VM.
    VmDetail,
    /// Lists the pool.
    VmPool,
    /// Stores a config in the pool.
    VmPoolSave,
    /// Browses a directory.
    VmBrowse,
    /// Streams registry changes.
    EventsStream,
    /// Deletes a VM.
    VmDelete,
    /// Creates a VM.
    VmCreate,
    /// Starts a VM.
    VmStart,
    /// Stops a VM.
    VmStop,
    /// Pauses a VM.
    VmPause,
    /// Resumes a VM.
    VmResume,
    /// Lists the consoles.
    ConsoleList,
    /// Streams a console.
    ConsoleStream,
}

/// One route of a resource.
#[derive(Debug, Clone, Copy)]
pub struct Endpoint {
    /// Name of the endpoint within its resource.
    pub name: &'static str,
    /// What it is for.
    pub verb: Verb,
    /// Method of the route.
    pub method: Method,
    /// Path of the route.
    pub path: &'static str,
    /// What answers it.
    pub handler: Handler,
}

/// One kind of thing that the dashboard has a panel for.
#[derive(Debug, Clone)]
pub struct Resource {
    /// Name of the kind.
    pub kind: &'static str,
    /// Title of the panel.
    pub title: &'static str,
    /// Where its routes begin.
    pub root: &'static str,
    /// What the panel may do.
    pub verbs: Vec<Verb>,
    /// Its routes.
    pub endpoints: Vec<Endpoint>,
}

/// The view of a [`Resource`].
#[verifier::ext_equal]
pub struct ResourceView {
    /// Name of the kind.
    pub kind: &'static str,
    /// Title of the panel.
    pub title: &'static str,
    /// Where its routes begin.
    pub root: &'static str,
    /// What the panel may do.
    pub verbs: Seq<Verb>,
    /// Its routes.
    pub endpoints: Seq<Endpoint>,
}

impl View for Resource {
    type V = ResourceView;

    open spec fn view(&self) -> ResourceView {
        ResourceView {
            kind: self.kind,
            title: self.title,
            root: self.root,
            verbs: self.verbs@,
            endpoints: self.endpoints@,
        }
    }
}

/// The views of a sequence of resources.
pub open spec fn resource_views(resources: Seq<Resource>) -> Seq<ResourceView> {
    resources.map_values(|resource: Resource| resource@)
}

}
