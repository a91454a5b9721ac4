//! The assets of the web management dashboard.
//!
//! The assets are written to the mounted root filesystem on startup, and served
//! back to browsers from there. The dashboard calls the management API from the
//! same origin.

use crate::report::{self, Level, LogLine, LogLineView};
use crate::text;
use vstd::prelude::*;

verus! {

/// Where the assets are written.
pub const WEB_ROOT: &'static str = "/web";

/// The type of a file that is not an asset.
pub const DEFAULT_MIME: &'static str = "application/octet-stream";

/// One asset.
#[derive(Debug, Clone, Copy)]
pub struct Asset {
    /// Name of the file.
    pub name: &'static str,
    /// Type of its content.
    pub mime: &'static str,
}

/// The assets.
pub open spec fn assets() -> Seq<Asset> {
    seq![
        Asset { name: "index.html", mime: "text/html; charset=utf-8" },
        Asset { name: "dashboard.js", mime: "text/javascript; charset=utf-8" },
        Asset { name: "style.css", mime: "text/css; charset=utf-8" },
    ]
}

/// The assets. Writing and serving walk the same table.
pub fn get_web_ui_assets() -> (r: Vec<Asset>)
    ensures
        r@ == assets(),
{
    vec![
        Asset { name: "index.html", mime: "text/html; charset=utf-8" },
        Asset { name: "dashboard.js", mime: "text/javascript; charset=utf-8" },
        Asset { name: "style.css", mime: "text/css; charset=utf-8" },
    ]
}

/// Path of the file `name`.
pub open spec fn path_of(name: Seq<char>) -> Seq<char> {
    "/web/"@ + name
}

/// Path of the file `name`.
pub fn asset_path(name: &str) -> (r: String)
    ensures
        r@ == path_of(name@),
{
    "/web/".to_string().concat(name)
}

/// What writing the assets needs next.
#[derive(Debug, Clone, PartialEq, Eq)]
pub enum InstallAction {
    /// Create this directory, with its parents.
    CreateDirectory(String),
    /// Write an asset.
    Write {
        /// Position of the asset in the table.
        asset: usize,
        /// Path to write it to.
        path: String,
    },
    /// Nothing: every asset has had its turn, or there is no place for them.
    Finished,
}

/// The view of an [`InstallAction`].
pub enum InstallActionView {
    /// Create this directory.
    CreateDirectory(Seq<char>),
    /// Write an asset.
    Write {
        /// Position of the asset in the table.
        asset: usize,
        /// Path to write it to.
        path: Seq<char>,
    },
    /// Nothing.
    Finished,
}

impl View for InstallAction {
    type V = InstallActionView;

    open spec fn view(&self) -> InstallActionView {
        match self {
            InstallAction::CreateDirectory(path) => InstallActionView::CreateDirectory(path@),
            InstallAction::Write { asset, path } => InstallActionView::Write {
                asset: *asset,
                path: path@,
            },
            InstallAction::Finished => InstallActionView::Finished,
        }
    }
}

/// The assets being written.
#[derive(Debug)]
pub struct Installer {
    assets: Vec<Asset>,
    created: bool,
    position: usize,
    log: Vec<LogLine>,
}

/// The view of an [`Installer`].
#[verifier::ext_equal]
pub struct InstallState {
    /// Whether the directory is there.
    pub created: bool,
    /// How many assets have had their turn.
    pub position: int,
    /// What came of it.
    pub log: Seq<LogLineView>,
}

impl View for Installer {
    type V = InstallState;

    closed spec fn view(&self) -> InstallState {
        InstallState {
            created: self.created,
            position: self.position as int,
            log: report::lines(self.log@),
        }
    }
}

impl Installer {
    /// Whether the installer walks the table.
    pub closed spec fn wf(&self) -> bool {
        &&& self.assets@ == assets()
        &&& self.position <= self.assets@.len()
    }
}

impl InstallState {
    /// The state at the beginning.
    pub open spec fn start() -> InstallState {
        InstallState { created: false, position: 0, log: Seq::empty() }
    }

    /// What is needed next.
    pub open spec fn action(self) -> InstallActionView {
        if self.position >= assets().len() {
            InstallActionView::Finished
        } else if !self.created {
            InstallActionView::CreateDirectory(WEB_ROOT@)
        } else {
            InstallActionView::Write {
                asset: self.position as usize,
                path: path_of(assets()[self.position].name@),
            }
        }
    }

    /// The state after trying to create the directory. Without it no asset is
    /// written.
    pub open spec fn created(self, result: Result<(), Seq<char>>) -> InstallState {
        match result {
            Ok(_) => InstallState { created: true, ..self },
            Err(error) => InstallState {
                position: assets().len() as int,
                log: self.log.push(
                    LogLineView {
                        level: Level::Warn,
                        text: "web-ui: failed to create "@ + WEB_ROOT@ + ": "@ + error,
                    },
                ),
                ..self
            },
        }
    }

    /// The state after trying to write an asset of `size` bytes. A failure does
    /// not stop the next one.
    pub open spec fn wrote(self, size: u64, result: Result<(), Seq<char>>) -> InstallState {
        let path = path_of(assets()[self.position].name@);
        InstallState {
            position: self.position + 1,
            log: self.log.push(
                match result {
                    Ok(_) => LogLineView {
                        level: Level::Info,
                        text: "web-ui: wrote "@ + path + " ("@ + text::decimal(size as nat)
                            + " bytes)"@,
                    },
                    Err(error) => LogLineView {
                        level: Level::Warn,
                        text: "web-ui: failed to write "@ + path + ": "@ + error,
                    },
                },
            ),
            ..self
        }
    }
}

/// Starts writing the assets. They are written unconditionally, so that what a
/// previous boot left is always refreshed.
pub fn init() -> (r: Installer)
    ensures
        r@ == InstallState::start(),
        r.wf(),
{
    let r = Installer {
        assets: get_web_ui_assets(),
        created: false,
        position: 0,
        log: Vec::new(),
    };
    assert(r@ =~= InstallState::start());
    r
}

impl Installer {
    /// What is needed from the filesystem next.
    pub fn action(&self) -> (r: InstallAction)
        requires
            self.wf(),
        ensures
            r@ == self@.action(),
    {
        if self.position >= self.assets.len() {
            InstallAction::Finished
        } else if !self.created {
            InstallAction::CreateDirectory(WEB_ROOT.to_string())
        } else {
            InstallAction::Write {
                asset: self.position,
                path: asset_path(self.assets[self.position].name),
            }
        }
    }

    /// Hands over what came of creating the directory.
    pub fn create(&mut self, result: Result<(), String>)
        requires
            old(self).wf(),
            old(self)@.action() is CreateDirectory,
        ensures
            final(self).wf(),
            final(self)@ == old(self)@.created(text::answer(result)),
    {
        match result {
            Ok(_) => {
                self.created = true;
            },
            Err(error) => {
                let text: String = "web-ui: failed to create ".to_string().concat(WEB_ROOT).concat(
                    ": ",
                ).concat(error.as_str());
                self.log.push(LogLine { level: Level::Warn, text });
                self.position = self.assets.len();
            },
        }
        assert(self@ =~= old(self)@.created(text::answer(result)));
    }

    /// Hands over what came of writing the asset in hand, and its size.
    pub fn write(&mut self, size: u64, result: Result<(), String>)
        requires
            old(self).wf(),
            old(self)@.action() is Write,
        ensures
            final(self).wf(),
            final(self)@ == old(self)@.wrote(size, text::answer(result)),
    {
        let path: String = asset_path(self.assets[self.position].name);
        let line: LogLine = match result {
            Ok(_) => {
                let bytes: String = text::number(size);
                LogLine {
                    level: Level::Info,
                    text: "web-ui: wrote ".to_string().concat(path.as_str()).concat(" (").concat(
                        bytes.as_str(),
                    ).concat(" bytes)"),
                }
            },
            Err(error) => LogLine {
                level: Level::Warn,
                text: "web-ui: failed to write ".to_string().concat(path.as_str()).concat(
                    ": ",
                ).concat(error.as_str()),
            },
        };
        self.log.push(line);
        self.position = self.position + 1;
        assert(self@ =~= old(self)@.wrote(size, text::answer(result)));
    }

    /// What came of it, for the host log.
    pub fn into_log(self) -> (r: Vec<LogLine>)
        ensures
            report::lines(r@) == self@.log,
    {
        self.log
    }
}

/// The routes of the dashboard.
pub open spec fn routes() -> Seq<&'static str> {
    seq!["/", "/style.css", "/dashboard.js"]
}

/// Routes for the web dashboard assets.
///
/// Only the exact asset paths are registered (no wildcard), so an unknown path
/// like `/favicon.ico` falls through to 404 instead of probing the filesystem.
pub fn ui_routes() -> (r: Vec<&'static str>)
    ensures
        r@ == routes(),
{
    vec!["/", "/style.css", "/dashboard.js"]
}

/// The asset that a request for `path` is for.
pub open spec fn requested(path: Seq<char>) -> Seq<char> {
    let name = text::strip_leading(path, '/');
    if name.len() == 0 {
        "index.html"@
    } else {
        name
    }
}

/// The asset that a request for `path` is for.
pub fn requested_asset(path: &str) -> (r: String)
    ensures
        r@ == requested(path@),
{
    let name: &str = text::trim_start_matches(path, '/');
    if name.is_empty() {
        "index.html".to_string()
    } else {
        name.to_string()
    }
}

/// The type of the first of `table` that is named `name`.
pub open spec fn mime_in(table: Seq<Asset>, name: Seq<char>) -> Seq<char>
    decreases table.len(),
{
    if table.len() == 0 {
        DEFAULT_MIME@
    } else if table[0].name@ == name {
        table[0].mime@
    } else {
        mime_in(table.drop_first(), name)
    }
}

/// The type of the file `name`.
pub fn mime_of(name: &str) -> (r: &'static str)
    ensures
        r@ == mime_in(assets(), name@),
{
    let table: Vec<Asset> = get_web_ui_assets();
    let mut i: usize = 0;
    assert(table@.skip(0) =~= table@);
    while i < table.len()
        invariant
            i <= table.len(),
            table@ == assets(),
            mime_in(assets(), name@) == mime_in(table@.skip(i as int), name@),
        decreases table.len() - i,
    {
        if text::same(table[i].name, name) {
            return table[i].mime;
        }
        assert(table@.skip(i as int).drop_first() =~= table@.skip(i + 1));
        i = i + 1;
    }
    DEFAULT_MIME
}

/// The answer to a request for an asset.
#[derive(Debug, Clone, PartialEq, Eq)]
pub struct AssetResponse {
    /// The status code.
    pub status: u16,
    /// The type of the body.
    pub content_type: &'static str,
    /// The body.
    pub body: Vec<u8>,
}

/// Path of the file that a request for `path` reads.
pub fn serve_asset(path: &str) -> (r: String)
    ensures
        r@ == path_of(requested(path@)),
{
    let name: String = requested_asset(path);
    asset_path(name.as_str())
}

/// The view of an [`AssetResponse`].
#[verifier::ext_equal]
pub struct AssetResponseView {
    /// The status code.
    pub status: u16,
    /// The type of the body.
    pub content_type: Seq<char>,
    /// The body.
    pub body: Seq<u8>,
}

impl View for AssetResponse {
    type V = AssetResponseView;

    open spec fn view(&self) -> AssetResponseView {
        AssetResponseView {
            status: self.status,
            content_type: self.content_type@,
            body: self.body@,
        }
    }
}

/// The answer to a request for `path`, where `data` is what its file holds.
pub open spec fn response_of(path: Seq<char>, data: Option<Seq<u8>>) -> AssetResponseView {
    match data {
        Some(data) => AssetResponseView {
            status: 200,
            content_type: mime_in(assets(), requested(path)),
            body: data,
        },
        None => AssetResponseView {
            status: 404,
            content_type: "text/plain; charset=utf-8"@,
            body: vstd::utf8::encode_utf8("Not Found"@),
        },
    }
}

/// A file that is there is served as it is, whatever it holds and whatever its
/// name; one that is not there is a 404.
pub proof fn law_response(path: Seq<char>, data: Seq<u8>, response: AssetResponse)
    ensures
        response_of(path, Some(data)).status == 200,
        response_of(path, Some(data)).body == data,
        response_of(path, Some(data)).content_type == mime_in(assets(), requested(path)),
        response_of(path, None).status == 404,
        response_of(path, None).content_type == "text/plain; charset=utf-8"@,
        response_of(path, None).body == vstd::utf8::encode_utf8("Not Found"@),
        response@.status == response.status,
        response@.content_type == response.content_type@,
        response@.body == response.body@,
{
}

/// The answer to a request for `path`, where `data` is what its file holds.
pub fn respond(path: &str, data: Option<Vec<u8>>) -> (r: AssetResponse)
    ensures
        r@ == response_of(path@, match data {
            Some(data) => Some(data@),
            None => None,
        }),
        match data {
            Some(data) => r.status == 200 && r.content_type@ == mime_in(assets(), requested(path@))
                && r.body@ == data@,
            None => r.status == 404 && r.content_type@ == "text/plain; charset=utf-8"@ && r.body@
                == vstd::utf8::encode_utf8("Not Found"@),
        },
{
    match data {
        Some(data) => {
            let name: String = requested_asset(path);
            AssetResponse { status: 200, content_type: mime_of(name.as_str()), body: data }
        },
        None => AssetResponse {
            status: 404,
            content_type: "text/plain; charset=utf-8",
            body: "Not Found".as_bytes_vec(),
        },
    }
}

/// The state after writing the assets, each handed over with its size and what
/// came of it.
pub open spec fn installed(
    state: InstallState,
    sizes: Seq<u64>,
    results: Seq<Result<(), Seq<char>>>,
    n: nat,
) -> InstallState
    decreases n,
{
    if n == 0 {
        state
    } else {
        let before = installed(state, sizes, results, (n - 1) as nat);
        before.wrote(sizes[n - 1], results[n - 1])
    }
}

/// Once there is a place for them, every asset has its turn, whatever becomes
/// of the others, and every turn is logged.
pub proof fn law_every_asset_has_its_turn(
    sizes: Seq<u64>,
    results: Seq<Result<(), Seq<char>>>,
    n: nat,
)
    requires
        n <= assets().len(),
    ensures
        ({
            let state = installed(
                InstallState::start().created(Ok(())),
                sizes,
                results,
                n,
            );
            &&& state.log.len() == n
            &&& n < assets().len() ==> state.action() == (InstallActionView::Write {
                asset: n as usize,
                path: path_of(assets()[n as int].name@),
            })
            &&& n == assets().len() ==> state.action() is Finished
        }),
    decreases n,
{
    lemma_installed(sizes, results, n);
}

proof fn lemma_installed(sizes: Seq<u64>, results: Seq<Result<(), Seq<char>>>, n: nat)
    requires
        n <= assets().len(),
    ensures
        ({
            let state = installed(
                InstallState::start().created(Ok(())),
                sizes,
                results,
                n,
            );
            state.log.len() == n && state.position == n && state.created
        }),
    decreases n,
{
    if n > 0 {
        lemma_installed(sizes, results, (n - 1) as nat);
    }
}

/// Without a place for them no asset is written: the failure is logged, and
/// that is all.
pub proof fn law_no_root_no_assets(error: Seq<char>)
    ensures
        InstallState::start().created(Err(error)).action() is Finished,
        InstallState::start().created(Err(error)).log.len() == 1,
{
}

proof fn lemma_strip_one(name: Seq<char>)
    requires
        name.len() > 0,
        name[0] != '/',
    ensures
        text::strip_leading(seq!['/'] + name, '/') == name,
{
    let path = seq!['/'] + name;
    assert(path[0] == '/');
    assert(path.drop_first() =~= name);
    reveal_with_fuel(text::strip_start, 2);
}

/// Every route of the dashboard is for an asset of the table, so it is served
/// with the type of that asset.
pub proof fn law_routes_serve_assets(i: int)
    requires
        0 <= i < routes().len(),
    ensures
        exists|k: int|
            0 <= k < assets().len() && requested(routes()[i]@) == (#[trigger] assets()[k]).name@
                && mime_in(assets(), requested(routes()[i]@)) == assets()[k].mime@,
{
    reveal_strlit("/");
    reveal_strlit("/style.css");
    reveal_strlit("/dashboard.js");
    reveal_strlit("style.css");
    reveal_strlit("dashboard.js");
    reveal_strlit("index.html");
    reveal_with_fuel(mime_in, 4);
    let table = assets();
    assert(table.drop_first()[0] == table[1]);
    assert(table.drop_first().drop_first()[0] == table[2]);
    assert("style.css"@.len() == 9);
    assert("dashboard.js"@.len() == 12);
    assert("index.html"@.len() == 10);
    if i == 0 {
        assert("/"@.drop_first() =~= Seq::<char>::empty());
        reveal_with_fuel(text::strip_start, 2);
        assert(requested(routes()[i]@) == table[0].name@);
    } else if i == 1 {
        lemma_strip_one("style.css"@);
        assert("/style.css"@ =~= seq!['/'] + "style.css"@);
        assert(requested(routes()[i]@) == table[2].name@);
    } else {
        lemma_strip_one("dashboard.js"@);
        assert("/dashboard.js"@ =~= seq!['/'] + "dashboard.js"@);
        assert(requested(routes()[i]@) == table[1].name@);
    }
}

/// A request is for the file that follows its leading separators, however many
/// there are; for `index.html` where nothing follows them.
pub proof fn law_requested(n: nat, name: Seq<char>)
    requires
        name.len() > 0 ==> name[0] != '/',
    ensures
        name.len() > 0 ==> requested(Seq::new(n, |i: int| '/') + name) == name,
        name.len() == 0 ==> requested(Seq::new(n, |i: int| '/') + name) == "index.html"@,
{
    crate::text_laws::law_strip_leading(n, name, '/');
}

/// A file lies in the directory of the assets, under its own name.
pub proof fn law_asset_path(name: Seq<char>)
    ensures
        path_of(name) == WEB_ROOT@.push('/') + name,
        WEB_ROOT@ == "/web"@,
{
    reveal_strlit("/web");
    reveal_strlit("/web/");
    assert(path_of(name) =~= WEB_ROOT@.push('/') + name);
}

/// A file has the type of the first asset of its name, and the default type
/// where no asset has the name.
pub proof fn law_mime(table: Seq<Asset>, name: Seq<char>)
    ensures
        (forall|i: int| 0 <= i < table.len() ==> (#[trigger] table[i]).name@ != name) ==> mime_in(
            table,
            name,
        ) == "application/octet-stream"@,
        forall|i: int|
            0 <= i < table.len() && (#[trigger] table[i]).name@ == name && (forall|j: int|
                0 <= j < i ==> (#[trigger] table[j]).name@ != name) ==> mime_in(table, name)
                == table[i].mime@,
    decreases table.len(),
{
    if table.len() > 0 {
        let rest = table.drop_first();
        law_mime(rest, name);
        if table[0].name@ != name {
            if forall|i: int| 0 <= i < table.len() ==> (#[trigger] table[i]).name@ != name {
                assert forall|i: int| 0 <= i < rest.len() implies (#[trigger] rest[i]).name@
                    != name by {
                    assert(rest[i] == table[i + 1]);
                }
            }
            assert forall|i: int|
                0 <= i < table.len() && (#[trigger] table[i]).name@ == name && (forall|j: int|
                    0 <= j < i ==> (#[trigger] table[j]).name@ != name) implies mime_in(
                table,
                name,
            ) == table[i].mime@ by {
                assert(rest[i - 1] == table[i]);
                assert forall|j: int| 0 <= j < i - 1 implies (#[trigger] rest[j]).name@ != name by {
                    assert(rest[j] == table[j + 1]);
                }
            }
        }
    }
}

/// Every turn is logged with the path of its asset: as a normal state with the
/// size where it was written, and else as a warning with the error. So is a
/// directory that cannot be created.
pub proof fn law_install_log(state: InstallState, size: u64, error: Seq<char>)
    requires
        0 <= state.position < assets().len(),
    ensures
        ({
            let path = WEB_ROOT@.push('/') + assets()[state.position].name@;
            let wrote = state.wrote(size, Ok(()));
            let failed = state.wrote(size, Err(error));
            let refused = state.created(Err(error));
            &&& wrote.log == state.log.push(
                LogLineView {
                    level: Level::Info,
                    text: "web-ui: wrote "@ + path + " ("@ + text::decimal(size as nat)
                        + " bytes)"@,
                },
            )
            &&& failed.log == state.log.push(
                LogLineView {
                    level: Level::Warn,
                    text: "web-ui: failed to write "@ + path + ": "@ + error,
                },
            )
            &&& refused.log == state.log.push(
                LogLineView {
                    level: Level::Warn,
                    text: "web-ui: failed to create "@ + "/web"@ + ": "@ + error,
                },
            )
            &&& wrote.position == state.position + 1
            &&& failed.position == state.position + 1
            &&& state.created(Ok(())).log == state.log
        }),
{
    law_asset_path(assets()[state.position].name@);
}

/// The views of what writing the assets asks for keep every part of them.
pub proof fn law_views(asset: usize, path: String)
    ensures
        InstallAction::CreateDirectory(path)@ == InstallActionView::CreateDirectory(path@),
        (InstallAction::Write { asset, path })@ == (InstallActionView::Write {
            asset,
            path: path@,
        }),
        InstallAction::Finished@ == InstallActionView::Finished,
{
}

}
