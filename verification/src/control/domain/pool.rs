//! Candidate guest configs that a start request may create on demand.
//!
//! The pool is a list of directories of guest config TOML files. A pool entry
//! is only a candidate: nothing in these directories is created at startup, so
//! an idle pool costs no guest memory and may list more guests than the machine
//! can run at once.
//!
//! Files that cannot be used become [`Issue`] values instead of disappearing,
//! so the shell and the control plane can report why a file in the pool does
//! nothing. A config that parses but names a guest image the filesystem does
//! not have is one of those values: it is a pool file that cannot become a VM.
//!
//! This module holds the results; [`super::scan`] and [`super::browse`] produce
//! them from what the filesystem answers, and [`super::save`] writes new files.

pub use super::browse::{browse, Browser, Directory, Folder};
pub use super::save::{ensure_directories, save, save_in, EnsuringAll, SaveError, Saver};
pub use super::scan::{scan, scan_dir, scan_dirs, Scanner};
pub use super::startup::{log_startup_state, Startup};

use crate::report::{self, Level, LogLine, LogLineView};
use crate::text;
use vstd::prelude::*;

verus! {

/// Directory the pool is read from when the build config does not override it.
pub const DEFAULT_POOL_DIR: &'static str = "/guest/vm_pool";

/// Directory of configs that the startup path creates as the default guest set.
pub const DEFAULT_VM_CONFIG_DIR: &'static str = "/guest/vm_default";

/// The configured pool directory, or the default one.
pub open spec fn directory_of(configured: Option<&str>) -> Seq<char> {
    match configured {
        Some(path) => path@,
        None => DEFAULT_POOL_DIR@,
    }
}

/// `known` with `directory` appended, unless it is blank or known already.
pub open spec fn with_source(known: Seq<Seq<char>>, directory: Seq<char>) -> Seq<Seq<char>> {
    let directory = text::trimmed(directory);
    if directory.len() == 0 || known.contains(directory) {
        known
    } else {
        known.push(directory)
    }
}

/// `known` with each of `directories` appended in turn.
pub open spec fn with_sources(known: Seq<Seq<char>>, directories: Seq<Seq<char>>) -> Seq<Seq<char>>
    decreases directories.len(),
{
    if directories.len() == 0 {
        known
    } else {
        with_source(with_sources(known, directories.drop_last()), directories.last())
    }
}

/// Every directory the pool names: the drop-in directory, and the
/// `:`-separated extra ones.
pub open spec fn named_directories(pool: Option<&str>, extra: Option<&str>) -> Seq<Seq<char>> {
    seq![directory_of(pool)] + text::split(
        match extra {
            Some(list) => list@,
            None => Seq::empty(),
        },
        ':',
    )
}

/// Every directory the pool is read from, in precedence order.
pub open spec fn sources_of(pool: Option<&str>, extra: Option<&str>) -> Seq<Seq<char>> {
    with_sources(Seq::empty(), named_directories(pool, extra))
}

/// Pool directory: the configured one wins over [`DEFAULT_POOL_DIR`].
pub fn directory<'a>(configured: Option<&'a str>) -> (r: &'a str)
    ensures
        r@ == directory_of(configured),
{
    match configured {
        Some(path) => path,
        None => DEFAULT_POOL_DIR,
    }
}

/// Appends `directory` to `sources`, unless it is blank or there already.
fn push_source(sources: &mut Vec<String>, directory: &str)
    ensures
        text::views(final(sources)@) == with_source(text::views(old(sources)@), directory@),
{
    let directory: &str = text::trim(directory);
    let known: bool = text::contains_text(sources, directory);
    proof {
        text::lemma_among(sources@, directory@);
    }
    if !directory.is_empty() && !known {
        sources.push(directory.to_string());
        assert(text::views(sources@) =~= text::views(old(sources)@).push(directory@));
    }
}

/// Every directory the pool is read from, in precedence order.
///
/// The drop-in directory comes first, so a config the operator puts there wins
/// over one of the same id from an extra directory; `extra` appends
/// `:`-separated directories for a host that keeps its configs elsewhere. The
/// startup directory is deliberately not part of this list: its configs are
/// already registered as the default guest set, so listing them again would
/// offer every default guest as a candidate for an id that is taken.
pub fn sources(pool: Option<&str>, extra: Option<&str>) -> (r: Vec<String>)
    ensures
        text::views(r@) == sources_of(pool, extra),
{
    let mut sources: Vec<String> = Vec::new();
    let drop_in: &str = directory(pool);
    push_source(&mut sources, drop_in);
    let list: &str = match extra {
        Some(list) => list,
        None => "",
    };
    proof {
        reveal_strlit("");
        assert(list@ =~= match extra {
            Some(list) => list@,
            None => Seq::empty(),
        });
    }
    let pieces: Vec<String> = text::split_at_char(list, ':');
    let ghost named = named_directories(pool, extra);
    let mut i: usize = 0;
    assert(named.take(1).drop_last() =~= Seq::empty());
    assert(text::views(sources@) == with_sources(Seq::empty(), named.take(1))) by {
        assert(text::views(Seq::<String>::empty()) =~= Seq::empty());
        reveal_with_fuel(with_sources, 2);
    }
    while i < pieces.len()
        invariant
            i <= pieces.len(),
            named == seq![directory_of(pool)] + text::views(pieces@),
            text::views(sources@) == with_sources(Seq::empty(), named.take(i + 1)),
        decreases pieces.len() - i,
    {
        push_source(&mut sources, pieces[i].as_str());
        assert(named.take(i + 2).drop_last() =~= named.take(i + 1));
        assert(named.take(i + 2).last() == pieces@[i as int]@);
        i = i + 1;
    }
    assert(named.take(i + 1) =~= named);
    sources
}

/// One pool config that a start request can turn into a running VM.
#[derive(Debug, Clone, PartialEq, Eq)]
pub struct Entry {
    path: String,
    source: String,
    id: usize,
    name: String,
    toml: String,
}

/// The view of an [`Entry`].
pub struct EntryView {
    /// Path of the config file.
    pub path: Seq<char>,
    /// Directory the entry was read from.
    pub source: Seq<char>,
    /// `base.id` of the config.
    pub id: usize,
    /// `base.name` of the config.
    pub name: Seq<char>,
    /// The text of the config file.
    pub toml: Seq<char>,
}

impl View for Entry {
    type V = EntryView;

    closed spec fn view(&self) -> EntryView {
        EntryView {
            path: self.path@,
            source: self.source@,
            id: self.id,
            name: self.name@,
            toml: self.toml@,
        }
    }
}

impl Entry {
    /// An entry with the given parts.
    pub(crate) fn new(path: String, source: String, id: usize, name: String, toml: String) -> (r:
        Entry)
        ensures
            r@ == (EntryView { path: path@, source: source@, id, name: name@, toml: toml@ }),
    {
        Entry { path, source, id, name, toml }
    }

    /// Path of the config file, as reported by the filesystem.
    pub fn path(&self) -> (r: &str)
        ensures
            r@ == self@.path,
    {
        self.path.as_str()
    }

    /// Directory this entry was read from.
    pub fn source(&self) -> (r: &str)
        ensures
            r@ == self@.source,
    {
        self.source.as_str()
    }

    /// `base.id` the config asks for, which is also the runtime VM id.
    pub fn id(&self) -> (r: usize)
        ensures
            r == self@.id,
    {
        self.id
    }

    /// `base.name` from the config.
    pub fn name(&self) -> (r: &str)
        ensures
            r@ == self@.name,
    {
        self.name.as_str()
    }

    /// Raw TOML text, for callers that create the VM themselves.
    pub fn toml(&self) -> (r: &str)
        ensures
            r@ == self@.toml,
    {
        self.toml.as_str()
    }
}

/// The views of a sequence of entries.
pub open spec fn entry_views(entries: Seq<Entry>) -> Seq<EntryView> {
    entries.map_values(|entry: Entry| entry@)
}

/// Why one pool file cannot be started.
#[derive(Debug, Clone, PartialEq, Eq)]
pub enum IssueKind {
    /// The pool directory is missing or cannot be opened; the pool is empty.
    DirectoryUnavailable(String),
    /// The file exists but could not be read as UTF-8 text.
    Unreadable(String),
    /// The file holds no text at all.
    Empty,
    /// The file is not a guest config TOML document.
    InvalidToml(String),
    /// An earlier file in the same scan already claims this `base.id`, so this
    /// config cannot be registered while that one is in the pool.
    DuplicateId {
        /// The id both files ask for.
        id: usize,
        /// Path of the file that has it.
        claimed_by: String,
    },
    /// The config reads its guest images from the filesystem and names one that
    /// does not exist, so creating it would fail partway through.
    MissingImage(String),
}

/// The view of an [`IssueKind`].
pub enum IssueKindView {
    /// The directory is missing or cannot be opened.
    DirectoryUnavailable(Seq<char>),
    /// The file could not be read as text.
    Unreadable(Seq<char>),
    /// The file holds no text at all.
    Empty,
    /// The file is not a guest config.
    InvalidToml(Seq<char>),
    /// An earlier file claims the id.
    DuplicateId {
        /// The id both files ask for.
        id: usize,
        /// Path of the file that has it.
        claimed_by: Seq<char>,
    },
    /// The config names an image that does not exist.
    MissingImage(Seq<char>),
}

impl View for IssueKind {
    type V = IssueKindView;

    open spec fn view(&self) -> IssueKindView {
        match self {
            IssueKind::DirectoryUnavailable(error) => IssueKindView::DirectoryUnavailable(error@),
            IssueKind::Unreadable(error) => IssueKindView::Unreadable(error@),
            IssueKind::Empty => IssueKindView::Empty,
            IssueKind::InvalidToml(error) => IssueKindView::InvalidToml(error@),
            IssueKind::DuplicateId { id, claimed_by } => IssueKindView::DuplicateId {
                id: *id,
                claimed_by: claimed_by@,
            },
            IssueKind::MissingImage(path) => IssueKindView::MissingImage(path@),
        }
    }
}

impl IssueKindView {
    /// Stable token naming the kind.
    pub open spec fn token(self) -> Seq<char> {
        match self {
            IssueKindView::DirectoryUnavailable(_) => "directory-unavailable"@,
            IssueKindView::Unreadable(_) => "unreadable"@,
            IssueKindView::Empty => "empty"@,
            IssueKindView::InvalidToml(_) => "invalid-toml"@,
            IssueKindView::DuplicateId { .. } => "duplicate-id"@,
            IssueKindView::MissingImage(_) => "missing-image"@,
        }
    }

    /// Human-facing text.
    pub open spec fn message(self) -> Seq<char> {
        match self {
            IssueKindView::DirectoryUnavailable(error) => "directory is unavailable: "@ + error,
            IssueKindView::Unreadable(error) => "cannot be read: "@ + error,
            IssueKindView::Empty => "is empty"@,
            IssueKindView::InvalidToml(error) => "is not a guest config: "@ + error,
            IssueKindView::DuplicateId { id, claimed_by } => "asks for VM id "@ + text::decimal(
                id as nat,
            ) + ", which `"@ + claimed_by + "` already claims in this pool"@,
            IssueKindView::MissingImage(path) => "names an image that does not exist: "@ + path,
        }
    }
}

/// The token tells the kinds apart: two issues with the same token are of the
/// same kind, so clients may match on it.
pub proof fn law_token_tells_the_kind(a: IssueKindView, b: IssueKindView)
    requires
        a.token() == b.token(),
    ensures
        a is DirectoryUnavailable <==> b is DirectoryUnavailable,
        a is Unreadable <==> b is Unreadable,
        a is Empty <==> b is Empty,
        a is InvalidToml <==> b is InvalidToml,
        a is DuplicateId <==> b is DuplicateId,
        a is MissingImage <==> b is MissingImage,
{
    reveal_strlit("directory-unavailable");
    reveal_strlit("unreadable");
    reveal_strlit("empty");
    reveal_strlit("invalid-toml");
    reveal_strlit("duplicate-id");
    reveal_strlit("missing-image");
    assert("directory-unavailable"@.len() == 21);
    assert("unreadable"@.len() == 10);
    assert("empty"@.len() == 5);
    assert("invalid-toml"@.len() == 12);
    assert("duplicate-id"@.len() == 12);
    assert("missing-image"@.len() == 13);
    assert(a.token()[0] == b.token()[0]);
    assert("invalid-toml"@[0] == 'i');
    assert("duplicate-id"@[0] == 'd');
}

impl IssueKind {
    /// Stable token naming the kind, for machine readers such as the control
    /// plane's JSON. The text of [`IssueKind::to_text`] is human-facing and may
    /// change; this token is the part clients may match on.
    pub fn as_str(&self) -> (r: &'static str)
        ensures
            r@ == self@.token(),
    {
        match self {
            IssueKind::DirectoryUnavailable(_) => "directory-unavailable",
            IssueKind::Unreadable(_) => "unreadable",
            IssueKind::Empty => "empty",
            IssueKind::InvalidToml(_) => "invalid-toml",
            IssueKind::DuplicateId { .. } => "duplicate-id",
            IssueKind::MissingImage(_) => "missing-image",
        }
    }

    /// Human-facing text.
    pub fn to_text(&self) -> (r: String)
        ensures
            r@ == self@.message(),
    {
        match self {
            IssueKind::DirectoryUnavailable(error) => "directory is unavailable: ".to_string().concat(
                error.as_str(),
            ),
            IssueKind::Unreadable(error) => "cannot be read: ".to_string().concat(error.as_str()),
            IssueKind::Empty => "is empty".to_string(),
            IssueKind::InvalidToml(error) => "is not a guest config: ".to_string().concat(
                error.as_str(),
            ),
            IssueKind::DuplicateId { id, claimed_by } => {
                let number: String = text::number(*id as u64);
                "asks for VM id ".to_string().concat(number.as_str()).concat(", which `").concat(
                    claimed_by.as_str(),
                ).concat("` already claims in this pool")
            },
            IssueKind::MissingImage(path) => "names an image that does not exist: ".to_string().concat(
                path.as_str(),
            ),
        }
    }
}

/// One unusable pool file, or the pool directory itself.
#[derive(Debug, Clone, PartialEq, Eq)]
pub struct Issue {
    path: String,
    kind: IssueKind,
}

/// The view of an [`Issue`].
pub struct IssueView {
    /// The path the issue is about.
    pub path: Seq<char>,
    /// What is wrong with it.
    pub kind: IssueKindView,
}

impl View for Issue {
    type V = IssueView;

    closed spec fn view(&self) -> IssueView {
        IssueView { path: self.path@, kind: self.kind@ }
    }
}

impl IssueView {
    /// Human-facing text.
    pub open spec fn message(self) -> Seq<char> {
        self.path + ": "@ + self.kind.message()
    }
}

impl Issue {
    /// The issue `kind` about `path`.
    pub(crate) fn new(path: String, kind: IssueKind) -> (r: Issue)
        ensures
            r@ == (IssueView { path: path@, kind: kind@ }),
    {
        Issue { path, kind }
    }

    /// Path of the file that could not be used, or of the directory itself.
    pub fn path(&self) -> (r: &str)
        ensures
            r@ == self@.path,
    {
        self.path.as_str()
    }

    /// What is wrong with the reported path.
    pub fn kind(&self) -> (r: &IssueKind)
        ensures
            r@ == self@.kind,
    {
        &self.kind
    }

    /// Human-facing text.
    pub fn to_text(&self) -> (r: String)
        ensures
            r@ == self@.message(),
    {
        let kind: String = self.kind.to_text();
        self.path.clone().concat(": ").concat(kind.as_str())
    }
}

/// The views of a sequence of issues.
pub open spec fn issue_views(issues: Seq<Issue>) -> Seq<IssueView> {
    issues.map_values(|issue: Issue| issue@)
}

/// Result of one pool scan.
#[derive(Debug, Clone, PartialEq, Eq)]
pub struct Pool {
    directory: String,
    sources: Vec<String>,
    entries: Vec<Entry>,
    issues: Vec<Issue>,
}

/// The view of a [`Pool`].
#[verifier::ext_equal]
pub struct PoolView {
    /// First directory the scan read.
    pub directory: Seq<char>,
    /// Every directory the scan read, in precedence order.
    pub sources: Seq<Seq<char>>,
    /// Startable configs.
    pub entries: Seq<EntryView>,
    /// Files that could not become an entry.
    pub issues: Seq<IssueView>,
}

impl View for Pool {
    type V = PoolView;

    closed spec fn view(&self) -> PoolView {
        PoolView {
            directory: self.directory@,
            sources: text::views(self.sources@),
            entries: entry_views(self.entries@),
            issues: issue_views(self.issues@),
        }
    }
}

/// The position of the first of `entries` that claims `id`, or their number.
pub open spec fn claim_position(entries: Seq<EntryView>, id: usize) -> int
    decreases entries.len(),
{
    if entries.len() == 0 {
        0
    } else if entries[0].id == id {
        0
    } else {
        1 + claim_position(entries.drop_first(), id)
    }
}

/// The first of `entries` that claims `id`.
pub open spec fn claim(entries: Seq<EntryView>, id: usize) -> Option<EntryView> {
    let i = claim_position(entries, id);
    if i < entries.len() {
        Some(entries[i])
    } else {
        None
    }
}

/// Whether no two of `entries` claim the same id.
pub open spec fn distinct_ids(entries: Seq<EntryView>) -> bool {
    forall|i: int, j: int|
        0 <= i < j < entries.len() ==> (#[trigger] entries[i]).id != (#[trigger] entries[j]).id
}

/// Whether every config reported for asking for a taken id names the entry that
/// has it.
pub open spec fn duplicates_justified(entries: Seq<EntryView>, issues: Seq<IssueView>) -> bool {
    forall|i: int|
        #![trigger issues[i]]
        0 <= i < issues.len() && issues[i].kind is DuplicateId ==> claim(
            entries,
            issues[i].kind->DuplicateId_id,
        ) is Some && claim(entries, issues[i].kind->DuplicateId_id)->0.path
            == issues[i].kind->claimed_by
}

impl PoolView {
    /// What holds of every pool: no two entries claim the same id, every config
    /// reported for asking for a taken id names the entry that has it, and the
    /// directory is the first source.
    pub open spec fn wf(self) -> bool {
        &&& distinct_ids(self.entries)
        &&& duplicates_justified(self.entries, self.issues)
        &&& self.sources.len() > 0 ==> self.directory == self.sources[0]
        &&& self.sources.len() == 0 ==> self.directory.len() == 0
    }
}

/// The claim on an id is found exactly if some entry has the id, and it is the
/// first such entry.
pub proof fn lemma_claim(entries: Seq<EntryView>, id: usize)
    ensures
        0 <= claim_position(entries, id) <= entries.len(),
        claim_position(entries, id) < entries.len() ==> entries[claim_position(entries, id)].id
            == id,
        forall|i: int|
            0 <= i < claim_position(entries, id) && i < entries.len() ==> (#[trigger] entries[i]).id
                != id,
    decreases entries.len(),
{
    if entries.len() > 0 && entries[0].id != id {
        let rest = entries.drop_first();
        lemma_claim(rest, id);
        assert forall|i: int|
            0 <= i < claim_position(entries, id) && i < entries.len() implies (
        #[trigger] entries[i]).id != id by {
            if i > 0 {
                assert(rest[i - 1] == entries[i]);
            }
        }
    }
}

/// A later entry does not change who has an id that was claimed before.
pub proof fn lemma_claim_push(entries: Seq<EntryView>, entry: EntryView, id: usize)
    ensures
        claim(entries, id) is Some ==> claim_position(entries.push(entry), id) == claim_position(
            entries,
            id,
        ) && claim(entries.push(entry), id) == claim(entries, id),
    decreases entries.len(),
{
    if entries.len() > 0 && entries[0].id != id {
        lemma_claim(entries.drop_first(), id);
        lemma_claim_push(entries.drop_first(), entry, id);
        assert(entries.push(entry).drop_first() =~= entries.drop_first().push(entry));
    }
}

/// An entry for a free id keeps ids distinct, and every refused duplicate still
/// names the holder of its id.
pub proof fn lemma_free_id(entries: Seq<EntryView>, issues: Seq<IssueView>, entry: EntryView)
    requires
        distinct_ids(entries),
        duplicates_justified(entries, issues),
        claim(entries, entry.id) is None,
    ensures
        distinct_ids(entries.push(entry)),
        duplicates_justified(entries.push(entry), issues),
{
    let all = entries.push(entry);
    lemma_claim(entries, entry.id);
    assert forall|i: int, j: int| 0 <= i < j < all.len() implies (#[trigger] all[i]).id != (
    #[trigger] all[j]).id by {
        if j == entries.len() {
            assert(entries[i].id != entry.id);
        }
    }
    assert forall|i: int|
        #![trigger issues[i]]
        0 <= i < issues.len() && issues[i].kind is DuplicateId implies claim(
        all,
        issues[i].kind->DuplicateId_id,
    ) is Some && claim(all, issues[i].kind->DuplicateId_id)->0.path
        == issues[i].kind->claimed_by by {
        lemma_claim_push(entries, entry, issues[i].kind->DuplicateId_id);
    }
}

/// The first of `entries` that claims `id`.
pub(crate) fn find_claim(entries: &Vec<Entry>, id: usize) -> (r: Option<&Entry>)
    ensures
        match r {
            Some(entry) => claim(entry_views(entries@), id) == Some(entry@),
            None => claim(entry_views(entries@), id) is None,
        },
{
    let ghost all = entry_views(entries@);
    let mut i: usize = 0;
    assert(all.skip(0) =~= all);
    while i < entries.len()
        invariant
            i <= entries.len(),
            all == entry_views(entries@),
            claim_position(all, id) == i + claim_position(all.skip(i as int), id),
        decreases entries.len() - i,
    {
        assert(all.skip(i as int)[0] == entries@[i as int]@);
        if entries[i].id == id {
            return Some(&entries[i]);
        }
        assert(all.skip(i as int).drop_first() =~= all.skip(i + 1));
        i = i + 1;
    }
    None
}

impl Pool {
    /// A pool with the given parts.
    pub(crate) fn new(
        directory: String,
        sources: Vec<String>,
        entries: Vec<Entry>,
        issues: Vec<Issue>,
    ) -> (r: Pool)
        ensures
            r@ == (PoolView {
                directory: directory@,
                sources: text::views(sources@),
                entries: entry_views(entries@),
                issues: issue_views(issues@),
            }),
    {
        Pool { directory, sources, entries, issues }
    }

    /// First directory this scan read, the one a new config is written to.
    pub fn directory(&self) -> (r: &str)
        ensures
            r@ == self@.directory,
    {
        self.directory.as_str()
    }

    /// Every directory this scan read, in precedence order.
    pub fn sources(&self) -> (r: &[String])
        ensures
            text::views(r@) == self@.sources,
    {
        self.sources.as_slice()
    }

    /// Startable configs, in the order the filesystem reported them.
    pub fn entries(&self) -> (r: &[Entry])
        ensures
            entry_views(r@) == self@.entries,
    {
        self.entries.as_slice()
    }

    /// Files that could not become an entry, plus the directory itself when it
    /// could not be opened.
    pub fn issues(&self) -> (r: &[Issue])
        ensures
            issue_views(r@) == self@.issues,
    {
        self.issues.as_slice()
    }

    /// The entry that claims `id`, if the pool holds a usable config for it.
    pub fn entry(&self, id: usize) -> (r: Option<&Entry>)
        ensures
            match r {
                Some(entry) => claim(self@.entries, id) == Some(entry@),
                None => claim(self@.entries, id) is None,
            },
    {
        find_claim(&self.entries, id)
    }
}

/// The log line about `issue`. An unprovisioned pool is a normal state and
/// stays at info level; a file that cannot be started is a warning.
pub open spec fn issue_line(issue: IssueView) -> LogLineView {
    LogLineView {
        level: if issue.kind is DirectoryUnavailable {
            Level::Info
        } else {
            Level::Warn
        },
        text: "VM pool: "@ + issue.message(),
    }
}

/// The log lines about `issues`, in order.
pub open spec fn issue_lines(issues: Seq<IssueView>) -> Seq<LogLineView> {
    issues.map_values(|issue: IssueView| issue_line(issue))
}

/// The log line about `entry`.
pub open spec fn entry_line(entry: EntryView) -> LogLineView {
    LogLineView {
        level: Level::Info,
        text: "  VM pool entry: VM["@ + text::decimal(entry.id as nat) + "] `"@ + entry.name
            + "` from "@ + entry.path,
    }
}

/// The log lines about `entries`, in order.
pub open spec fn entry_lines(entries: Seq<EntryView>) -> Seq<LogLineView> {
    entries.map_values(|entry: EntryView| entry_line(entry))
}

/// The log line about the directories of a pool.
pub open spec fn folders_line(pool: PoolView) -> LogLineView {
    LogLineView {
        level: Level::Info,
        text: "VM pool: "@ + text::decimal(pool.sources.len()) + " folder(s): "@ + text::joined(
            pool.sources,
            ", "@,
        ),
    }
}

/// The log line about the number of entries of a pool.
pub open spec fn configs_line(pool: PoolView) -> LogLineView {
    LogLineView {
        level: Level::Info,
        text: "VM pool `"@ + pool.directory + "`: "@ + text::decimal(pool.entries.len())
            + " config(s)"@,
    }
}

/// The log lines that report a pool: its directories, its size, its entries and
/// its issues.
pub open spec fn startup_lines(pool: PoolView) -> Seq<LogLineView> {
    seq![folders_line(pool), configs_line(pool)] + entry_lines(pool.entries) + issue_lines(
        pool.issues,
    )
}

/// Appends the log lines about `issues` to `log`.
fn push_issues(log: &mut Vec<LogLine>, issues: &[Issue])
    ensures
        report::lines(final(log)@) == report::lines(old(log)@) + issue_lines(issue_views(issues@)),
{
    let mut i: usize = 0;
    let ghost all = issue_lines(issue_views(issues@));
    assert(report::lines(log@) =~= report::lines(old(log)@) + all.take(0));
    while i < issues.len()
        invariant
            i <= issues.len(),
            all == issue_lines(issue_views(issues@)),
            report::lines(log@) == report::lines(old(log)@) + all.take(i as int),
        decreases issues.len() - i,
    {
        let issue: &Issue = &issues[i];
        let message: String = issue.to_text();
        let level: Level = match issue.kind() {
            IssueKind::DirectoryUnavailable(_) => Level::Info,
            _ => Level::Warn,
        };
        let ghost before = log@;
        log.push(LogLine { level, text: "VM pool: ".to_string().concat(message.as_str()) });
        assert(all[i as int] == issue_line(issue@));
        assert(report::lines(log@) =~= report::lines(before).push(all[i as int]));
        assert(all.take(i + 1) =~= all.take(i as int).push(all[i as int]));
        i = i + 1;
    }
    assert(all.take(i as int) =~= all);
}

/// Appends the log lines about `entries` to `log`.
fn push_entries(log: &mut Vec<LogLine>, entries: &[Entry])
    ensures
        report::lines(final(log)@) == report::lines(old(log)@) + entry_lines(entry_views(entries@)),
{
    let mut i: usize = 0;
    let ghost all = entry_lines(entry_views(entries@));
    assert(report::lines(log@) =~= report::lines(old(log)@) + all.take(0));
    while i < entries.len()
        invariant
            i <= entries.len(),
            all == entry_lines(entry_views(entries@)),
            report::lines(log@) == report::lines(old(log)@) + all.take(i as int),
        decreases entries.len() - i,
    {
        let entry: &Entry = &entries[i];
        let id: String = text::number(entry.id() as u64);
        let line: String = "  VM pool entry: VM[".to_string().concat(id.as_str()).concat("] `").concat(
            entry.name(),
        ).concat("` from ").concat(entry.path());
        let ghost before = log@;
        log.push(LogLine { level: Level::Info, text: line });
        assert(all[i as int] == entry_line(entry@));
        assert(report::lines(log@) =~= report::lines(before).push(all[i as int]));
        assert(all.take(i + 1) =~= all.take(i as int).push(all[i as int]));
        i = i + 1;
    }
    assert(all.take(i as int) =~= all);
}

/// The lines that report every issue of `pool` through the host log.
pub fn log_issues(pool: &Pool) -> (r: Vec<LogLine>)
    ensures
        report::lines(r@) == issue_lines(pool@.issues),
{
    let mut log: Vec<LogLine> = Vec::new();
    push_issues(&mut log, pool.issues());
    assert(report::lines(log@) =~= issue_lines(pool@.issues));
    log
}

/// The lines that report the pool contents through the host log.
pub fn startup_report(pool: &Pool) -> (r: Vec<LogLine>)
    ensures
        report::lines(r@) == startup_lines(pool@),
{
    let folders: String = text::number(pool.sources.len() as u64);
    let list: String = text::join(pool.sources(), ", ");
    let configs: String = text::number(pool.entries.len() as u64);
    let mut log: Vec<LogLine> = Vec::new();
    log.push(
        LogLine {
            level: Level::Info,
            text: "VM pool: ".to_string().concat(folders.as_str()).concat(" folder(s): ").concat(
                list.as_str(),
            ),
        },
    );
    log.push(
        LogLine {
            level: Level::Info,
            text: "VM pool `".to_string().concat(pool.directory()).concat("`: ").concat(
                configs.as_str(),
            ).concat(" config(s)"),
        },
    );
    assert(report::lines(log@) =~= seq![folders_line(pool@), configs_line(pool@)]);
    push_entries(&mut log, pool.entries());
    push_issues(&mut log, pool.issues());
    log
}

proof fn lemma_with_source_keeps(known: Seq<Seq<char>>, directory: Seq<char>, text: Seq<char>)
    requires
        known.contains(text),
    ensures
        with_source(known, directory).contains(text),
{
    let i = choose|i: int| 0 <= i < known.len() && known[i] == text;
    assert(with_source(known, directory)[i] == text);
}

proof fn lemma_with_sources(directories: Seq<Seq<char>>)
    ensures
        ({
            let sources = with_sources(Seq::empty(), directories);
            &&& sources.no_duplicates()
            &&& forall|i: int|
                #![trigger sources[i]]
                0 <= i < sources.len() ==> sources[i].len() > 0 && exists|j: int|
                    0 <= j < directories.len() && text::trimmed(#[trigger] directories[j])
                        == sources[i]
            &&& forall|j: int|
                #![trigger directories[j]]
                0 <= j < directories.len() && !text::is_blank(directories[j]) ==> sources.contains(
                    text::trimmed(directories[j]),
                )
            &&& directories.len() > 0 && !text::is_blank(directories[0]) ==> sources.len() > 0
                && sources[0] == text::trimmed(directories[0])
        }),
    decreases directories.len(),
{
    if directories.len() > 0 {
        let init = directories.drop_last();
        let before = with_sources(Seq::empty(), init);
        let sources = with_sources(Seq::empty(), directories);
        let last = text::trimmed(directories.last());
        lemma_with_sources(init);
        assert forall|i: int|
            #![trigger sources[i]]
            0 <= i < sources.len() implies sources[i].len() > 0 && exists|j: int|
            0 <= j < directories.len() && text::trimmed(#[trigger] directories[j]) == sources[i] by {
            if i < before.len() {
                assert(sources[i] == before[i]);
                let j = choose|j: int|
                    0 <= j < init.len() && text::trimmed(#[trigger] init[j]) == before[i];
                assert(text::trimmed(directories[j]) == sources[i]);
            } else {
                assert(text::trimmed(directories[directories.len() - 1]) == sources[i]);
            }
        }
        assert forall|j: int|
            #![trigger directories[j]]
            0 <= j < directories.len() && !text::is_blank(
                directories[j],
            ) implies sources.contains(text::trimmed(directories[j])) by {
            if j < init.len() {
                assert(init[j] == directories[j]);
                lemma_with_source_keeps(
                    before,
                    directories.last(),
                    text::trimmed(directories[j]),
                );
            } else if !before.contains(last) {
                assert(sources[sources.len() - 1] == last);
            }
        }
        if init.len() > 0 {
            assert(init[0] == directories[0]);
        }
    }
}

/// The pool is read from every directory that is named and not blank, without
/// surrounding white space and each only once, and from no other; the drop-in
/// directory comes first.
pub proof fn law_sources(pool: Option<&str>, extra: Option<&str>)
    ensures
        ({
            let sources = sources_of(pool, extra);
            let named = named_directories(pool, extra);
            &&& sources.no_duplicates()
            &&& forall|i: int|
                #![trigger sources[i]]
                0 <= i < sources.len() ==> sources[i].len() > 0 && exists|j: int|
                    0 <= j < named.len() && text::trimmed(#[trigger] named[j]) == sources[i]
            &&& forall|j: int|
                #![trigger named[j]]
                0 <= j < named.len() && !text::is_blank(named[j]) ==> sources.contains(
                    text::trimmed(named[j]),
                )
            &&& !text::is_blank(directory_of(pool)) ==> sources.len() > 0 && sources[0]
                == text::trimmed(directory_of(pool))
        }),
{
    lemma_with_sources(named_directories(pool, extra));
}

}
