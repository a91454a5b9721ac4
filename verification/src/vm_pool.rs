//! The pool as a single directory of candidate guest configs.
//!
//! The directory is the single authority for the candidate set: every scan
//! reads it anew and keeps no cache, so a config that the host adds, replaces
//! or repairs is visible to the next query without a reboot. Files that cannot
//! be used become [`Issue`] values instead of disappearing.
//!
//! A scan asks the filesystem one question at a time: [`Scanner::action`] names
//! the question, and the answer is handed back through the method of that name.

use crate::control::domain::scan::{
    self, names_config, parse_content, Item, Listing, ScanAction, ScanActionView,
};
use crate::guest::{self, ConfigOutcome, GuestFacts};
use crate::report::{self, Level, LogLine, LogLineView};
use crate::text;
use vstd::prelude::*;

verus! {

/// Directory the pool is read from when the build config does not override it.
pub const DEFAULT_POOL_DIR: &'static str = "/guest/vm_pool";

/// Directory of configs that the startup path creates as the default guest set.
pub const DEFAULT_VM_CONFIG_DIR: &'static str = "/guest/vm_default";

/// The configured pool directory, or the default one.
pub open spec fn directory_of(configured: Option<&str>) -> Seq<char> {
    match configured {
        Some(path) => path@,
        None => DEFAULT_POOL_DIR@,
    }
}

/// Pool directory: the configured one wins over [`DEFAULT_POOL_DIR`].
pub fn directory<'a>(configured: Option<&'a str>) -> (r: &'a str)
    ensures
        r@ == directory_of(configured),
{
    match configured {
        Some(path) => path,
        None => DEFAULT_POOL_DIR,
    }
}

/// One pool config that a start request can turn into a running VM.
#[derive(Debug, Clone, PartialEq, Eq)]
pub struct Entry {
    path: String,
    id: usize,
    name: String,
    toml: String,
}

/// The view of an [`Entry`].
pub struct EntryView {
    /// Path of the config file.
    pub path: Seq<char>,
    /// `base.id` of the config.
    pub id: usize,
    /// `base.name` of the config.
    pub name: Seq<char>,
    /// The text of the config file.
    pub toml: Seq<char>,
}

impl View for Entry {
    type V = EntryView;

    closed spec fn view(&self) -> EntryView {
        EntryView { path: self.path@, id: self.id, name: self.name@, toml: self.toml@ }
    }
}

impl Entry {
    /// Path of the config file, as reported by the filesystem.
    pub fn path(&self) -> (r: &str)
        ensures
            r@ == self@.path,
    {
        self.path.as_str()
    }

    /// `base.id` the config asks for, which is also the runtime VM id.
    pub fn id(&self) -> (r: usize)
        ensures
            r == self@.id,
    {
        self.id
    }

    /// `base.name` from the config.
    pub fn name(&self) -> (r: &str)
        ensures
            r@ == self@.name,
    {
        self.name.as_str()
    }

    /// Raw TOML text, for callers that create the VM themselves.
    pub fn toml(&self) -> (r: &str)
        ensures
            r@ == self@.toml,
    {
        self.toml.as_str()
    }
}

/// The views of a sequence of entries.
pub open spec fn entry_views(entries: Seq<Entry>) -> Seq<EntryView> {
    entries.map_values(|entry: Entry| entry@)
}

/// Why one pool file cannot be started.
#[derive(Debug, Clone, PartialEq, Eq)]
pub enum IssueKind {
    /// The pool directory is missing or cannot be opened; the pool is empty.
    DirectoryUnavailable(String),
    /// The file exists but could not be read as UTF-8 text.
    Unreadable(String),
    /// The file holds no text at all.
    Empty,
    /// The file is not a guest config TOML document.
    InvalidToml(String),
    /// An earlier file in the same scan already claims this `base.id`, so this
    /// config cannot be registered while that one is in the pool.
    DuplicateId {
        /// The id both files ask for.
        id: usize,
        /// Path of the file that has it.
        claimed_by: String,
    },
}

/// The view of an [`IssueKind`].
pub enum IssueKindView {
    /// The directory is missing or cannot be opened.
    DirectoryUnavailable(Seq<char>),
    /// The file could not be read as text.
    Unreadable(Seq<char>),
    /// The file holds no text at all.
    Empty,
    /// The file is not a guest config.
    InvalidToml(Seq<char>),
    /// An earlier file claims the id.
    DuplicateId {
        /// The id both files ask for.
        id: usize,
        /// Path of the file that has it.
        claimed_by: Seq<char>,
    },
}

impl View for IssueKind {
    type V = IssueKindView;

    open spec fn view(&self) -> IssueKindView {
        match self {
            IssueKind::DirectoryUnavailable(error) => IssueKindView::DirectoryUnavailable(error@),
            IssueKind::Unreadable(error) => IssueKindView::Unreadable(error@),
            IssueKind::Empty => IssueKindView::Empty,
            IssueKind::InvalidToml(error) => IssueKindView::InvalidToml(error@),
            IssueKind::DuplicateId { id, claimed_by } => IssueKindView::DuplicateId {
                id: *id,
                claimed_by: claimed_by@,
            },
        }
    }
}

impl IssueKindView {
    /// Human-facing text.
    pub open spec fn message(self) -> Seq<char> {
        match self {
            IssueKindView::DirectoryUnavailable(error) => "directory is unavailable: "@ + error,
            IssueKindView::Unreadable(error) => "cannot be read: "@ + error,
            IssueKindView::Empty => "is empty"@,
            IssueKindView::InvalidToml(error) => "is not a guest config: "@ + error,
            IssueKindView::DuplicateId { id, claimed_by } => "asks for VM id "@ + text::decimal(
                id as nat,
            ) + ", which `"@ + claimed_by + "` already claims in this pool"@,
        }
    }
}

impl IssueKind {
    /// Human-facing text.
    pub fn to_text(&self) -> (r: String)
        ensures
            r@ == self@.message(),
    {
        match self {
            IssueKind::DirectoryUnavailable(error) => "directory is unavailable: ".to_string().concat(
                error.as_str(),
            ),
            IssueKind::Unreadable(error) => "cannot be read: ".to_string().concat(error.as_str()),
            IssueKind::Empty => "is empty".to_string(),
            IssueKind::InvalidToml(error) => "is not a guest config: ".to_string().concat(
                error.as_str(),
            ),
            IssueKind::DuplicateId { id, claimed_by } => {
                let number: String = text::number(*id as u64);
                "asks for VM id ".to_string().concat(number.as_str()).concat(", which `").concat(
                    claimed_by.as_str(),
                ).concat("` already claims in this pool")
            },
        }
    }
}

/// One unusable pool file, or the pool directory itself.
#[derive(Debug, Clone, PartialEq, Eq)]
pub struct Issue {
    path: String,
    kind: IssueKind,
}

/// The view of an [`Issue`].
pub struct IssueView {
    /// The path the issue is about.
    pub path: Seq<char>,
    /// What is wrong with it.
    pub kind: IssueKindView,
}

impl View for Issue {
    type V = IssueView;

    closed spec fn view(&self) -> IssueView {
        IssueView { path: self.path@, kind: self.kind@ }
    }
}

impl IssueView {
    /// Human-facing text.
    pub open spec fn message(self) -> Seq<char> {
        self.path + ": "@ + self.kind.message()
    }
}

impl Issue {
    /// What is wrong with the reported path.
    pub fn kind(&self) -> (r: &IssueKind)
        ensures
            r@ == self@.kind,
    {
        &self.kind
    }

    /// Human-facing text.
    pub fn to_text(&self) -> (r: String)
        ensures
            r@ == self@.message(),
    {
        let kind: String = self.kind.to_text();
        self.path.clone().concat(": ").concat(kind.as_str())
    }
}

/// The views of a sequence of issues.
pub open spec fn issue_views(issues: Seq<Issue>) -> Seq<IssueView> {
    issues.map_values(|issue: Issue| issue@)
}

/// The position of the first of `entries` that claims `id`, or their number.
pub open spec fn claim_position(entries: Seq<EntryView>, id: usize) -> int
    decreases entries.len(),
{
    if entries.len() == 0 {
        0
    } else if entries[0].id == id {
        0
    } else {
        1 + claim_position(entries.drop_first(), id)
    }
}

/// The first of `entries` that claims `id`.
pub open spec fn claim(entries: Seq<EntryView>, id: usize) -> Option<EntryView> {
    let i = claim_position(entries, id);
    if i < entries.len() {
        Some(entries[i])
    } else {
        None
    }
}

/// The first of `entries` that claims `id`.
fn find_claim(entries: &Vec<Entry>, id: usize) -> (r: Option<&Entry>)
    ensures
        match r {
            Some(entry) => claim(entry_views(entries@), id) == Some(entry@),
            None => claim(entry_views(entries@), id) is None,
        },
{
    let ghost all = entry_views(entries@);
    let mut i: usize = 0;
    assert(all.skip(0) =~= all);
    while i < entries.len()
        invariant
            i <= entries.len(),
            all == entry_views(entries@),
            claim_position(all, id) == i + claim_position(all.skip(i as int), id),
        decreases entries.len() - i,
    {
        assert(all.skip(i as int)[0] == entries@[i as int]@);
        if entries[i].id == id {
            return Some(&entries[i]);
        }
        assert(all.skip(i as int).drop_first() =~= all.skip(i + 1));
        i = i + 1;
    }
    None
}

/// Result of one pool scan.
#[derive(Debug, Clone, PartialEq, Eq)]
pub struct Pool {
    directory: String,
    entries: Vec<Entry>,
    issues: Vec<Issue>,
}

/// The view of a [`Pool`].
#[verifier::ext_equal]
pub struct PoolView {
    /// Directory the scan read.
    pub directory: Seq<char>,
    /// Startable configs.
    pub entries: Seq<EntryView>,
    /// Files that could not become an entry.
    pub issues: Seq<IssueView>,
}

impl View for Pool {
    type V = PoolView;

    closed spec fn view(&self) -> PoolView {
        PoolView {
            directory: self.directory@,
            entries: entry_views(self.entries@),
            issues: issue_views(self.issues@),
        }
    }
}

impl Pool {
    /// Directory this scan read.
    pub fn directory(&self) -> (r: &str)
        ensures
            r@ == self@.directory,
    {
        self.directory.as_str()
    }

    /// Startable configs, in the order the filesystem reported them.
    pub fn entries(&self) -> (r: &[Entry])
        ensures
            entry_views(r@) == self@.entries,
    {
        self.entries.as_slice()
    }

    /// Files that could not become an entry, plus the directory itself when it
    /// could not be opened.
    pub fn issues(&self) -> (r: &[Issue])
        ensures
            issue_views(r@) == self@.issues,
    {
        self.issues.as_slice()
    }

    /// The entry that claims `id`, if the pool holds a usable config for it.
    pub fn entry(&self, id: usize) -> (r: Option<&Entry>)
        ensures
            match r {
                Some(entry) => claim(self@.entries, id) == Some(entry@),
                None => claim(self@.entries, id) is None,
            },
    {
        find_claim(&self.entries, id)
    }
}

/// What becomes of the config file at `path`: an entry, or the reason why it
/// cannot be started.
pub open spec fn file_outcome(
    path: Seq<char>,
    content: Result<Seq<char>, Seq<char>>,
    config: ConfigOutcome,
) -> Result<EntryView, IssueKindView> {
    match content {
        Err(error) => Err(IssueKindView::Unreadable(error)),
        Ok(toml) => if text::is_blank(toml) {
            Err(IssueKindView::Empty)
        } else {
            match config {
                Err(message) => Err(IssueKindView::InvalidToml(message)),
                Ok(facts) => Ok(EntryView { path, id: facts.id, name: facts.name, toml }),
            }
        },
    }
}

/// The view of a file's outcome.
pub open spec fn entry_outcome(outcome: Result<Entry, IssueKind>) -> Result<
    EntryView,
    IssueKindView,
> {
    match outcome {
        Ok(entry) => Ok(entry@),
        Err(kind) => Err(kind@),
    }
}

/// What becomes of the config file at `path`, given what the config parser made
/// of its text.
pub fn parse_entry_with(
    path: &str,
    content: Result<String, String>,
    config: Result<GuestFacts, String>,
) -> (r: Result<Entry, IssueKind>)
    ensures
        entry_outcome(r) == file_outcome(
            path@,
            text::either(content),
            guest::config_outcome(config),
        ),
{
    match content {
        Err(error) => Err(IssueKind::Unreadable(error)),
        Ok(toml) => {
            let blank: bool = text::trim(toml.as_str()).is_empty();
            if blank {
                return Err(IssueKind::Empty);
            }
            match config {
                Err(message) => Err(IssueKind::InvalidToml(message)),
                Ok(facts) => Ok(
                    Entry { path: path.to_string(), id: facts.id, name: facts.name, toml },
                ),
            }
        },
    }
}

/// What becomes of the config file at `path`.
pub fn parse_entry(path: &str, content: Result<String, String>) -> (r: Result<Entry, IssueKind>)
    ensures
        exists|config: ConfigOutcome|
            scan::may_parse_as(text::either(content), config) && entry_outcome(r)
                == #[trigger] file_outcome(path@, text::either(content), config),
{
    let config: Result<GuestFacts, String> = parse_content(&content);
    parse_entry_with(path, content, config)
}

/// A scan in progress.
pub struct Scanner {
    directory: String,
    listed: bool,
    items: Vec<Result<String, String>>,
    entries: Vec<Entry>,
    issues: Vec<Issue>,
}

/// The view of a [`Scanner`].
#[verifier::ext_equal]
pub struct ScanState {
    /// The directory of the scan.
    pub directory: Seq<char>,
    /// Whether its listing has been handed over.
    pub listed: bool,
    /// What remains of the listing.
    pub items: Seq<Item>,
    /// The entries found so far.
    pub entries: Seq<EntryView>,
    /// The issues found so far.
    pub issues: Seq<IssueView>,
}

impl View for Scanner {
    type V = ScanState;

    closed spec fn view(&self) -> ScanState {
        ScanState {
            directory: self.directory@,
            listed: self.listed,
            items: scan::items_view(self.items@),
            entries: entry_views(self.entries@),
            issues: issue_views(self.issues@),
        }
    }
}

impl ScanState {
    /// The state of a scan that has not asked anything yet.
    pub open spec fn start(directory: Seq<char>) -> ScanState {
        ScanState {
            directory,
            listed: false,
            items: Seq::empty(),
            entries: Seq::empty(),
            issues: Seq::empty(),
        }
    }

    /// Whether the next item of the listing needs no file to be read.
    pub open spec fn skips(self) -> bool {
        &&& self.items.len() > 0
        &&& self.items[0] is Ok ==> !scan::is_config_path(self.items[0]->Ok_0)
    }

    /// Whether the state is one that a scan rests in.
    pub open spec fn wf(self) -> bool {
        &&& !self.skips()
        &&& !self.listed ==> self.items.len() == 0
    }

    /// What the scan needs next.
    pub open spec fn action(self) -> ScanActionView {
        if !self.listed {
            ScanActionView::ReadDirectory(self.directory)
        } else if self.items.len() > 0 {
            ScanActionView::ReadText(self.items[0]->Ok_0)
        } else {
            ScanActionView::Finished
        }
    }

    /// The state with one more issue.
    pub open spec fn with_issue(self, path: Seq<char>, kind: IssueKindView) -> ScanState {
        ScanState { issues: self.issues.push(IssueView { path, kind }), ..self }
    }

    /// The state after dropping the next item of the listing, which needs no
    /// file to be read: an error is reported, any other file is passed over.
    pub open spec fn skipped(self) -> ScanState {
        let rest = ScanState { items: self.items.drop_first(), ..self };
        match self.items[0] {
            Err(error) => rest.with_issue(
                self.directory,
                IssueKindView::Unreadable("directory entry: "@ + error),
            ),
            Ok(_) => rest,
        }
    }

    /// The state after dropping every item that needs no file to be read, up to
    /// the next one that does.
    pub open spec fn settled(self) -> ScanState
        decreases self.items.len(),
    {
        if self.skips() {
            self.skipped().settled()
        } else {
            self
        }
    }

    /// The state after `entry` asked for its id: the first to ask has it, and
    /// later ones are reported.
    pub open spec fn with_entry(self, entry: EntryView) -> ScanState {
        match claim(self.entries, entry.id) {
            Some(known) => self.with_issue(
                entry.path,
                IssueKindView::DuplicateId { id: entry.id, claimed_by: known.path },
            ),
            None => ScanState { entries: self.entries.push(entry), ..self },
        }
    }

    /// The state after the listing of the directory.
    pub open spec fn with_listing(self, listing: Listing) -> ScanState {
        let opened = ScanState { listed: true, ..self };
        match listing {
            Err(error) => opened.with_issue(
                self.directory,
                IssueKindView::DirectoryUnavailable(error),
            ),
            Ok(items) => ScanState { items, ..opened }.settled(),
        }
    }

    /// The state after reading the next config file, given what the config
    /// parser made of its text.
    pub open spec fn read(
        self,
        content: Result<Seq<char>, Seq<char>>,
        config: ConfigOutcome,
    ) -> ScanState {
        let path = self.items[0]->Ok_0;
        let rest = ScanState { items: self.items.drop_first(), ..self };
        (match file_outcome(path, content, config) {
            Err(kind) => rest.with_issue(path, kind),
            Ok(entry) => rest.with_entry(entry),
        }).settled()
    }

    /// The pool a finished scan has found.
    pub open spec fn pool(self) -> PoolView {
        PoolView { directory: self.directory, entries: self.entries, issues: self.issues }
    }
}

/// Starts scanning the pool directory reported by [`directory`].
pub fn scan(configured: Option<&str>) -> (r: Scanner)
    ensures
        r@ == ScanState::start(directory_of(configured)),
        r@.wf(),
{
    scan_dir(directory(configured))
}

/// Starts scanning one directory of guest configs.
///
/// A missing or unreadable directory yields an empty pool with a single
/// [`IssueKind::DirectoryUnavailable`] issue rather than an error, so callers
/// can render "no pool provisioned" without special-casing failures.
pub fn scan_dir(directory: &str) -> (r: Scanner)
    ensures
        r@ == ScanState::start(directory@),
        r@.wf(),
{
    let r = Scanner {
        directory: directory.to_string(),
        listed: false,
        items: Vec::new(),
        entries: Vec::new(),
        issues: Vec::new(),
    };
    assert(r@ =~= ScanState::start(directory@));
    r
}

impl Scanner {
    /// What the scan needs from the filesystem next.
    pub fn action(&self) -> (r: ScanAction)
        requires
            self@.wf(),
        ensures
            r@ == self@.action(),
    {
        if !self.listed {
            ScanAction::ReadDirectory(self.directory.clone())
        } else if self.items.len() > 0 {
            assert(self@.items[0] == text::either(self.items@[0]));
            match &self.items[0] {
                Ok(path) => ScanAction::ReadText(path.clone()),
                Err(_) => ScanAction::Finished,
            }
        } else {
            ScanAction::Finished
        }
    }

    /// Whether the next item of the listing needs no file to be read.
    fn skips(&self) -> (r: bool)
        ensures
            r == self@.skips(),
    {
        if self.items.len() == 0 {
            return false;
        }
        assert(self@.items[0] == text::either(self.items@[0]));
        match &self.items[0] {
            Ok(path) => !names_config(path.as_str()),
            Err(_) => true,
        }
    }

    /// Takes the next item off the listing.
    fn next_item(&mut self) -> (r: Result<String, String>)
        requires
            old(self)@.items.len() > 0,
        ensures
            text::either(r) == old(self)@.items[0],
            final(self)@ == (ScanState { items: old(self)@.items.drop_first(), ..old(self)@ }),
    {
        let item: Result<String, String> = self.items.remove(0);
        assert(self@ =~= ScanState { items: old(self)@.items.drop_first(), ..old(self)@ });
        item
    }

    /// Reports `kind` about `path`.
    fn report(&mut self, path: String, kind: IssueKind)
        ensures
            final(self)@ == old(self)@.with_issue(path@, kind@),
    {
        self.issues.push(Issue { path, kind });
        assert(self@ =~= old(self)@.with_issue(path@, kind@));
    }

    /// Gives `entry` its id, unless it is taken.
    fn offer(&mut self, entry: Entry)
        ensures
            final(self)@ == old(self)@.with_entry(entry@),
    {
        let holder: Option<String> = match find_claim(&self.entries, entry.id) {
            Some(known) => Some(known.path.clone()),
            None => None,
        };
        match holder {
            Some(claimed_by) => {
                let id: usize = entry.id;
                self.report(entry.path, IssueKind::DuplicateId { id, claimed_by });
            },
            None => {
                self.entries.push(entry);
                assert(self@ =~= old(self)@.with_entry(entry@));
            },
        }
    }

    /// Drops every item that needs no file to be read, up to the next one that
    /// does.
    fn settle(&mut self)
        ensures
            final(self)@ == old(self)@.settled(),
            !final(self)@.skips(),
            final(self)@.listed == old(self)@.listed,
    {
        while self.skips()
            invariant
                self@.settled() == old(self)@.settled(),
                self@.listed == old(self)@.listed,
            decreases self@.items.len(),
        {
            let ghost before = self@;
            match self.next_item() {
                Err(error) => {
                    let path: String = self.directory.clone();
                    self.report(
                        path,
                        IssueKind::Unreadable("directory entry: ".to_string().concat(error.as_str())),
                    );
                },
                Ok(_) => {},
            }
            assert(self@ == before.skipped());
        }
    }

    /// Hands over the listing of the directory.
    pub fn read_directory(&mut self, listing: Result<Vec<Result<String, String>>, String>)
        requires
            old(self)@.wf(),
            old(self)@.action() is ReadDirectory,
        ensures
            final(self)@ == old(self)@.with_listing(scan::listing_view(listing)),
            final(self)@.wf(),
    {
        self.listed = true;
        assert(self@ =~= ScanState { listed: true, ..old(self)@ });
        match listing {
            Err(error) => {
                let path: String = self.directory.clone();
                self.report(path, IssueKind::DirectoryUnavailable(error));
            },
            Ok(items) => {
                self.items = items;
                self.settle();
            },
        }
    }

    /// Hands over the text of the config file that [`Scanner::action`] named,
    /// and what the config parser made of it.
    pub fn read_text_with(
        &mut self,
        content: Result<String, String>,
        config: Result<GuestFacts, String>,
    )
        requires
            old(self)@.wf(),
            old(self)@.action() is ReadText,
        ensures
            final(self)@ == old(self)@.read(text::either(content), guest::config_outcome(config)),
            final(self)@.wf(),
    {
        let path: String = match self.next_item() {
            Ok(path) => path,
            Err(_) => String::new(),
        };
        match parse_entry_with(path.as_str(), content, config) {
            Err(kind) => self.report(path, kind),
            Ok(entry) => self.offer(entry),
        }
        self.settle();
    }

    /// Hands over the text of the config file that [`Scanner::action`] named.
    pub fn read_text(&mut self, content: Result<String, String>)
        requires
            old(self)@.wf(),
            old(self)@.action() is ReadText,
        ensures
            exists|config: ConfigOutcome|
                scan::may_parse_as(text::either(content), config) && final(self)@
                    == #[trigger] old(self)@.read(text::either(content), config),
            final(self)@.wf(),
    {
        let config: Result<GuestFacts, String> = parse_content(&content);
        self.read_text_with(content, config);
    }

    /// The pool that was found.
    pub fn finish(self) -> (r: Pool)
        requires
            self@.wf(),
            self@.action() is Finished,
        ensures
            r@ == self@.pool(),
    {
        Pool { directory: self.directory, entries: self.entries, issues: self.issues }
    }
}

/// The log line about `issue`. An unprovisioned pool is a normal state and
/// stays at info level; a file that cannot be started is a warning.
pub open spec fn issue_line(issue: IssueView) -> LogLineView {
    LogLineView {
        level: if issue.kind is DirectoryUnavailable {
            Level::Info
        } else {
            Level::Warn
        },
        text: "VM pool: "@ + issue.message(),
    }
}

/// The log lines about `issues`, in order.
pub open spec fn issue_lines(issues: Seq<IssueView>) -> Seq<LogLineView> {
    issues.map_values(|issue: IssueView| issue_line(issue))
}

/// The log line about `entry`.
pub open spec fn entry_line(entry: EntryView) -> LogLineView {
    LogLineView {
        level: Level::Info,
        text: "  VM pool entry: VM["@ + text::decimal(entry.id as nat) + "] `"@ + entry.name
            + "` from "@ + entry.path,
    }
}

/// The log lines about `entries`, in order.
pub open spec fn entry_lines(entries: Seq<EntryView>) -> Seq<LogLineView> {
    entries.map_values(|entry: EntryView| entry_line(entry))
}

/// The log line about the number of entries of a pool.
pub open spec fn configs_line(pool: PoolView) -> LogLineView {
    LogLineView {
        level: Level::Info,
        text: "VM pool `"@ + pool.directory + "`: "@ + text::decimal(pool.entries.len())
            + " config(s)"@,
    }
}

/// The log lines that report a pool: its size, its entries and its issues.
pub open spec fn startup_lines(pool: PoolView) -> Seq<LogLineView> {
    seq![configs_line(pool)] + entry_lines(pool.entries) + issue_lines(pool.issues)
}

/// Appends the log lines about `issues` to `log`.
fn push_issues(log: &mut Vec<LogLine>, issues: &[Issue])
    ensures
        report::lines(final(log)@) == report::lines(old(log)@) + issue_lines(issue_views(issues@)),
{
    let mut i: usize = 0;
    let ghost all = issue_lines(issue_views(issues@));
    assert(report::lines(log@) =~= report::lines(old(log)@) + all.take(0));
    while i < issues.len()
        invariant
            i <= issues.len(),
            all == issue_lines(issue_views(issues@)),
            report::lines(log@) == report::lines(old(log)@) + all.take(i as int),
        decreases issues.len() - i,
    {
        let issue: &Issue = &issues[i];
        let message: String = issue.to_text();
        let level: Level = match issue.kind() {
            IssueKind::DirectoryUnavailable(_) => Level::Info,
            _ => Level::Warn,
        };
        let ghost before = log@;
        log.push(LogLine { level, text: "VM pool: ".to_string().concat(message.as_str()) });
        assert(all[i as int] == issue_line(issue@));
        assert(report::lines(log@) =~= report::lines(before).push(all[i as int]));
        assert(all.take(i + 1) =~= all.take(i as int).push(all[i as int]));
        i = i + 1;
    }
    assert(all.take(i as int) =~= all);
}

/// Appends the log lines about `entries` to `log`.
fn push_entries(log: &mut Vec<LogLine>, entries: &[Entry])
    ensures
        report::lines(final(log)@) == report::lines(old(log)@) + entry_lines(entry_views(entries@)),
{
    let mut i: usize = 0;
    let ghost all = entry_lines(entry_views(entries@));
    assert(report::lines(log@) =~= report::lines(old(log)@) + all.take(0));
    while i < entries.len()
        invariant
            i <= entries.len(),
            all == entry_lines(entry_views(entries@)),
            report::lines(log@) == report::lines(old(log)@) + all.take(i as int),
        decreases entries.len() - i,
    {
        let entry: &Entry = &entries[i];
        let id: String = text::number(entry.id as u64);
        let line: String = "  VM pool entry: VM[".to_string().concat(id.as_str()).concat("] `").concat(
            entry.name(),
        ).concat("` from ").concat(entry.path());
        let ghost before = log@;
        log.push(LogLine { level: Level::Info, text: line });
        assert(all[i as int] == entry_line(entry@));
        assert(report::lines(log@) =~= report::lines(before).push(all[i as int]));
        assert(all.take(i + 1) =~= all.take(i as int).push(all[i as int]));
        i = i + 1;
    }
    assert(all.take(i as int) =~= all);
}

/// The lines that report every issue of `pool` through the host log.
pub fn log_issues(pool: &Pool) -> (r: Vec<LogLine>)
    ensures
        report::lines(r@) == issue_lines(pool@.issues),
{
    let mut log: Vec<LogLine> = Vec::new();
    push_issues(&mut log, pool.issues());
    assert(report::lines(log@) =~= issue_lines(pool@.issues));
    log
}

/// The lines that report the pool contents through the host log.
pub fn log_startup_state(pool: &Pool) -> (r: Vec<LogLine>)
    ensures
        report::lines(r@) == startup_lines(pool@),
{
    let configs: String = text::number(pool.entries.len() as u64);
    let mut log: Vec<LogLine> = Vec::new();
    log.push(
        LogLine {
            level: Level::Info,
            text: "VM pool `".to_string().concat(pool.directory()).concat("`: ").concat(
                configs.as_str(),
            ).concat(" config(s)"),
        },
    );
    assert(report::lines(log@) =~= seq![configs_line(pool@)]);
    push_entries(&mut log, pool.entries());
    push_issues(&mut log, pool.issues());
    log
}

}
