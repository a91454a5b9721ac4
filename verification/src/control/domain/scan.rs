//! Scanning the pool directories.
//!
//! A scan asks the filesystem one question at a time: [`Scanner::action`] names
//! the question, and the answer is handed back through the method of that name.
//! Nothing is cached between scans: a config the host adds, replaces or removes
//! is visible to the next one.

use super::pool::{
    claim, distinct_ids, duplicates_justified, entry_views, find_claim, issue_views, lemma_free_id,
    sources, sources_of, Entry, EntryView, Issue, IssueKind, IssueKindView, IssueView, Pool,
    PoolView,
};
use crate::guest::{
    config_outcome, may_read_as, read_config, ConfigOutcome, GuestFacts, GuestFactsView,
};
use crate::text;
use vstd::prelude::*;

verus! {

/// Whether `path` names a config file.
pub open spec fn is_config_path(path: Seq<char>) -> bool {
    text::has_suffix(path, ".toml"@)
}

/// Whether `path` names a config file.
pub fn names_config(path: &str) -> (r: bool)
    ensures
        r == is_config_path(path@),
{
    text::ends_with(path, ".toml")
}

/// The image path `path`, unless it is absent or empty.
pub open spec fn named_image(path: Option<Seq<char>>) -> Seq<Seq<char>> {
    if path is Some && path->0.len() > 0 {
        seq![path->0]
    } else {
        Seq::empty()
    }
}

/// The guest images a config needs on the filesystem, in the order in which
/// they are looked up.
///
/// Only a config that reads its images from the guest filesystem names files
/// that can be looked up: one whose images are embedded in the hypervisor has
/// nothing to check.
pub open spec fn image_paths(facts: GuestFactsView) -> Seq<Seq<char>> {
    if facts.image_location == Some("fs"@) {
        named_image(Some(facts.kernel_path)) + named_image(facts.ramdisk_path) + named_image(
            facts.dtb_path,
        )
    } else {
        Seq::empty()
    }
}

/// Appends `path` to `images`, unless it is absent or empty.
fn push_image(images: &mut Vec<String>, path: &Option<String>)
    ensures
        text::views(final(images)@) == text::views(old(images)@) + named_image(
            text::optional(*path),
        ),
{
    match path {
        Some(path) => {
            if !path.as_str().is_empty() {
                images.push(path.clone());
            }
        },
        None => {},
    }
    assert(text::views(images@) =~= text::views(old(images)@) + named_image(text::optional(*path)));
}

/// The guest images a config needs on the filesystem, in the order in which
/// they are looked up.
pub fn required_images(facts: &GuestFacts) -> (r: Vec<String>)
    ensures
        text::views(r@) == image_paths(facts@),
{
    let mut images: Vec<String> = Vec::new();
    let on_filesystem: bool = match &facts.image_location {
        Some(location) => text::same(location.as_str(), "fs"),
        None => false,
    };
    if on_filesystem {
        let kernel: Option<String> = Some(facts.kernel_path.clone());
        push_image(&mut images, &kernel);
        push_image(&mut images, &facts.ramdisk_path);
        push_image(&mut images, &facts.dtb_path);
    }
    assert(text::views(images@) =~= image_paths(facts@));
    images
}

/// A config that parsed, and the images that remain to be looked up before it
/// is an entry.
pub struct Candidate {
    entry: Entry,
    images: Vec<String>,
}

/// The view of a [`Candidate`].
pub struct CandidateView {
    /// The entry the config becomes.
    pub entry: EntryView,
    /// The images that remain to be looked up.
    pub images: Seq<Seq<char>>,
}

impl View for Candidate {
    type V = CandidateView;

    closed spec fn view(&self) -> CandidateView {
        CandidateView { entry: self.entry@, images: text::views(self.images@) }
    }
}

impl Candidate {
    /// Whether no image remains to be looked up.
    pub(crate) fn is_complete(&self) -> (r: bool)
        ensures
            r == (self@.images.len() == 0),
    {
        self.images.len() == 0
    }

    /// The entry the config becomes.
    pub(crate) fn into_entry(self) -> (r: Entry)
        ensures
            r@ == self@.entry,
    {
        self.entry
    }

    /// Path of the config file.
    pub(crate) fn path(&self) -> (r: String)
        ensures
            r@ == self@.entry.path,
    {
        self.entry.path().to_string()
    }

    /// The next image to look up.
    pub(crate) fn next_image(&self) -> (r: String)
        requires
            self@.images.len() > 0,
        ensures
            r@ == self@.images[0],
    {
        self.images[0].clone()
    }

    /// Takes the next image off the list.
    pub(crate) fn take_image(&mut self) -> (r: String)
        requires
            old(self)@.images.len() > 0,
        ensures
            r@ == old(self)@.images[0],
            final(self)@ == (CandidateView {
                images: old(self)@.images.drop_first(),
                ..old(self)@
            }),
    {
        let image: String = self.images.remove(0);
        assert(self@.images =~= old(self)@.images.drop_first());
        image
    }
}

/// What becomes of the config file at `path`: a candidate, or the reason why
/// it cannot be started.
pub open spec fn file_outcome(
    path: Seq<char>,
    source: Seq<char>,
    content: Result<Seq<char>, Seq<char>>,
    config: ConfigOutcome,
) -> Result<CandidateView, IssueKindView> {
    match content {
        Err(error) => Err(IssueKindView::Unreadable(error)),
        Ok(toml) => if text::is_blank(toml) {
            Err(IssueKindView::Empty)
        } else {
            match config {
                Err(message) => Err(IssueKindView::InvalidToml(message)),
                Ok(facts) => Ok(
                    CandidateView {
                        entry: EntryView { path, source, id: facts.id, name: facts.name, toml },
                        images: image_paths(facts),
                    },
                ),
            }
        },
    }
}

/// Whether `content` is text that the config parser is asked about.
pub open spec fn holds_text(content: Result<Seq<char>, Seq<char>>) -> bool {
    content is Ok && !text::is_blank(content->Ok_0)
}

/// Whether the config parser may answer `config` about `content`. It is only
/// asked where there is text.
pub open spec fn may_parse_as(
    content: Result<Seq<char>, Seq<char>>,
    config: ConfigOutcome,
) -> bool {
    holds_text(content) ==> may_read_as(content->Ok_0, config)
}

/// The view of a file's outcome.
pub open spec fn candidate_outcome(outcome: Result<Candidate, IssueKind>) -> Result<
    CandidateView,
    IssueKindView,
> {
    match outcome {
        Ok(candidate) => Ok(candidate@),
        Err(kind) => Err(kind@),
    }
}

/// What becomes of the config file at `path`, given what the config parser
/// made of its text.
pub fn parse_entry_with(
    path: &str,
    source: &str,
    content: Result<String, String>,
    config: Result<GuestFacts, String>,
) -> (r: Result<Candidate, IssueKind>)
    ensures
        candidate_outcome(r) == file_outcome(
            path@,
            source@,
            text::either(content),
            config_outcome(config),
        ),
{
    match content {
        Err(error) => Err(IssueKind::Unreadable(error)),
        Ok(toml) => {
            let blank: bool = text::trim(toml.as_str()).is_empty();
            if blank {
                return Err(IssueKind::Empty);
            }
            match config {
                Err(message) => Err(IssueKind::InvalidToml(message)),
                Ok(facts) => {
                    let images: Vec<String> = required_images(&facts);
                    let entry: Entry = Entry::new(
                        path.to_string(),
                        source.to_string(),
                        facts.id,
                        facts.name,
                        toml,
                    );
                    Ok(Candidate { entry, images })
                },
            }
        },
    }
}

/// What the config parser makes of `content`. Where there is no text the
/// parser is not asked, and the answer is an empty message.
pub(crate) fn parse_content(content: &Result<String, String>) -> (r: Result<GuestFacts, String>)
    ensures
        may_parse_as(text::either(*content), config_outcome(r)),
{
    match content {
        Ok(toml) => {
            let blank: bool = text::trim(toml.as_str()).is_empty();
            if blank {
                Err(String::new())
            } else {
                read_config(toml.as_str())
            }
        },
        Err(_) => Err(String::new()),
    }
}

/// What becomes of the config file at `path`.
pub fn parse_entry(path: &str, source: &str, content: Result<String, String>) -> (r: Result<
    Candidate,
    IssueKind,
>)
    ensures
        exists|config: ConfigOutcome|
            may_parse_as(text::either(content), config) && candidate_outcome(r)
                == #[trigger] file_outcome(path@, source@, text::either(content), config),
{
    let config: Result<GuestFacts, String> = parse_content(&content);
    parse_entry_with(path, source, content, config)
}

/// What a scan needs from the filesystem next.
#[derive(Debug, Clone, PartialEq, Eq)]
pub enum ScanAction {
    /// List this directory.
    ReadDirectory(String),
    /// Read this file as text.
    ReadText(String),
    /// Look up whether this file exists.
    LookUp(String),
    /// Nothing: the scan is complete.
    Finished,
}

/// The view of a [`ScanAction`].
pub enum ScanActionView {
    /// List this directory.
    ReadDirectory(Seq<char>),
    /// Read this file as text.
    ReadText(Seq<char>),
    /// Look up whether this file exists.
    LookUp(Seq<char>),
    /// The scan is complete.
    Finished,
}

impl View for ScanAction {
    type V = ScanActionView;

    open spec fn view(&self) -> ScanActionView {
        match self {
            ScanAction::ReadDirectory(path) => ScanActionView::ReadDirectory(path@),
            ScanAction::ReadText(path) => ScanActionView::ReadText(path@),
            ScanAction::LookUp(path) => ScanActionView::LookUp(path@),
            ScanAction::Finished => ScanActionView::Finished,
        }
    }
}

/// One item of a directory listing: its path, or the error met in its place.
pub type Item = Result<Seq<char>, Seq<char>>;

/// A directory listing, or the reason why there is none.
pub type Listing = Result<Seq<Item>, Seq<char>>;

/// The view of a sequence of listing items.
pub open spec fn items_view(items: Seq<Result<String, String>>) -> Seq<Item> {
    items.map_values(|item: Result<String, String>| text::either(item))
}

/// The view of a listing.
pub open spec fn listing_view(listing: Result<Vec<Result<String, String>>, String>) -> Listing {
    match listing {
        Ok(items) => Ok(items_view(items@)),
        Err(error) => Err(error@),
    }
}

/// A scan in progress.
pub struct Scanner {
    sources: Vec<String>,
    todo: Vec<String>,
    directory: String,
    items: Vec<Result<String, String>>,
    pending: Option<Candidate>,
    entries: Vec<Entry>,
    issues: Vec<Issue>,
}

/// The view of a [`Scanner`].
#[verifier::ext_equal]
pub struct ScanState {
    /// Every directory of the scan, in precedence order.
    pub sources: Seq<Seq<char>>,
    /// The directories that have not been listed yet.
    pub todo: Seq<Seq<char>>,
    /// The directory listed last.
    pub directory: Seq<char>,
    /// What remains of its listing.
    pub items: Seq<Item>,
    /// A config whose images are being looked up.
    pub pending: Option<CandidateView>,
    /// The entries found so far.
    pub entries: Seq<EntryView>,
    /// The issues found so far.
    pub issues: Seq<IssueView>,
}

impl ScanState {
    /// The state of a scan that has not asked anything yet.
    pub open spec fn start(sources: Seq<Seq<char>>) -> ScanState {
        ScanState {
            sources,
            todo: sources,
            directory: Seq::empty(),
            items: Seq::empty(),
            pending: None,
            entries: Seq::empty(),
            issues: Seq::empty(),
        }
    }

    /// Whether the next item of the listing needs no file to be read.
    pub open spec fn skips(self) -> bool {
        &&& self.pending is None
        &&& self.items.len() > 0
        &&& self.items[0] is Ok ==> !is_config_path(self.items[0]->Ok_0)
    }

    /// What holds of everything found so far: no two entries claim the same id,
    /// every config reported for asking for a taken id names the entry that has
    /// it, and every entry comes from a config file.
    pub open spec fn sound(self) -> bool {
        &&& distinct_ids(self.entries)
        &&& duplicates_justified(self.entries, self.issues)
        &&& forall|i: int|
            0 <= i < self.entries.len() ==> is_config_path((#[trigger] self.entries[i]).path)
        &&& self.pending is Some ==> is_config_path(self.pending->0.entry.path)
    }

    /// Whether the state is one that a scan rests in.
    pub open spec fn wf(self) -> bool {
        &&& !self.skips()
        &&& self.pending is Some ==> self.pending->0.images.len() > 0
        &&& self.sound()
    }

    /// What the scan needs next.
    pub open spec fn action(self) -> ScanActionView {
        if self.pending is Some {
            ScanActionView::LookUp(self.pending->0.images[0])
        } else if self.items.len() > 0 {
            ScanActionView::ReadText(self.items[0]->Ok_0)
        } else if self.todo.len() > 0 {
            ScanActionView::ReadDirectory(self.todo[0])
        } else {
            ScanActionView::Finished
        }
    }

    /// The state with one more issue.
    pub open spec fn with_issue(self, path: Seq<char>, kind: IssueKindView) -> ScanState {
        ScanState { issues: self.issues.push(IssueView { path, kind }), ..self }
    }

    /// The state after dropping the next item of the listing, which needs no
    /// file to be read: an error is reported, any other file is passed over.
    pub open spec fn skipped(self) -> ScanState {
        let rest = ScanState { items: self.items.drop_first(), ..self };
        match self.items[0] {
            Err(error) => rest.with_issue(
                self.directory,
                IssueKindView::Unreadable("directory entry: "@ + error),
            ),
            Ok(_) => rest,
        }
    }

    /// The state after dropping every item that needs no file to be read, up to
    /// the next one that does.
    pub open spec fn settled(self) -> ScanState
        decreases self.items.len(),
    {
        if self.skips() {
            self.skipped().settled()
        } else {
            self
        }
    }

    /// The state after `entry` asked for its id: the first to ask has it, and
    /// later ones are reported.
    pub open spec fn with_entry(self, entry: EntryView) -> ScanState {
        match claim(self.entries, entry.id) {
            Some(known) => self.with_issue(
                entry.path,
                IssueKindView::DuplicateId { id: entry.id, claimed_by: known.path },
            ),
            None => ScanState { entries: self.entries.push(entry), ..self },
        }
    }

    /// The state after the listing of the next directory.
    pub open spec fn listed(self, listing: Listing) -> ScanState {
        let entered = ScanState {
            todo: self.todo.drop_first(),
            directory: self.todo[0],
            ..self
        };
        match listing {
            Err(error) => entered.with_issue(
                self.todo[0],
                IssueKindView::DirectoryUnavailable(error),
            ),
            Ok(items) => ScanState { items, ..entered }.settled(),
        }
    }

    /// The state after the next config file came out as `outcome`.
    pub open spec fn parsed(self, outcome: Result<CandidateView, IssueKindView>) -> ScanState {
        let rest = ScanState { items: self.items.drop_first(), ..self };
        match outcome {
            Err(kind) => rest.with_issue(self.items[0]->Ok_0, kind).settled(),
            Ok(candidate) => if candidate.images.len() == 0 {
                rest.with_entry(candidate.entry).settled()
            } else {
                ScanState { pending: Some(candidate), ..rest }
            },
        }
    }

    /// The state after reading the next config file, given what the config
    /// parser made of its text.
    pub open spec fn read(self, content: Result<Seq<char>, Seq<char>>, config: ConfigOutcome) -> ScanState {
        self.parsed(file_outcome(self.items[0]->Ok_0, self.directory, content, config))
    }

    /// The state after looking up the next image of the pending config.
    pub open spec fn looked_up(self, present: bool) -> ScanState {
        let candidate = self.pending->0;
        let rest = ScanState { pending: None, ..self };
        if !present {
            rest.with_issue(
                candidate.entry.path,
                IssueKindView::MissingImage(candidate.images[0]),
            ).settled()
        } else if candidate.images.len() == 1 {
            rest.with_entry(candidate.entry).settled()
        } else {
            ScanState {
                pending: Some(
                    CandidateView { images: candidate.images.drop_first(), ..candidate },
                ),
                ..self
            }
        }
    }

    /// The pool a finished scan has found.
    pub open spec fn pool(self) -> PoolView {
        PoolView {
            directory: if self.sources.len() > 0 {
                self.sources[0]
            } else {
                Seq::empty()
            },
            sources: self.sources,
            entries: self.entries,
            issues: self.issues,
        }
    }
}

proof fn lemma_issue_sound(state: ScanState, path: Seq<char>, kind: IssueKindView)
    requires
        state.sound(),
        kind is DuplicateId ==> claim(state.entries, kind->DuplicateId_id) is Some && claim(
            state.entries,
            kind->DuplicateId_id,
        )->0.path == kind->claimed_by,
    ensures
        state.with_issue(path, kind).sound(),
{
}

proof fn lemma_settled_sound(state: ScanState)
    requires
        state.sound(),
    ensures
        state.settled().sound(),
        !state.settled().skips(),
        state.settled().pending == state.pending,
    decreases state.items.len(),
{
    if state.skips() {
        lemma_settled_sound(state.skipped());
    }
}

proof fn lemma_entry_sound(state: ScanState, entry: EntryView)
    requires
        state.sound(),
        is_config_path(entry.path),
    ensures
        state.with_entry(entry).sound(),
        state.with_entry(entry).pending == state.pending,
{
    if claim(state.entries, entry.id) is None {
        lemma_free_id(state.entries, state.issues, entry);
    }
}

/// Whatever a directory listing says, a scan keeps what holds of its findings:
/// ids stay distinct, and every refused duplicate names the holder of its id.
pub proof fn law_listing_keeps(state: ScanState, listing: Listing)
    requires
        state.wf(),
        state.action() is ReadDirectory,
    ensures
        state.listed(listing).wf(),
{
    if listing is Ok {
        lemma_settled_sound(
            ScanState {
                todo: state.todo.drop_first(),
                directory: state.todo[0],
                items: listing->Ok_0,
                ..state
            },
        );
    }
}

/// Whatever a config file holds, and whatever the config parser makes of it, a
/// scan keeps what holds of its findings.
pub proof fn law_reading_keeps(
    state: ScanState,
    content: Result<Seq<char>, Seq<char>>,
    config: ConfigOutcome,
)
    requires
        state.wf(),
        state.action() is ReadText,
    ensures
        state.read(content, config).wf(),
{
    let path = state.items[0]->Ok_0;
    let rest = ScanState { items: state.items.drop_first(), ..state };
    match file_outcome(path, state.directory, content, config) {
        Err(kind) => {
            lemma_issue_sound(rest, path, kind);
            lemma_settled_sound(rest.with_issue(path, kind));
        },
        Ok(candidate) => {
            if candidate.images.len() == 0 {
                lemma_entry_sound(rest, candidate.entry);
                lemma_settled_sound(rest.with_entry(candidate.entry));
            }
        },
    }
}

/// Whether an image exists or not, a scan keeps what holds of its findings.
pub proof fn law_look_up_keeps(state: ScanState, present: bool)
    requires
        state.wf(),
        state.action() is LookUp,
    ensures
        state.looked_up(present).wf(),
{
    let candidate = state.pending->0;
    let rest = ScanState { pending: None, ..state };
    if !present {
        let kind = IssueKindView::MissingImage(candidate.images[0]);
        lemma_issue_sound(rest, candidate.entry.path, kind);
        lemma_settled_sound(rest.with_issue(candidate.entry.path, kind));
    } else if candidate.images.len() == 1 {
        lemma_entry_sound(rest, candidate.entry);
        lemma_settled_sound(rest.with_entry(candidate.entry));
    }
}

impl View for Scanner {
    type V = ScanState;

    closed spec fn view(&self) -> ScanState {
        ScanState {
            sources: text::views(self.sources@),
            todo: text::views(self.todo@),
            directory: self.directory@,
            items: items_view(self.items@),
            pending: match self.pending {
                Some(candidate) => Some(candidate@),
                None => None,
            },
            entries: entry_views(self.entries@),
            issues: issue_views(self.issues@),
        }
    }
}

/// Copies of `texts`.
pub(crate) fn copy_texts(texts: &[String]) -> (r: Vec<String>)
    ensures
        text::views(r@) == text::views(texts@),
{
    let mut out: Vec<String> = Vec::new();
    let mut i: usize = 0;
    while i < texts.len()
        invariant
            i <= texts.len(),
            out@.len() == i,
            forall|j: int| 0 <= j < i ==> (#[trigger] out@[j])@ == texts@[j]@,
        decreases texts.len() - i,
    {
        out.push(texts[i].clone());
        i = i + 1;
    }
    assert(text::views(out@) =~= text::views(texts@));
    out
}

/// Starts a scan of every directory that [`sources`] reports.
pub fn scan(pool: Option<&str>, extra: Option<&str>) -> (r: Scanner)
    ensures
        r@ == ScanState::start(sources_of(pool, extra)),
        r@.wf(),
{
    let directories: Vec<String> = sources(pool, extra);
    scan_dirs(directories.as_slice())
}

/// Starts a scan of one directory.
pub fn scan_dir(directory: &str) -> (r: Scanner)
    ensures
        r@ == ScanState::start(seq![directory@]),
        r@.wf(),
{
    let mut directories: Vec<String> = Vec::new();
    directories.push(directory.to_string());
    assert(text::views(directories@) =~= seq![directory@]);
    scan_dirs(directories.as_slice())
}

/// Starts a scan of `directories`, in order.
///
/// The first directory that offers a given `base.id` wins and later copies are
/// reported as [`IssueKind::DuplicateId`], so a precedence order (see
/// [`sources`]) decides which of two files with the same id is startable.
pub fn scan_dirs(directories: &[String]) -> (r: Scanner)
    ensures
        r@ == ScanState::start(text::views(directories@)),
        r@.wf(),
{
    let r = Scanner {
        sources: copy_texts(directories),
        todo: copy_texts(directories),
        directory: String::new(),
        items: Vec::new(),
        pending: None,
        entries: Vec::new(),
        issues: Vec::new(),
    };
    assert(r@ =~= ScanState::start(text::views(directories@)));
    r
}

impl Scanner {
    /// What the scan needs from the filesystem next.
    pub fn action(&self) -> (r: ScanAction)
        requires
            self@.wf(),
        ensures
            r@ == self@.action(),
    {
        match &self.pending {
            Some(candidate) => ScanAction::LookUp(candidate.next_image()),
            None => {
                if self.items.len() > 0 {
                    assert(self@.items[0] == text::either(self.items@[0]));
                    match &self.items[0] {
                        Ok(path) => ScanAction::ReadText(path.clone()),
                        Err(_) => ScanAction::Finished,
                    }
                } else if self.todo.len() > 0 {
                    ScanAction::ReadDirectory(self.todo[0].clone())
                } else {
                    ScanAction::Finished
                }
            },
        }
    }

    /// Whether the next item of the listing needs no file to be read.
    fn skips(&self) -> (r: bool)
        ensures
            r == self@.skips(),
    {
        if self.pending.is_some() || self.items.len() == 0 {
            return false;
        }
        assert(self@.items[0] == text::either(self.items@[0]));
        match &self.items[0] {
            Ok(path) => !names_config(path.as_str()),
            Err(_) => true,
        }
    }

    /// Takes the next item off the listing.
    fn next_item(&mut self) -> (r: Result<String, String>)
        requires
            old(self)@.items.len() > 0,
        ensures
            text::either(r) == old(self)@.items[0],
            final(self)@ == (ScanState { items: old(self)@.items.drop_first(), ..old(self)@ }),
    {
        let item: Result<String, String> = self.items.remove(0);
        assert(self@ =~= ScanState { items: old(self)@.items.drop_first(), ..old(self)@ });
        item
    }

    /// Reports `kind` about `path`.
    fn report(&mut self, path: String, kind: IssueKind)
        ensures
            final(self)@ == old(self)@.with_issue(path@, kind@),
    {
        self.issues.push(Issue::new(path, kind));
        assert(self@ =~= old(self)@.with_issue(path@, kind@));
    }

    /// Drops every item that needs no file to be read, up to the next one that
    /// does.
    fn settle(&mut self)
        ensures
            final(self)@ == old(self)@.settled(),
            !final(self)@.skips(),
            final(self)@.pending == old(self)@.pending,
    {
        while self.skips()
            invariant
                self@.settled() == old(self)@.settled(),
                self@.pending == old(self)@.pending,
            decreases self@.items.len(),
        {
            let ghost before = self@;
            match self.next_item() {
                Err(error) => {
                    let directory: String = self.directory.clone();
                    self.report(
                        directory,
                        IssueKind::Unreadable("directory entry: ".to_string().concat(error.as_str())),
                    );
                },
                Ok(_) => {},
            }
            assert(self@ == before.skipped());
        }
    }

    /// Lets `entry` ask for its id.
    fn offer(&mut self, entry: Entry)
        ensures
            final(self)@ == old(self)@.with_entry(entry@),
    {
        let claimed_by: Option<String> = match find_claim(&self.entries, entry.id()) {
            Some(known) => Some(known.path().to_string()),
            None => None,
        };
        match claimed_by {
            Some(claimed_by) => {
                let path: String = entry.path().to_string();
                self.report(path, IssueKind::DuplicateId { id: entry.id(), claimed_by });
            },
            None => {
                self.entries.push(entry);
                assert(self@ =~= old(self)@.with_entry(entry@));
            },
        }
    }

    /// Hands over the listing of the directory that [`Scanner::action`] named.
    pub fn read_directory(&mut self, listing: Result<Vec<Result<String, String>>, String>)
        requires
            old(self)@.wf(),
            old(self)@.action() is ReadDirectory,
        ensures
            final(self)@ == old(self)@.listed(listing_view(listing)),
            final(self)@.wf(),
    {
        proof {
            law_listing_keeps(self@, listing_view(listing));
        }
        let directory: String = self.todo.remove(0);
        self.directory = directory.clone();
        assert(self@ =~= ScanState {
            todo: old(self)@.todo.drop_first(),
            directory: old(self)@.todo[0],
            ..old(self)@
        });
        match listing {
            Err(error) => {
                self.report(directory, IssueKind::DirectoryUnavailable(error));
            },
            Ok(items) => {
                self.items = items;
                self.settle();
            },
        }
    }

    /// Hands over what became of the config file that [`Scanner::action`]
    /// named.
    fn take_outcome(&mut self, outcome: Result<Candidate, IssueKind>)
        requires
            old(self)@.wf(),
            old(self)@.action() is ReadText,
        ensures
            final(self)@ == old(self)@.parsed(candidate_outcome(outcome)),
    {
        let item: Result<String, String> = self.next_item();
        match outcome {
            Err(kind) => {
                match item {
                    Ok(path) => {
                        self.report(path, kind);
                    },
                    Err(_) => {},
                }
                self.settle();
            },
            Ok(candidate) => {
                if candidate.is_complete() {
                    self.offer(candidate.into_entry());
                    self.settle();
                } else {
                    let ghost rest = self@;
                    self.pending = Some(candidate);
                    assert(self@ =~= ScanState { pending: Some(candidate@), ..rest });
                }
            },
        }
    }

    /// Hands over the text of the config file that [`Scanner::action`] named,
    /// and what the config parser made of it.
    pub fn read_text_with(
        &mut self,
        content: Result<String, String>,
        config: Result<GuestFacts, String>,
    )
        requires
            old(self)@.wf(),
            old(self)@.action() is ReadText,
        ensures
            final(self)@ == old(self)@.read(text::either(content), config_outcome(config)),
            final(self)@.wf(),
    {
        proof {
            law_reading_keeps(self@, text::either(content), config_outcome(config));
        }
        assert(self@.items[0] == text::either(self.items@[0]));
        let path: String = match &self.items[0] {
            Ok(path) => path.clone(),
            Err(_) => String::new(),
        };
        let outcome: Result<Candidate, IssueKind> = parse_entry_with(
            path.as_str(),
            self.directory.as_str(),
            content,
            config,
        );
        self.take_outcome(outcome);
    }

    /// Hands over the text of the config file that [`Scanner::action`] named.
    pub fn read_text(&mut self, content: Result<String, String>)
        requires
            old(self)@.wf(),
            old(self)@.action() is ReadText,
        ensures
            exists|config: ConfigOutcome|
                may_parse_as(text::either(content), config) && final(self)@
                    == #[trigger] old(self)@.read(text::either(content), config),
            final(self)@.wf(),
    {
        let config: Result<GuestFacts, String> = parse_content(&content);
        self.read_text_with(content, config);
    }

    /// Hands over whether the file that [`Scanner::action`] named exists.
    pub fn look_up(&mut self, present: bool)
        requires
            old(self)@.wf(),
            old(self)@.action() is LookUp,
        ensures
            final(self)@ == old(self)@.looked_up(present),
            final(self)@.wf(),
    {
        proof {
            law_look_up_keeps(self@, present);
        }
        match self.pending.take() {
            Some(mut candidate) => {
                let image: String = candidate.take_image();
                if !present {
                    let path: String = candidate.path();
                    self.report(path, IssueKind::MissingImage(image));
                    self.settle();
                } else if candidate.is_complete() {
                    self.offer(candidate.into_entry());
                    self.settle();
                } else {
                    self.pending = Some(candidate);
                    assert(self@ =~= old(self)@.looked_up(present));
                }
            },
            None => {},
        }
    }

    /// The pool the finished scan has found.
    pub fn finish(self) -> (r: Pool)
        requires
            self@.wf(),
            self@.action() is Finished,
        ensures
            r@ == self@.pool(),
            r@.wf(),
    {
        let directory: String = if self.sources.len() > 0 {
            self.sources[0].clone()
        } else {
            String::new()
        };
        Pool::new(directory, self.sources, self.entries, self.issues)
    }
}

}
