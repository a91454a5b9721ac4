//! Browsing one directory of the guest filesystem.
//!
//! This is what lets the operator pick a config from anywhere instead of only
//! from the pool: every config file is parsed on the spot, so the result
//! already says which files are startable and why the others are not. As in a
//! scan, [`Browser::action`] names one question to the filesystem at a time.

use super::pool::{
    entry_views, issue_views, Entry, EntryView, Issue, IssueKind, IssueKindView, IssueView,
};
use super::scan::{
    file_outcome, is_config_path, may_parse_as, names_config, parse_content,
    parse_entry_with, Candidate, CandidateView, ScanAction, ScanActionView,
};
use crate::guest::{config_outcome, ConfigOutcome, GuestFacts};
use crate::order::{is_stable_sort, seq_view, sort, Keyed};
use crate::text;
use vstd::prelude::*;

verus! {

/// One subdirectory that can be browsed into.
#[derive(Debug, Clone, PartialEq, Eq)]
pub struct Directory {
    name: String,
    path: String,
}

/// The view of a [`Directory`].
pub struct DirectoryView {
    /// Last component of the path.
    pub name: Seq<char>,
    /// Path to browse into.
    pub path: Seq<char>,
}

impl View for Directory {
    type V = DirectoryView;

    closed spec fn view(&self) -> DirectoryView {
        DirectoryView { name: self.name@, path: self.path@ }
    }
}

impl Directory {
    /// Last component of the path.
    pub fn name(&self) -> (r: &str)
        ensures
            r@ == self@.name,
    {
        self.name.as_str()
    }

    /// Path to browse into.
    pub fn path(&self) -> (r: &str)
        ensures
            r@ == self@.path,
    {
        self.path.as_str()
    }
}

/// The views of a sequence of directories.
pub open spec fn directory_views(directories: Seq<Directory>) -> Seq<DirectoryView> {
    directories.map_values(|directory: Directory| directory@)
}

/// One browsed directory.
#[derive(Debug, Clone, PartialEq, Eq)]
pub struct Folder {
    path: String,
    parent: Option<String>,
    directories: Vec<Directory>,
    entries: Vec<Entry>,
    issues: Vec<Issue>,
}

/// The view of a [`Folder`].
pub struct FolderView {
    /// Directory that was read.
    pub path: Seq<char>,
    /// Directory one level up.
    pub parent: Option<Seq<char>>,
    /// Subdirectories.
    pub directories: Seq<DirectoryView>,
    /// Startable configs.
    pub entries: Seq<EntryView>,
    /// Config files that cannot be started.
    pub issues: Seq<IssueView>,
}

impl View for Folder {
    type V = FolderView;

    closed spec fn view(&self) -> FolderView {
        FolderView {
            path: self.path@,
            parent: text::optional(self.parent),
            directories: directory_views(self.directories@),
            entries: entry_views(self.entries@),
            issues: issue_views(self.issues@),
        }
    }
}

impl Folder {
    /// Directory that was read.
    pub fn path(&self) -> (r: &str)
        ensures
            r@ == self@.path,
    {
        self.path.as_str()
    }

    /// Directory one level up, unless this is the filesystem root.
    pub fn parent(&self) -> (r: Option<&str>)
        ensures
            match r {
                Some(parent) => self@.parent == Some(parent@),
                None => self@.parent is None,
            },
    {
        match &self.parent {
            Some(parent) => Some(parent.as_str()),
            None => None,
        }
    }

    /// Subdirectories, by name.
    pub fn directories(&self) -> (r: &[Directory])
        ensures
            directory_views(r@) == self@.directories,
    {
        self.directories.as_slice()
    }

    /// Startable configs in this folder, by name.
    pub fn entries(&self) -> (r: &[Entry])
        ensures
            entry_views(r@) == self@.entries,
    {
        self.entries.as_slice()
    }

    /// Config files that cannot be started, plus the folder itself when it
    /// could not be read.
    pub fn issues(&self) -> (r: &[Issue])
        ensures
            issue_views(r@) == self@.issues,
    {
        self.issues.as_slice()
    }
}

/// The directory one level above `path`. The root, and a relative path of a
/// single component, have none; `/guest` and `/guest/` both sit directly under
/// the root.
pub open spec fn parent_of(path: Seq<char>) -> Option<Seq<char>> {
    let trimmed = text::strip_trailing(path, '/');
    let slash = text::last_position(trimmed, '/');
    if slash < 0 {
        None
    } else if slash == 0 {
        Some("/"@)
    } else {
        Some(trimmed.take(slash))
    }
}

/// The directory one level above `path`, where there is one.
pub fn parent_directory(path: &str) -> (r: Option<String>)
    ensures
        text::optional(r) == parent_of(path@),
{
    let trimmed: &str = text::trim_end_matches(path, '/');
    match text::before_last(trimmed, '/') {
        Some(head) => {
            if head.is_empty() {
                Some("/".to_string())
            } else {
                Some(head.to_string())
            }
        },
        None => None,
    }
}

/// The text a directory is sorted by.
pub open spec fn by_name() -> spec_fn(DirectoryView) -> Seq<char> {
    |directory: DirectoryView| directory.name
}

/// The text an entry is sorted by.
pub open spec fn by_entry_path() -> spec_fn(EntryView) -> Seq<char> {
    |entry: EntryView| entry.path
}

/// The text an issue is sorted by.
pub open spec fn by_issue_path() -> spec_fn(IssueView) -> Seq<char> {
    |issue: IssueView| issue.path
}

impl Keyed for Directory {
    open spec fn key() -> spec_fn(DirectoryView) -> Seq<char> {
        by_name()
    }

    fn key_text(&self) -> (r: &str) {
        self.name()
    }
}

impl Keyed for Entry {
    open spec fn key() -> spec_fn(EntryView) -> Seq<char> {
        by_entry_path()
    }

    fn key_text(&self) -> (r: &str) {
        self.path()
    }
}

impl Keyed for Issue {
    open spec fn key() -> spec_fn(IssueView) -> Seq<char> {
        by_issue_path()
    }

    fn key_text(&self) -> (r: &str) {
        self.path()
    }
}

/// One item of a browsed directory: its path and whether it is a directory, or
/// the error met in its place.
pub type BrowseItem = Result<(Seq<char>, bool), Seq<char>>;

/// The listing of a browsed directory, or the reason why there is none.
pub type BrowseListing = Result<Seq<BrowseItem>, Seq<char>>;

/// The view of one item.
pub open spec fn browse_item_view(item: Result<(String, bool), String>) -> BrowseItem {
    match item {
        Ok((path, is_directory)) => Ok((path@, is_directory)),
        Err(error) => Err(error@),
    }
}

/// The view of a sequence of items.
pub open spec fn browse_items_view(items: Seq<Result<(String, bool), String>>) -> Seq<BrowseItem> {
    items.map_values(|item: Result<(String, bool), String>| browse_item_view(item))
}

/// The view of a listing.
pub open spec fn browse_listing_view(
    listing: Result<Vec<Result<(String, bool), String>>, String>,
) -> BrowseListing {
    match listing {
        Ok(items) => Ok(browse_items_view(items@)),
        Err(error) => Err(error@),
    }
}

/// A directory being browsed.
pub struct Browser {
    path: String,
    listed: bool,
    items: Vec<Result<(String, bool), String>>,
    pending: Option<Candidate>,
    directories: Vec<Directory>,
    entries: Vec<Entry>,
    issues: Vec<Issue>,
}

/// The view of a [`Browser`].
#[verifier::ext_equal]
pub struct BrowseState {
    /// The directory being browsed.
    pub path: Seq<char>,
    /// Whether its listing has been handed over.
    pub listed: bool,
    /// What remains of the listing.
    pub items: Seq<BrowseItem>,
    /// A config whose images are being looked up.
    pub pending: Option<CandidateView>,
    /// The subdirectories found so far.
    pub directories: Seq<DirectoryView>,
    /// The entries found so far.
    pub entries: Seq<EntryView>,
    /// The issues found so far.
    pub issues: Seq<IssueView>,
}

impl BrowseState {
    /// The state before anything was asked.
    pub open spec fn start(path: Seq<char>) -> BrowseState {
        BrowseState {
            path,
            listed: false,
            items: Seq::empty(),
            pending: None,
            directories: Seq::empty(),
            entries: Seq::empty(),
            issues: Seq::empty(),
        }
    }

    /// Whether the next item of the listing needs no file to be read.
    pub open spec fn skips(self) -> bool {
        &&& self.pending is None
        &&& self.items.len() > 0
        &&& self.items[0] is Ok ==> self.items[0]->Ok_0.1 || !is_config_path(self.items[0]->Ok_0.0)
    }

    /// Whether the state is one that browsing rests in.
    pub open spec fn wf(self) -> bool {
        &&& !self.skips()
        &&& self.pending is Some ==> self.pending->0.images.len() > 0
        &&& !self.listed ==> self.items.len() == 0 && self.pending is None
    }

    /// What browsing needs next.
    pub open spec fn action(self) -> ScanActionView {
        if !self.listed {
            ScanActionView::ReadDirectory(self.path)
        } else if self.pending is Some {
            ScanActionView::LookUp(self.pending->0.images[0])
        } else if self.items.len() > 0 {
            ScanActionView::ReadText(self.items[0]->Ok_0.0)
        } else {
            ScanActionView::Finished
        }
    }

    /// The state with one more issue.
    pub open spec fn with_issue(self, path: Seq<char>, kind: IssueKindView) -> BrowseState {
        BrowseState { issues: self.issues.push(IssueView { path, kind }), ..self }
    }

    /// The state with one more entry.
    pub open spec fn with_entry(self, entry: EntryView) -> BrowseState {
        BrowseState { entries: self.entries.push(entry), ..self }
    }

    /// The state after the next item of the listing, which needs no file to be
    /// read: an error is reported, a directory is kept, any other file is
    /// passed over.
    pub open spec fn skipped(self) -> BrowseState {
        let rest = BrowseState { items: self.items.drop_first(), ..self };
        match self.items[0] {
            Err(error) => rest.with_issue(
                self.path,
                IssueKindView::Unreadable("directory entry: "@ + error),
            ),
            Ok((path, is_directory)) => if is_directory {
                BrowseState {
                    directories: self.directories.push(
                        DirectoryView { name: text::after_last(path, '/'), path },
                    ),
                    ..rest
                }
            } else {
                rest
            },
        }
    }

    /// The state after every item that needs no file to be read, up to the next
    /// one that does.
    pub open spec fn settled(self) -> BrowseState
        decreases self.items.len(),
    {
        if self.skips() {
            self.skipped().settled()
        } else {
            self
        }
    }

    /// The state after the listing of the directory.
    pub open spec fn with_listing(self, listing: BrowseListing) -> BrowseState {
        let opened = BrowseState { listed: true, ..self };
        match listing {
            Err(error) => opened.with_issue(self.path, IssueKindView::DirectoryUnavailable(error)),
            Ok(items) => BrowseState { items, ..opened }.settled(),
        }
    }

    /// The state after the next config file came out as `outcome`.
    pub open spec fn parsed(self, outcome: Result<CandidateView, IssueKindView>) -> BrowseState {
        let rest = BrowseState { items: self.items.drop_first(), ..self };
        match outcome {
            Err(kind) => rest.with_issue(self.items[0]->Ok_0.0, kind).settled(),
            Ok(candidate) => if candidate.images.len() == 0 {
                rest.with_entry(candidate.entry).settled()
            } else {
                BrowseState { pending: Some(candidate), ..rest }
            },
        }
    }

    /// The state after reading the next config file, given what the config
    /// parser made of its text.
    pub open spec fn read(
        self,
        content: Result<Seq<char>, Seq<char>>,
        config: ConfigOutcome,
    ) -> BrowseState {
        self.parsed(file_outcome(self.items[0]->Ok_0.0, self.path, content, config))
    }

    /// The state after looking up the next image of the pending config.
    pub open spec fn looked_up(self, present: bool) -> BrowseState {
        let candidate = self.pending->0;
        let rest = BrowseState { pending: None, ..self };
        if !present {
            rest.with_issue(
                candidate.entry.path,
                IssueKindView::MissingImage(candidate.images[0]),
            ).settled()
        } else if candidate.images.len() == 1 {
            rest.with_entry(candidate.entry).settled()
        } else {
            BrowseState {
                pending: Some(
                    CandidateView { images: candidate.images.drop_first(), ..candidate },
                ),
                ..self
            }
        }
    }

    /// Whether `folder` is what finished browsing hands out: everything found,
    /// directories by name, entries and issues by path.
    pub open spec fn yields(self, folder: FolderView) -> bool {
        &&& folder.path == self.path
        &&& folder.parent == parent_of(self.path)
        &&& is_stable_sort(self.directories, folder.directories, by_name())
        &&& is_stable_sort(self.entries, folder.entries, by_entry_path())
        &&& is_stable_sort(self.issues, folder.issues, by_issue_path())
    }
}

impl View for Browser {
    type V = BrowseState;

    closed spec fn view(&self) -> BrowseState {
        BrowseState {
            path: self.path@,
            listed: self.listed,
            items: browse_items_view(self.items@),
            pending: match self.pending {
                Some(candidate) => Some(candidate@),
                None => None,
            },
            directories: directory_views(self.directories@),
            entries: entry_views(self.entries@),
            issues: issue_views(self.issues@),
        }
    }
}

/// Starts browsing the directory `path`.
///
/// A directory that cannot be read comes back as an empty [`Folder`] with a
/// [`IssueKind::DirectoryUnavailable`] issue, the same shape a pool scan uses.
pub fn browse(path: &str) -> (r: Browser)
    ensures
        r@ == BrowseState::start(path@),
        r@.wf(),
{
    let r = Browser {
        path: path.to_string(),
        listed: false,
        items: Vec::new(),
        pending: None,
        directories: Vec::new(),
        entries: Vec::new(),
        issues: Vec::new(),
    };
    assert(r@ =~= BrowseState::start(path@));
    r
}

impl Browser {
    /// What browsing needs from the filesystem next.
    pub fn action(&self) -> (r: ScanAction)
        requires
            self@.wf(),
        ensures
            r@ == self@.action(),
    {
        if !self.listed {
            return ScanAction::ReadDirectory(self.path.clone());
        }
        match &self.pending {
            Some(candidate) => ScanAction::LookUp(candidate.next_image()),
            None => {
                if self.items.len() > 0 {
                    assert(self@.items[0] == browse_item_view(self.items@[0]));
                    match &self.items[0] {
                        Ok((path, _)) => ScanAction::ReadText(path.clone()),
                        Err(_) => ScanAction::Finished,
                    }
                } else {
                    ScanAction::Finished
                }
            },
        }
    }

    /// Whether the next item of the listing needs no file to be read.
    fn skips(&self) -> (r: bool)
        ensures
            r == self@.skips(),
    {
        if self.pending.is_some() || self.items.len() == 0 {
            return false;
        }
        assert(self@.items[0] == browse_item_view(self.items@[0]));
        match &self.items[0] {
            Ok((path, is_directory)) => *is_directory || !names_config(path.as_str()),
            Err(_) => true,
        }
    }

    /// Takes the next item off the listing.
    fn next_item(&mut self) -> (r: Result<(String, bool), String>)
        requires
            old(self)@.items.len() > 0,
        ensures
            browse_item_view(r) == old(self)@.items[0],
            final(self)@ == (BrowseState { items: old(self)@.items.drop_first(), ..old(self)@ }),
    {
        let item: Result<(String, bool), String> = self.items.remove(0);
        assert(self@ =~= BrowseState { items: old(self)@.items.drop_first(), ..old(self)@ });
        item
    }

    /// Reports `kind` about `path`.
    fn report(&mut self, path: String, kind: IssueKind)
        ensures
            final(self)@ == old(self)@.with_issue(path@, kind@),
    {
        self.issues.push(Issue::new(path, kind));
        assert(self@ =~= old(self)@.with_issue(path@, kind@));
    }

    /// Keeps `entry`.
    fn keep(&mut self, entry: Entry)
        ensures
            final(self)@ == old(self)@.with_entry(entry@),
    {
        self.entries.push(entry);
        assert(self@ =~= old(self)@.with_entry(entry@));
    }

    /// Takes every item that needs no file to be read, up to the next one that
    /// does.
    fn settle(&mut self)
        ensures
            final(self)@ == old(self)@.settled(),
            !final(self)@.skips(),
            final(self)@.pending == old(self)@.pending,
            final(self)@.listed == old(self)@.listed,
    {
        while self.skips()
            invariant
                self@.settled() == old(self)@.settled(),
                self@.pending == old(self)@.pending,
                self@.listed == old(self)@.listed,
            decreases self@.items.len(),
        {
            let ghost before = self@;
            match self.next_item() {
                Err(error) => {
                    let path: String = self.path.clone();
                    self.report(
                        path,
                        IssueKind::Unreadable("directory entry: ".to_string().concat(error.as_str())),
                    );
                },
                Ok((path, is_directory)) => {
                    if is_directory {
                        let name: String = text::last_piece(path.as_str(), '/').to_string();
                        self.directories.push(Directory { name, path });
                        assert(self@ =~= before.skipped());
                    }
                },
            }
            assert(self@ == before.skipped());
        }
    }

    /// Hands over the listing of the directory.
    pub fn read_directory(&mut self, listing: Result<Vec<Result<(String, bool), String>>, String>)
        requires
            old(self)@.wf(),
            old(self)@.action() is ReadDirectory,
        ensures
            final(self)@ == old(self)@.with_listing(browse_listing_view(listing)),
            final(self)@.wf(),
    {
        self.listed = true;
        assert(self@ =~= BrowseState { listed: true, ..old(self)@ });
        match listing {
            Err(error) => {
                let path: String = self.path.clone();
                self.report(path, IssueKind::DirectoryUnavailable(error));
            },
            Ok(items) => {
                self.items = items;
                self.settle();
            },
        }
    }

    /// Hands over the text of the config file that [`Browser::action`] named,
    /// and what the config parser made of it.
    pub fn read_text_with(
        &mut self,
        content: Result<String, String>,
        config: Result<GuestFacts, String>,
    )
        requires
            old(self)@.wf(),
            old(self)@.action() is ReadText,
        ensures
            final(self)@ == old(self)@.read(text::either(content), config_outcome(config)),
            final(self)@.wf(),
    {
        let item: Result<(String, bool), String> = self.next_item();
        let path: String = match item {
            Ok((path, _)) => path,
            Err(_) => String::new(),
        };
        let outcome: Result<Candidate, IssueKind> = parse_entry_with(
            path.as_str(),
            self.path.as_str(),
            content,
            config,
        );
        match outcome {
            Err(kind) => {
                self.report(path, kind);
                self.settle();
            },
            Ok(candidate) => {
                if candidate.is_complete() {
                    self.keep(candidate.into_entry());
                    self.settle();
                } else {
                    let ghost rest = self@;
                    self.pending = Some(candidate);
                    assert(self@ =~= BrowseState { pending: Some(candidate@), ..rest });
                }
            },
        }
    }

    /// Hands over the text of the config file that [`Browser::action`] named.
    pub fn read_text(&mut self, content: Result<String, String>)
        requires
            old(self)@.wf(),
            old(self)@.action() is ReadText,
        ensures
            exists|config: ConfigOutcome|
                may_parse_as(text::either(content), config) && final(self)@
                    == #[trigger] old(self)@.read(text::either(content), config),
            final(self)@.wf(),
    {
        let config: Result<GuestFacts, String> = parse_content(&content);
        self.read_text_with(content, config);
    }

    /// Hands over whether the file that [`Browser::action`] named exists.
    pub fn look_up(&mut self, present: bool)
        requires
            old(self)@.wf(),
            old(self)@.action() is LookUp,
        ensures
            final(self)@ == old(self)@.looked_up(present),
            final(self)@.wf(),
    {
        match self.pending.take() {
            Some(mut candidate) => {
                let image: String = candidate.take_image();
                if !present {
                    let path: String = candidate.path();
                    self.report(path, IssueKind::MissingImage(image));
                    self.settle();
                } else if candidate.is_complete() {
                    self.keep(candidate.into_entry());
                    self.settle();
                } else {
                    self.pending = Some(candidate);
                    assert(self@ =~= old(self)@.looked_up(present));
                }
            },
            None => {},
        }
    }

    /// The browsed directory.
    pub fn finish(self) -> (r: Folder)
        requires
            self@.wf(),
            self@.action() is Finished,
        ensures
            self@.yields(r@),
    {
        let parent: Option<String> = parent_directory(self.path.as_str());
        let directories: Vec<Directory> = sort(self.directories);
        let entries: Vec<Entry> = sort(self.entries);
        let issues: Vec<Issue> = sort(self.issues);
        assert(seq_view(self.directories@) =~= directory_views(self.directories@));
        assert(seq_view(directories@) =~= directory_views(directories@));
        assert(seq_view(self.entries@) =~= entry_views(self.entries@));
        assert(seq_view(entries@) =~= entry_views(entries@));
        assert(seq_view(self.issues@) =~= issue_views(self.issues@));
        assert(seq_view(issues@) =~= issue_views(issues@));
        Folder { path: self.path, parent, directories, entries, issues }
    }
}

}
