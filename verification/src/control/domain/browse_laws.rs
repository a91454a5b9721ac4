//! What browsing a directory finds, and where the directory above it lies.

use super::browse::{
    self, BrowseItem, BrowseListing, BrowseState, Directory, DirectoryView, FolderView,
};
use super::pool::{EntryView, IssueKindView, IssueView};
use super::scan::{self, ScanActionView};
use super::scan_laws::{Finding, World};
use crate::order::law_sort_keeps_everything;
use crate::text;
use vstd::prelude::*;

verus! {

/// What a browsed directory holds, in the order of its listing.
#[verifier::ext_equal]
pub struct Catalogue {
    /// Subdirectories.
    pub directories: Seq<DirectoryView>,
    /// Startable configs.
    pub entries: Seq<EntryView>,
    /// What cannot be started.
    pub issues: Seq<IssueView>,
}

impl Catalogue {
    /// Nothing at all.
    pub open spec fn none() -> Catalogue {
        Catalogue { directories: Seq::empty(), entries: Seq::empty(), issues: Seq::empty() }
    }

    /// One subdirectory.
    pub open spec fn directory(directory: DirectoryView) -> Catalogue {
        Catalogue { directories: seq![directory], ..Catalogue::none() }
    }

    /// One issue.
    pub open spec fn issue(path: Seq<char>, kind: IssueKindView) -> Catalogue {
        Catalogue { issues: seq![IssueView { path, kind }], ..Catalogue::none() }
    }

    /// What one config file contributes.
    pub open spec fn file(finding: Finding) -> Catalogue {
        match finding {
            Finding::Usable(entry) => Catalogue { entries: seq![entry], ..Catalogue::none() },
            Finding::Unusable(issue) => Catalogue { issues: seq![issue], ..Catalogue::none() },
        }
    }

    /// This catalogue followed by `next`.
    pub open spec fn then_also(self, next: Catalogue) -> Catalogue {
        Catalogue {
            directories: self.directories + next.directories,
            entries: self.entries + next.entries,
            issues: self.issues + next.issues,
        }
    }

    /// Whether the catalogue speaks of `path`.
    pub open spec fn mentions(self, path: Seq<char>) -> bool {
        ||| exists|k: int|
            0 <= k < self.directories.len() && (#[trigger] self.directories[k]).path == path
        ||| exists|k: int| 0 <= k < self.entries.len() && (#[trigger] self.entries[k]).path == path
        ||| exists|k: int| 0 <= k < self.issues.len() && (#[trigger] self.issues[k]).path == path
    }
}

/// What one item of the listing of `folder` contributes.
pub open spec fn item_catalogue(world: World, folder: Seq<char>, item: BrowseItem) -> Catalogue {
    match item {
        Err(error) => Catalogue::issue(
            folder,
            IssueKindView::Unreadable("directory entry: "@ + error),
        ),
        Ok((path, is_directory)) => if is_directory {
            Catalogue::directory(DirectoryView { name: text::after_last(path, '/'), path })
        } else if scan::is_config_path(path) {
            Catalogue::file(world.file_finding(folder, path))
        } else {
            Catalogue::none()
        },
    }
}

/// What the items of a listing of `folder` contribute, in order.
pub open spec fn items_catalogue(world: World, folder: Seq<char>, items: Seq<BrowseItem>) -> Catalogue
    decreases items.len(),
{
    if items.len() == 0 {
        Catalogue::none()
    } else {
        item_catalogue(world, folder, items[0]).then_also(
            items_catalogue(world, folder, items.drop_first()),
        )
    }
}

/// What browsing `folder` finds when it lists as `listing`.
pub open spec fn browse_of(world: World, folder: Seq<char>, listing: BrowseListing) -> Catalogue {
    match listing {
        Err(error) => Catalogue::issue(folder, IssueKindView::DirectoryUnavailable(error)),
        Ok(items) => items_catalogue(world, folder, items),
    }
}

/// The state after the question that `state` asks is answered, the listing
/// with `listing` and everything else from `world`.
pub open spec fn step(state: BrowseState, world: World, listing: BrowseListing) -> BrowseState {
    match state.action() {
        ScanActionView::ReadDirectory(_) => state.with_listing(listing),
        ScanActionView::ReadText(path) => state.read((world.contents)(path), world.config(path)),
        ScanActionView::LookUp(path) => state.looked_up((world.present)(path)),
        ScanActionView::Finished => state,
    }
}

/// The state after `n` questions are answered.
pub open spec fn steps(state: BrowseState, world: World, listing: BrowseListing, n: nat) -> BrowseState
    decreases n,
{
    if n == 0 {
        state
    } else {
        steps(step(state, world, listing), world, listing, (n - 1) as nat)
    }
}

/// What has been found, followed by what is still to be found.
spec fn completion(state: BrowseState, world: World, listing: BrowseListing) -> Catalogue {
    Catalogue {
        directories: state.directories,
        entries: state.entries,
        issues: state.issues,
    }.then_also(
        match state.pending {
            Some(candidate) => Catalogue::file(world.candidate_finding(candidate)),
            None => Catalogue::none(),
        },
    ).then_also(
        if state.listed {
            items_catalogue(world, state.path, state.items)
        } else {
            browse_of(world, state.path, listing)
        },
    )
}

proof fn lemma_settled(state: BrowseState, world: World, listing: BrowseListing)
    requires
        state.listed,
    ensures
        completion(state.settled(), world, listing) == completion(state, world, listing),
        !state.settled().skips(),
        state.settled().pending == state.pending,
        state.settled().items.len() <= state.items.len(),
        state.settled().path == state.path,
        state.settled().listed,
    decreases state.items.len(),
{
    if state.skips() {
        let next = state.skipped();
        lemma_settled(next, world, listing);
        assert(completion(next, world, listing) =~= completion(state, world, listing));
    }
}

/// How far browsing in `state` is from its end.
spec fn distance(state: BrowseState) -> nat {
    state.items.len() * 8 + match state.pending {
        Some(candidate) => 1 + candidate.images.len(),
        None => 0,
    }
}

proof fn lemma_step(state: BrowseState, world: World, listing: BrowseListing)
    requires
        state.wf(),
        !(state.action() is Finished),
    ensures
        step(state, world, listing).wf(),
        step(state, world, listing).path == state.path,
        step(state, world, listing).listed,
        completion(step(state, world, listing), world, listing) == completion(
            state,
            world,
            listing,
        ),
        state.listed ==> distance(step(state, world, listing)) < distance(state),
{
    let next = step(state, world, listing);
    match state.action() {
        ScanActionView::ReadDirectory(_) => {
            let opened = BrowseState { listed: true, ..state };
            match listing {
                Err(error) => {
                    assert(completion(next, world, listing) =~= completion(state, world, listing));
                },
                Ok(items) => {
                    let full = BrowseState { items, ..opened };
                    lemma_settled(full, world, listing);
                    assert(completion(full, world, listing) =~= completion(state, world, listing));
                },
            }
        },
        ScanActionView::ReadText(path) => {
            let rest = BrowseState { items: state.items.drop_first(), ..state };
            let content = (world.contents)(path);
            let config = world.config(path);
            match scan::file_outcome(path, state.path, content, config) {
                Err(kind) => {
                    let reported = rest.with_issue(path, kind);
                    lemma_settled(reported, world, listing);
                    assert(completion(reported, world, listing) =~= completion(
                        state,
                        world,
                        listing,
                    ));
                },
                Ok(candidate) => {
                    assert(candidate.images.len() <= 3);
                    if candidate.images.len() == 0 {
                        let kept = rest.with_entry(candidate.entry);
                        lemma_settled(kept, world, listing);
                        assert(completion(kept, world, listing) =~= completion(
                            state,
                            world,
                            listing,
                        ));
                    } else {
                        assert(completion(next, world, listing) =~= completion(
                            state,
                            world,
                            listing,
                        ));
                    }
                },
            }
        },
        ScanActionView::LookUp(image) => {
            let candidate = state.pending->0;
            let rest = BrowseState { pending: None, ..state };
            if !(world.present)(image) {
                let reported = rest.with_issue(
                    candidate.entry.path,
                    IssueKindView::MissingImage(image),
                );
                lemma_settled(reported, world, listing);
                assert(completion(reported, world, listing) =~= completion(state, world, listing));
            } else if candidate.images.len() == 1 {
                assert(candidate.images.drop_first().len() == 0);
                reveal_with_fuel(World::first_missing, 2);
                let kept = rest.with_entry(candidate.entry);
                lemma_settled(kept, world, listing);
                assert(completion(kept, world, listing) =~= completion(state, world, listing));
            } else {
                assert(world.candidate_finding(next.pending->0) == world.candidate_finding(
                    candidate,
                ));
                assert(completion(next, world, listing) =~= completion(state, world, listing));
            }
        },
        ScanActionView::Finished => {},
    }
}

proof fn lemma_browse_ends(state: BrowseState, world: World, listing: BrowseListing) -> (n: nat)
    requires
        state.wf(),
    ensures
        steps(state, world, listing, n).action() is Finished,
        steps(state, world, listing, n).wf(),
        steps(state, world, listing, n).path == state.path,
        steps(state, world, listing, n).directories == completion(
            state,
            world,
            listing,
        ).directories,
        steps(state, world, listing, n).entries == completion(state, world, listing).entries,
        steps(state, world, listing, n).issues == completion(state, world, listing).issues,
    decreases
            (if state.listed {
                0int
            } else {
                1int
            }),
            distance(state),
{
    if state.action() is Finished {
        let done = completion(state, world, listing);
        assert(done.directories =~= state.directories);
        assert(done.entries =~= state.entries);
        assert(done.issues =~= state.issues);
        0
    } else {
        lemma_step(state, world, listing);
        let m = lemma_browse_ends(step(state, world, listing), world, listing);
        m + 1
    }
}

/// Browsing comes to an end, and what it has found then is what the items of
/// the listing contribute: subdirectories, startable configs and the reasons
/// why the other configs are not startable. Unlike in a scan, two configs may
/// ask for the same id.
pub proof fn law_browse_finds(world: World, folder: Seq<char>, listing: BrowseListing)
    ensures
        exists|n: nat|
            {
                let end = #[trigger] steps(BrowseState::start(folder), world, listing, n);
                &&& end.action() is Finished
                &&& end.path == folder
                &&& end.directories == browse_of(world, folder, listing).directories
                &&& end.entries == browse_of(world, folder, listing).entries
                &&& end.issues == browse_of(world, folder, listing).issues
            },
{
    let start = BrowseState::start(folder);
    let n = lemma_browse_ends(start, world, listing);
    assert(completion(start, world, listing) =~= browse_of(world, folder, listing));
    let end = steps(start, world, listing, n);
    assert(end.path == folder);
}

/// Every subdirectory and every config file of a listing is reported under its
/// own path.
pub proof fn law_browse_mentions_every_config(
    world: World,
    folder: Seq<char>,
    items: Seq<BrowseItem>,
    i: int,
)
    requires
        0 <= i < items.len(),
        items[i] is Ok,
        items[i]->Ok_0.1 || scan::is_config_path(items[i]->Ok_0.0),
    ensures
        browse_of(world, folder, Ok(items)).mentions(items[i]->Ok_0.0),
    decreases items.len(),
{
    let first = item_catalogue(world, folder, items[0]);
    let rest = items_catalogue(world, folder, items.drop_first());
    let all = first.then_also(rest);
    let path = items[i]->Ok_0.0;
    if i == 0 {
        if items[0]->Ok_0.1 {
            assert(all.directories[0].path == path);
        } else {
            match world.file_finding(folder, path) {
                Finding::Usable(entry) => {
                    assert(all.entries[0].path == path);
                },
                Finding::Unusable(issue) => {
                    assert(all.issues[0].path == path);
                },
            }
        }
    } else {
        law_browse_mentions_every_config(world, folder, items.drop_first(), i - 1);
        assert(rest.mentions(path));
        if exists|k: int|
            0 <= k < rest.directories.len() && (#[trigger] rest.directories[k]).path == path {
            let k = choose|k: int|
                0 <= k < rest.directories.len() && (#[trigger] rest.directories[k]).path == path;
            assert(all.directories[first.directories.len() + k].path == path);
        } else if exists|k: int|
            0 <= k < rest.entries.len() && (#[trigger] rest.entries[k]).path == path {
            let k = choose|k: int|
                0 <= k < rest.entries.len() && (#[trigger] rest.entries[k]).path == path;
            assert(all.entries[first.entries.len() + k].path == path);
        } else {
            let k = choose|k: int|
                0 <= k < rest.issues.len() && (#[trigger] rest.issues[k]).path == path;
            assert(all.issues[first.issues.len() + k].path == path);
        }
    }
}

/// A directory that cannot be read comes back empty, with one issue about the
/// directory itself.
pub proof fn law_unavailable_folder(world: World, folder: Seq<char>, error: Seq<char>)
    ensures
        browse_of(world, folder, Err(error)).directories.len() == 0,
        browse_of(world, folder, Err(error)).entries.len() == 0,
        browse_of(world, folder, Err(error)).issues == seq![
            IssueView { path: folder, kind: IssueKindView::DirectoryUnavailable(error) },
        ],
{
}

proof fn lemma_last_position(s: Seq<char>, c: char, i: int)
    requires
        0 <= i < s.len(),
        s[i] == c,
        forall|j: int| i < j < s.len() ==> s[j] != c,
    ensures
        text::last_position(s, c) == i,
    decreases s.len(),
{
    if i < s.len() - 1 {
        lemma_last_position(s.drop_last(), c, i);
    }
}

/// Trailing separators do not matter: `/guest` and `/guest/` have the same
/// directory above them.
pub proof fn law_parent_ignores_trailing_separator(path: Seq<char>)
    ensures
        browse::parent_of(path.push('/')) == browse::parent_of(path),
{
    assert(path.push('/').drop_last() =~= path);
}

/// The directory above an item of a directory is that directory; above an item
/// of the root it is the root.
pub proof fn law_parent_of_child(folder: Seq<char>, name: Seq<char>)
    requires
        name.len() > 0,
        !name.contains('/'),
    ensures
        browse::parent_of(folder.push('/') + name) == (if folder.len() == 0 {
            Some("/"@)
        } else {
            Some(folder)
        }),
{
    let path = folder.push('/') + name;
    assert(name[name.len() - 1] != '/');
    assert(path.last() == name.last());
    assert(text::strip_trailing(path, '/') == path);
    assert forall|j: int| folder.len() < j < path.len() implies path[j] != '/' by {
        assert(path[j] == name[j - folder.len() - 1]);
    }
    lemma_last_position(path, '/', folder.len() as int);
    assert(path.take(folder.len() as int) =~= folder);
}

proof fn lemma_no_separator(s: Seq<char>)
    requires
        !s.contains('/'),
    ensures
        text::last_position(s, '/') == -1,
    decreases s.len(),
{
    if s.len() > 0 {
        assert(s[s.len() - 1] != '/');
        assert forall|j: int| 0 <= j < s.drop_last().len() implies s.drop_last()[j] != '/' by {
            assert(s[j] != '/');
        }
        lemma_no_separator(s.drop_last());
    }
}

/// The root has no directory above it, and neither has a relative path of a
/// single component.
pub proof fn law_no_parent(name: Seq<char>)
    requires
        !name.contains('/'),
    ensures
        browse::parent_of("/"@) is None,
        browse::parent_of(name) is None,
{
    reveal_strlit("/");
    assert("/"@ =~= Seq::<char>::empty().push('/'));
    assert("/"@.drop_last() =~= Seq::<char>::empty());
    reveal_with_fuel(text::strip_end, 2);
    lemma_no_separator(Seq::empty());
    lemma_no_separator(name);
    if name.len() > 0 {
        assert(name[name.len() - 1] != '/');
    }
}

/// Whether `directory` is named by the last component of its path: the name
/// holds no separator, and the path is the name, or ends with a separator
/// followed by it.
pub open spec fn is_named_by_its_path(directory: DirectoryView) -> bool {
    let name = directory.name;
    let path = directory.path;
    &&& !name.contains('/')
    &&& name.len() <= path.len()
    &&& path.skip(path.len() - name.len()) == name
    &&& name == path || (name.len() < path.len() && path[path.len() - name.len() - 1] == '/')
}

/// What an item of a listing contributes: a subdirectory under its own path and
/// the last component of it, a config file what becomes of it, any other file
/// nothing, and an error an issue about the folder.
pub proof fn law_browsed_item(world: World, folder: Seq<char>, path: Seq<char>, error: Seq<char>)
    ensures
        ({
            let found = item_catalogue(world, folder, Ok((path, true)));
            &&& found.directories.len() == 1
            &&& found.directories[0].path == path
            &&& is_named_by_its_path(found.directories[0])
            &&& found.entries.len() == 0
            &&& found.issues.len() == 0
        }),
        ({
            let found = item_catalogue(world, folder, Ok((path, false)));
            &&& found.directories.len() == 0
            &&& !scan::is_config_path(path) ==> found.entries.len() == 0 && found.issues.len()
                == 0
            &&& scan::is_config_path(path) ==> match world.file_finding(folder, path) {
                Finding::Usable(entry) => found.entries == seq![entry] && found.issues.len() == 0,
                Finding::Unusable(issue) => found.issues == seq![issue] && found.entries.len()
                    == 0,
            }
        }),
        ({
            let found = item_catalogue(world, folder, Err(error));
            &&& found.directories.len() == 0
            &&& found.entries.len() == 0
            &&& found.issues == seq![
                IssueView {
                    path: folder,
                    kind: IssueKindView::Unreadable("directory entry: "@ + error),
                },
            ]
        }),
{
    crate::text_laws::law_after_last(path, '/');
}

/// The items of a listing are taken one after the other: what two portions
/// contribute is what the first contributes, followed by what the second does.
pub proof fn law_browsed_in_order(
    world: World,
    folder: Seq<char>,
    first: Seq<BrowseItem>,
    second: Seq<BrowseItem>,
)
    ensures
        items_catalogue(world, folder, first + second).directories == items_catalogue(
            world,
            folder,
            first,
        ).directories + items_catalogue(world, folder, second).directories,
        items_catalogue(world, folder, first + second).entries == items_catalogue(
            world,
            folder,
            first,
        ).entries + items_catalogue(world, folder, second).entries,
        items_catalogue(world, folder, first + second).issues == items_catalogue(
            world,
            folder,
            first,
        ).issues + items_catalogue(world, folder, second).issues,
    decreases first.len(),
{
    let a = items_catalogue(world, folder, first);
    let b = items_catalogue(world, folder, second);
    let all = items_catalogue(world, folder, first + second);
    if first.len() == 0 {
        assert(first + second =~= second);
    } else {
        assert((first + second).drop_first() =~= first.drop_first() + second);
        law_browsed_in_order(world, folder, first.drop_first(), second);
    }
    assert(all.directories =~= a.directories + b.directories);
    assert(all.entries =~= a.entries + b.entries);
    assert(all.issues =~= a.issues + b.issues);
}

/// Every subdirectory that browsing finds is named by the last component of its
/// path, and is an item of the listing that is a directory.
pub proof fn law_found_directories(
    world: World,
    folder: Seq<char>,
    listing: BrowseListing,
    k: int,
)
    requires
        0 <= k < browse_of(world, folder, listing).directories.len(),
    ensures
        is_named_by_its_path(browse_of(world, folder, listing).directories[k]),
        listing is Ok,
        exists|i: int|
            0 <= i < listing->Ok_0.len() && (#[trigger] listing->Ok_0[i]) == Ok::<
                (Seq<char>, bool),
                Seq<char>,
            >((browse_of(world, folder, listing).directories[k].path, true)),
    decreases listing->Ok_0.len(),
{
    let items = listing->Ok_0;
    let found = browse_of(world, folder, listing).directories;
    if items.len() > 0 {
        let first = item_catalogue(world, folder, items[0]).directories;
        let rest = items_catalogue(world, folder, items.drop_first()).directories;
        if k < first.len() {
            let path = items[0]->Ok_0.0;
            law_browsed_item(world, folder, path, Seq::empty());
            assert(found[k] == first[k]);
            assert(items[0] == Ok::<(Seq<char>, bool), Seq<char>>((found[k].path, true)));
        } else {
            law_found_directories(world, folder, Ok(items.drop_first()), k - first.len());
            assert(found[k] == rest[k - first.len()]);
            let i = choose|i: int|
                0 <= i < items.drop_first().len() && (#[trigger] items.drop_first()[i]) == Ok::<
                    (Seq<char>, bool),
                    Seq<char>,
                >((found[k].path, true));
            assert(items[i + 1] == items.drop_first()[i]);
        }
    }
}

/// The folder that browsing hands out holds everything that was found and
/// nothing else: subdirectories in the order of their names, entries and issues
/// in the order of their paths.
pub proof fn law_folder_is_sorted(state: BrowseState, folder: FolderView)
    requires
        state.yields(folder),
    ensures
        folder.path == state.path,
        folder.directories.to_multiset() == state.directories.to_multiset(),
        folder.entries.to_multiset() == state.entries.to_multiset(),
        folder.issues.to_multiset() == state.issues.to_multiset(),
        forall|i: int, j: int|
            0 <= i < j < folder.directories.len() ==> !text::precedes(
                (#[trigger] folder.directories[j]).name,
                (#[trigger] folder.directories[i]).name,
            ),
        forall|i: int, j: int|
            0 <= i < j < folder.entries.len() ==> !text::precedes(
                (#[trigger] folder.entries[j]).path,
                (#[trigger] folder.entries[i]).path,
            ),
        forall|i: int, j: int|
            0 <= i < j < folder.issues.len() ==> !text::precedes(
                (#[trigger] folder.issues[j]).path,
                (#[trigger] folder.issues[i]).path,
            ),
{
    law_sort_keeps_everything(state.directories, folder.directories, browse::by_name());
    law_sort_keeps_everything(state.entries, folder.entries, browse::by_entry_path());
    law_sort_keeps_everything(state.issues, folder.issues, browse::by_issue_path());
    let name = browse::by_name();
    let entry_path = browse::by_entry_path();
    let issue_path = browse::by_issue_path();
    assert forall|i: int, j: int| 0 <= i < j < folder.directories.len() implies !text::precedes(
        (#[trigger] folder.directories[j]).name,
        (#[trigger] folder.directories[i]).name,
    ) by {
        assert(!text::precedes(name(folder.directories[j]), name(folder.directories[i])));
    }
    assert forall|i: int, j: int| 0 <= i < j < folder.entries.len() implies !text::precedes(
        (#[trigger] folder.entries[j]).path,
        (#[trigger] folder.entries[i]).path,
    ) by {
        assert(!text::precedes(entry_path(folder.entries[j]), entry_path(folder.entries[i])));
    }
    assert forall|i: int, j: int| 0 <= i < j < folder.issues.len() implies !text::precedes(
        (#[trigger] folder.issues[j]).path,
        (#[trigger] folder.issues[i]).path,
    ) by {
        assert(!text::precedes(issue_path(folder.issues[j]), issue_path(folder.issues[i])));
    }
}

/// Every subdirectory of a folder that was browsed to the end is named by the
/// last component of its path.
pub proof fn law_directory_names(
    world: World,
    path: Seq<char>,
    listing: BrowseListing,
    state: BrowseState,
    folder: FolderView,
    k: int,
)
    requires
        state.directories == browse_of(world, path, listing).directories,
        state.yields(folder),
        0 <= k < folder.directories.len(),
    ensures
        is_named_by_its_path(folder.directories[k]),
{
    broadcast use vstd::seq_lib::group_to_multiset_ensures;

    law_folder_is_sorted(state, folder);
    let directory = folder.directories[k];
    assert(folder.directories.contains(directory));
    assert(folder.directories.to_multiset().count(directory) > 0);
    assert(state.directories.contains(directory));
    let i = choose|i: int| 0 <= i < state.directories.len() && state.directories[i] == directory;
    law_found_directories(world, path, listing, i);
}

/// The parent that is handed out with a folder is the directory above it,
/// whatever its path is.
pub proof fn law_folder_parent(state: BrowseState, folder: FolderView)
    requires
        state.yields(folder),
    ensures
        folder.path == state.path,
        folder.parent == browse::parent_of(state.path),
{
}

/// The view of a listing keeps every item of it, in order.
pub proof fn law_listing_view(
    items: Vec<Result<(String, bool), String>>,
    error: String,
    path: String,
    is_directory: bool,
)
    ensures
        browse::browse_listing_view(Err(error)) == Err::<Seq<BrowseItem>, Seq<char>>(error@),
        browse::browse_listing_view(Ok(items)) is Ok,
        browse::browse_listing_view(Ok(items))->Ok_0.len() == items@.len(),
        forall|i: int|
            0 <= i < items@.len() ==> #[trigger] browse::browse_listing_view(Ok(items))->Ok_0[i]
                == browse::browse_item_view(items@[i]),
        browse::browse_item_view(Ok((path, is_directory))) == Ok::<(Seq<char>, bool), Seq<char>>(
            (path@, is_directory),
        ),
        browse::browse_item_view(Err(error)) == Err::<(Seq<char>, bool), Seq<char>>(error@),
{
}

/// The view of a list of subdirectories keeps them all, in order.
pub proof fn law_directory_views(directories: Seq<Directory>)
    ensures
        browse::directory_views(directories).len() == directories.len(),
        forall|i: int|
            0 <= i < directories.len() ==> #[trigger] browse::directory_views(directories)[i]
                == directories[i]@,
{
}

}
