//! What a scan of a single pool directory finds, and what holds of every scan.
//!
//! The findings are those of [`crate::control::domain::scan_laws`], so that the
//! laws on findings there hold here too: the first config to ask for an id has
//! it, and nothing that is found disappears.

use crate::control::domain::config_laws::{holds_words, lemma_holds_words};
use crate::control::domain::pool as domain;
use crate::control::domain::scan::{self, Item, Listing, ScanActionView};
use crate::control::domain::scan_laws::{self, Finding, Tally, World};
use crate::guest::ConfigOutcome;
use crate::report::Level;
use crate::text;
use crate::vm_pool::{
    self, Entry, EntryView, Issue, IssueKind, IssueKindView, IssueView, PoolView, ScanState,
};
use vstd::prelude::*;

verus! {

/// `entry` as an entry from `directory`.
pub open spec fn lift_entry(entry: EntryView, directory: Seq<char>) -> domain::EntryView {
    domain::EntryView {
        path: entry.path,
        source: directory,
        id: entry.id,
        name: entry.name,
        toml: entry.toml,
    }
}

/// `kind` among the kinds of the domain.
pub open spec fn lift_kind(kind: IssueKindView) -> domain::IssueKindView {
    match kind {
        IssueKindView::DirectoryUnavailable(error) => domain::IssueKindView::DirectoryUnavailable(
            error,
        ),
        IssueKindView::Unreadable(error) => domain::IssueKindView::Unreadable(error),
        IssueKindView::Empty => domain::IssueKindView::Empty,
        IssueKindView::InvalidToml(error) => domain::IssueKindView::InvalidToml(error),
        IssueKindView::DuplicateId { id, claimed_by } => domain::IssueKindView::DuplicateId {
            id,
            claimed_by,
        },
    }
}

/// `issue` among the issues of the domain.
pub open spec fn lift_issue(issue: IssueView) -> domain::IssueView {
    domain::IssueView { path: issue.path, kind: lift_kind(issue.kind) }
}

/// `entries` as entries from `directory`.
pub open spec fn lift_entries(entries: Seq<EntryView>, directory: Seq<char>) -> Seq<
    domain::EntryView,
> {
    Seq::new(entries.len(), |i: int| lift_entry(entries[i], directory))
}

/// `issues` among the issues of the domain.
pub open spec fn lift_issues(issues: Seq<IssueView>) -> Seq<domain::IssueView> {
    Seq::new(issues.len(), |i: int| lift_issue(issues[i]))
}

proof fn lemma_lift_claim(entries: Seq<EntryView>, directory: Seq<char>, id: usize)
    ensures
        domain::claim_position(lift_entries(entries, directory), id) == vm_pool::claim_position(
            entries,
            id,
        ),
        domain::claim(lift_entries(entries, directory), id) == (match vm_pool::claim(entries, id) {
            Some(entry) => Some(lift_entry(entry, directory)),
            None => None,
        }),
    decreases entries.len(),
{
    let lifted = lift_entries(entries, directory);
    domain::lemma_claim(lifted, id);
    if entries.len() > 0 {
        lemma_lift_claim(entries.drop_first(), directory, id);
        assert(lifted.drop_first() =~= lift_entries(entries.drop_first(), directory));
    }
}

/// What holds of everything found so far: no two entries claim the same id, and
/// every config reported for asking for a taken id names the entry that has it.
pub open spec fn is_sound(state: ScanState) -> bool {
    let entries = lift_entries(state.entries, state.directory);
    &&& domain::distinct_ids(entries)
    &&& domain::duplicates_justified(entries, lift_issues(state.issues))
}

proof fn lemma_issue_sound(state: ScanState, path: Seq<char>, kind: IssueKindView)
    requires
        is_sound(state),
        kind is DuplicateId ==> vm_pool::claim(state.entries, kind->DuplicateId_id) is Some
            && vm_pool::claim(state.entries, kind->DuplicateId_id)->0.path == kind->claimed_by,
    ensures
        is_sound(state.with_issue(path, kind)),
{
    let next = state.with_issue(path, kind);
    let issues = lift_issues(state.issues);
    let all = lift_issues(next.issues);
    assert(all =~= issues.push(lift_issue(IssueView { path, kind })));
    if kind is DuplicateId {
        lemma_lift_claim(state.entries, state.directory, kind->DuplicateId_id);
    }
}

proof fn lemma_entry_sound(state: ScanState, entry: EntryView)
    requires
        is_sound(state),
    ensures
        is_sound(state.with_entry(entry)),
        state.with_entry(entry).directory == state.directory,
{
    lemma_lift_claim(state.entries, state.directory, entry.id);
    match vm_pool::claim(state.entries, entry.id) {
        Some(known) => {
            lemma_issue_sound(
                state,
                entry.path,
                IssueKindView::DuplicateId { id: entry.id, claimed_by: known.path },
            );
        },
        None => {
            let entries = lift_entries(state.entries, state.directory);
            domain::lemma_free_id(
                entries,
                lift_issues(state.issues),
                lift_entry(entry, state.directory),
            );
            assert(lift_entries(state.entries.push(entry), state.directory) =~= entries.push(
                lift_entry(entry, state.directory),
            ));
        },
    }
}

proof fn lemma_settled_sound(state: ScanState)
    requires
        is_sound(state),
    ensures
        is_sound(state.settled()),
    decreases state.items.len(),
{
    if state.skips() {
        let rest = ScanState { items: state.items.drop_first(), ..state };
        match state.items[0] {
            Err(error) => {
                lemma_issue_sound(
                    rest,
                    state.directory,
                    IssueKindView::Unreadable("directory entry: "@ + error),
                );
            },
            Ok(_) => {},
        }
        lemma_settled_sound(state.skipped());
    }
}

/// A scan that has not asked anything yet has found nothing, and that is sound.
pub proof fn law_start_is_sound(directory: Seq<char>)
    ensures
        is_sound(ScanState::start(directory)),
{
}

/// Whatever the listing says, a scan keeps what holds of its findings.
pub proof fn law_listing_keeps(state: ScanState, listing: Listing)
    requires
        is_sound(state),
        state.action() is ReadDirectory,
    ensures
        is_sound(state.with_listing(listing)),
{
    let opened = ScanState { listed: true, ..state };
    match listing {
        Err(error) => {
            lemma_issue_sound(opened, state.directory, IssueKindView::DirectoryUnavailable(error));
        },
        Ok(items) => {
            lemma_settled_sound(ScanState { items, ..opened });
        },
    }
}

/// Whatever a config file holds, and whatever the config parser makes of it, a
/// scan keeps what holds of its findings: ids stay distinct, and every refused
/// duplicate names the holder of its id.
pub proof fn law_reading_keeps(
    state: ScanState,
    content: Result<Seq<char>, Seq<char>>,
    config: ConfigOutcome,
)
    requires
        is_sound(state),
        state.action() is ReadText,
    ensures
        is_sound(state.read(content, config)),
{
    let path = state.items[0]->Ok_0;
    let rest = ScanState { items: state.items.drop_first(), ..state };
    match vm_pool::file_outcome(path, content, config) {
        Err(kind) => {
            lemma_issue_sound(rest, path, kind);
            lemma_settled_sound(rest.with_issue(path, kind));
        },
        Ok(entry) => {
            lemma_entry_sound(rest, entry);
            lemma_settled_sound(rest.with_entry(entry));
        },
    }
}

/// What the config file at `path` contributes.
pub open spec fn file_finding(world: World, directory: Seq<char>, path: Seq<char>) -> Finding {
    match vm_pool::file_outcome(path, (world.contents)(path), world.config(path)) {
        Ok(entry) => Finding::Usable(lift_entry(entry, directory)),
        Err(kind) => Finding::Unusable(lift_issue(IssueView { path, kind })),
    }
}

/// What one item of the listing of `directory` contributes.
pub open spec fn item_findings(world: World, directory: Seq<char>, item: Item) -> Seq<Finding> {
    match item {
        Err(error) => seq![
            Finding::Unusable(
                domain::IssueView {
                    path: directory,
                    kind: domain::IssueKindView::Unreadable("directory entry: "@ + error),
                },
            ),
        ],
        Ok(path) => if scan::is_config_path(path) {
            seq![file_finding(world, directory, path)]
        } else {
            Seq::empty()
        },
    }
}

/// What the items of a listing of `directory` contribute, in order.
pub open spec fn items_findings(world: World, directory: Seq<char>, items: Seq<Item>) -> Seq<Finding>
    decreases items.len(),
{
    if items.len() == 0 {
        Seq::empty()
    } else {
        item_findings(world, directory, items[0]) + items_findings(
            world,
            directory,
            items.drop_first(),
        )
    }
}

/// What `directory` contributes.
pub open spec fn findings(world: World, directory: Seq<char>) -> Seq<Finding> {
    match (world.listings)(directory) {
        Err(error) => seq![
            Finding::Unusable(
                domain::IssueView {
                    path: directory,
                    kind: domain::IssueKindView::DirectoryUnavailable(error),
                },
            ),
        ],
        Ok(items) => items_findings(world, directory, items),
    }
}

/// The state after the question that `state` asks is answered from `world`.
pub open spec fn step(state: ScanState, world: World) -> ScanState {
    match state.action() {
        ScanActionView::ReadDirectory(path) => state.with_listing((world.listings)(path)),
        ScanActionView::ReadText(path) => state.read((world.contents)(path), world.config(path)),
        _ => state,
    }
}

/// The state after `n` questions are answered from `world`.
pub open spec fn steps(state: ScanState, world: World, n: nat) -> ScanState
    decreases n,
{
    if n == 0 {
        state
    } else {
        steps(step(state, world), world, (n - 1) as nat)
    }
}

/// What the scan in `state` has found so far.
pub open spec fn tally(state: ScanState) -> Tally {
    Tally {
        entries: lift_entries(state.entries, state.directory),
        issues: lift_issues(state.issues),
    }
}

/// What the scan in `state` will have found in `world` when it is finished.
spec fn completion(state: ScanState, world: World) -> Tally {
    tally(state).with_all(
        if state.listed {
            items_findings(world, state.directory, state.items)
        } else {
            findings(world, state.directory)
        },
    )
}

proof fn lemma_single(tally: Tally, finding: Finding, rest: Seq<Finding>)
    ensures
        tally.with_all(seq![finding] + rest) == tally.with(finding).with_all(rest),
{
    assert((seq![finding] + rest).drop_first() =~= rest);
}

proof fn lemma_issue(state: ScanState, path: Seq<char>, kind: IssueKindView)
    ensures
        tally(state.with_issue(path, kind)) == tally(state).with(
            Finding::Unusable(lift_issue(IssueView { path, kind })),
        ),
{
    assert(tally(state.with_issue(path, kind)) =~= tally(state).with(
        Finding::Unusable(lift_issue(IssueView { path, kind })),
    ));
}

proof fn lemma_entry(state: ScanState, entry: EntryView)
    ensures
        tally(state.with_entry(entry)) == tally(state).with(
            Finding::Usable(lift_entry(entry, state.directory)),
        ),
{
    lemma_lift_claim(state.entries, state.directory, entry.id);
    assert(tally(state.with_entry(entry)) =~= tally(state).with(
        Finding::Usable(lift_entry(entry, state.directory)),
    ));
}

proof fn lemma_settled(state: ScanState, world: World)
    requires
        state.listed,
    ensures
        completion(state.settled(), world) == completion(state, world),
        !state.settled().skips(),
        state.settled().listed,
        state.settled().directory == state.directory,
        state.settled().items.len() <= state.items.len(),
    decreases state.items.len(),
{
    if state.skips() {
        let next = state.skipped();
        let rest = items_findings(world, state.directory, next.items);
        lemma_settled(next, world);
        match state.items[0] {
            Err(error) => {
                let kind = IssueKindView::Unreadable("directory entry: "@ + error);
                lemma_issue(
                    ScanState { items: state.items.drop_first(), ..state },
                    state.directory,
                    kind,
                );
                lemma_single(
                    tally(state),
                    Finding::Unusable(lift_issue(IssueView { path: state.directory, kind })),
                    rest,
                );
            },
            Ok(_) => {
                assert(items_findings(world, state.directory, state.items) =~= rest);
            },
        }
    }
}

proof fn lemma_step(state: ScanState, world: World)
    requires
        state.wf(),
        !(state.action() is Finished),
    ensures
        step(state, world).wf(),
        step(state, world).listed,
        step(state, world).directory == state.directory,
        completion(step(state, world), world) == completion(state, world),
        state.listed ==> step(state, world).items.len() < state.items.len(),
{
    let next = step(state, world);
    if !state.listed {
        let opened = ScanState { listed: true, ..state };
        match (world.listings)(state.directory) {
            Err(error) => {
                let kind = IssueKindView::DirectoryUnavailable(error);
                lemma_issue(opened, state.directory, kind);
                let finding = Finding::Unusable(
                    lift_issue(IssueView { path: state.directory, kind }),
                );
                assert(findings(world, state.directory) =~= seq![finding] + Seq::<
                    Finding,
                >::empty());
                lemma_single(tally(state), finding, Seq::empty());
            },
            Ok(items) => {
                lemma_settled(ScanState { items, ..opened }, world);
            },
        }
    } else {
        let path = state.items[0]->Ok_0;
        let rest = ScanState { items: state.items.drop_first(), ..state };
        let remaining = items_findings(world, state.directory, rest.items);
        lemma_single(tally(state), file_finding(world, state.directory, path), remaining);
        match vm_pool::file_outcome(path, (world.contents)(path), world.config(path)) {
            Err(kind) => {
                lemma_issue(rest, path, kind);
                lemma_settled(rest.with_issue(path, kind), world);
            },
            Ok(entry) => {
                lemma_entry(rest, entry);
                lemma_settled(rest.with_entry(entry), world);
            },
        }
    }
}

proof fn lemma_scan_ends(state: ScanState, world: World) -> (n: nat)
    requires
        state.wf(),
    ensures
        steps(state, world, n).action() is Finished,
        steps(state, world, n).wf(),
        steps(state, world, n).directory == state.directory,
        tally(steps(state, world, n)) == completion(state, world),
    decreases
            (if state.listed {
                0int
            } else {
                1int
            }),
            state.items.len(),
{
    if state.action() is Finished {
        0
    } else {
        lemma_step(state, world);
        let m = lemma_scan_ends(step(state, world), world);
        m + 1
    }
}

/// A scan comes to an end, and what it has found then is what the items of the
/// directory contribute, in order: in a filesystem that does not change, the
/// answers decide the pool.
pub proof fn law_scan_finds(world: World, directory: Seq<char>)
    ensures
        exists|n: nat|
            {
                let end = #[trigger] steps(ScanState::start(directory), world, n);
                &&& end.action() is Finished
                &&& end.pool().directory == directory
                &&& tally(end) == Tally::none().with_all(findings(world, directory))
            },
{
    let start = ScanState::start(directory);
    assert(tally(start) =~= Tally::none());
    let n = lemma_scan_ends(start, world);
    let end = steps(start, world, n);
    assert(end.pool().directory == directory);
}

/// A directory that cannot be opened yields an empty pool with a single issue
/// about the directory, not an error.
pub proof fn law_unavailable_directory(directory: Seq<char>, error: Seq<char>)
    ensures
        ScanState::start(directory).with_listing(Err(error)).action() is Finished,
        ScanState::start(directory).with_listing(Err(error)).pool().entries.len() == 0,
        ScanState::start(directory).with_listing(Err(error)).pool().issues == seq![
            IssueView { path: directory, kind: IssueKindView::DirectoryUnavailable(error) },
        ],
{
}

proof fn lemma_items_cover(world: World, directory: Seq<char>, items: Seq<Item>, i: int)
    requires
        0 <= i < items.len(),
        items[i] is Ok,
        scan::is_config_path(items[i]->Ok_0),
    ensures
        items_findings(world, directory, items).contains(
            file_finding(world, directory, items[i]->Ok_0),
        ),
    decreases items.len(),
{
    let first = item_findings(world, directory, items[0]);
    let rest = items_findings(world, directory, items.drop_first());
    let finding = file_finding(world, directory, items[i]->Ok_0);
    if i == 0 {
        assert((first + rest)[0] == finding);
    } else {
        lemma_items_cover(world, directory, items.drop_first(), i - 1);
        let k = choose|k: int| 0 <= k < rest.len() && rest[k] == finding;
        assert((first + rest)[first.len() + k] == finding);
    }
}

/// Every config file that the directory lists is accounted for: as an entry, as
/// an issue, or as a duplicate that names the first config with its id.
pub proof fn law_every_config_is_reported(
    world: World,
    directory: Seq<char>,
    items: Seq<Item>,
    i: int,
)
    requires
        (world.listings)(directory) == Ok::<Seq<Item>, Seq<char>>(items),
        0 <= i < items.len(),
        items[i] is Ok,
        scan::is_config_path(items[i]->Ok_0),
    ensures
        ({
            let found = findings(world, directory);
            scan_laws::is_accounted(
                Tally::none().with_all(found),
                found,
                file_finding(world, directory, items[i]->Ok_0),
            )
        }),
{
    let found = findings(world, directory);
    let finding = file_finding(world, directory, items[i]->Ok_0);
    lemma_items_cover(world, directory, items, i);
    let k = choose|k: int| 0 <= k < found.len() && found[k] == finding;
    scan_laws::law_nothing_disappears(found);
    assert(scan_laws::is_accounted(Tally::none().with_all(found), found, found[k]));
}

/// The configured pool directory is used as it is, and the default one where
/// none is configured.
pub proof fn law_directory(configured: &str)
    ensures
        vm_pool::directory_of(Some(configured)) == configured@,
        vm_pool::directory_of(None) == "/guest/vm_pool"@,
{
}

/// The entry for an id is the first one that claims it, as it is; there is none
/// exactly if no entry does.
pub proof fn law_claim(entries: Seq<EntryView>, id: usize, i: int)
    ensures
        vm_pool::claim(entries, id) is None <==> forall|k: int|
            0 <= k < entries.len() ==> (#[trigger] entries[k]).id != id,
        0 <= i < entries.len() && entries[i].id == id && (forall|k: int|
            0 <= k < i ==> (#[trigger] entries[k]).id != id) ==> vm_pool::claim(entries, id)
            == Some(entries[i]),
        vm_pool::claim(entries, id) is Some ==> vm_pool::claim(entries, id)->0.id == id
            && entries.contains(vm_pool::claim(entries, id)->0),
    decreases entries.len(),
{
    let rest = entries.drop_first();
    let p = vm_pool::claim_position(entries, id);
    if entries.len() > 0 && entries[0].id != id {
        law_claim(rest, id, i - 1);
        lemma_claim_range(rest, id);
        if vm_pool::claim(rest, id) is Some {
            assert(rest[p - 1] == entries[p]);
        }
        assert forall|k: int| 0 <= k < rest.len() implies #[trigger] rest[k] == entries[k + 1] by {}
        if 0 < i < entries.len() {
            assert(rest[i - 1] == entries[i]);
        }
        if vm_pool::claim(entries, id) is None {
            assert forall|k: int| 0 <= k < entries.len() implies (#[trigger] entries[k]).id
                != id by {
                if k > 0 {
                    assert(rest[k - 1] == entries[k]);
                }
            }
        } else {
            assert(entries[p].id == id);
        }
    } else if entries.len() > 0 {
        assert(entries[0].id == id);
    }
}

proof fn lemma_claim_range(entries: Seq<EntryView>, id: usize)
    ensures
        0 <= vm_pool::claim_position(entries, id) <= entries.len(),
    decreases entries.len(),
{
    if entries.len() > 0 {
        lemma_claim_range(entries.drop_first(), id);
    }
}

/// A config file can be started exactly if it is text that is not blank and the
/// parser accepts it; the entry then has the path, the text, and the id and
/// name that the config gives. A file that cannot is reported under its path
/// with the first reason: it cannot be read, it is blank, or it is no config.
pub proof fn law_file_finding(world: World, directory: Seq<char>, path: Seq<char>)
    ensures
        ({
            let finding = file_finding(world, directory, path);
            let content = (world.contents)(path);
            let config = (world.configs)(content->Ok_0);
            &&& finding is Usable <==> holds_words(content) && config is Ok
            &&& finding is Usable ==> finding->Usable_0 == (domain::EntryView {
                path,
                source: directory,
                id: config->Ok_0.id,
                name: config->Ok_0.name,
                toml: content->Ok_0,
            })
            &&& finding is Unusable ==> finding->Unusable_0.path == path
            &&& content is Err ==> finding->Unusable_0.kind == domain::IssueKindView::Unreadable(
                content->Err_0,
            )
            &&& content is Ok && !holds_words(content) ==> finding->Unusable_0.kind
                == domain::IssueKindView::Empty
            &&& holds_words(content) && config is Err ==> finding->Unusable_0.kind
                == domain::IssueKindView::InvalidToml(config->Err_0)
        }),
{
    lemma_holds_words((world.contents)(path));
}

/// What an item of the listing contributes: an error is reported about the
/// directory, a config file contributes what becomes of it, and any other file
/// contributes nothing.
pub proof fn law_item(world: World, directory: Seq<char>, path: Seq<char>, error: Seq<char>)
    ensures
        item_findings(world, directory, Err(error)) == seq![
            Finding::Unusable(
                domain::IssueView {
                    path: directory,
                    kind: domain::IssueKindView::Unreadable("directory entry: "@ + error),
                },
            ),
        ],
        scan::is_config_path(path) ==> item_findings(world, directory, Ok(path)) == seq![
            file_finding(world, directory, path),
        ],
        !scan::is_config_path(path) ==> item_findings(world, directory, Ok(path)).len() == 0,
{
}

/// The items of the listing are taken one after the other: what two portions
/// contribute is what the first contributes, followed by what the second does.
pub proof fn law_in_order(
    world: World,
    directory: Seq<char>,
    first: Seq<Item>,
    second: Seq<Item>,
)
    ensures
        items_findings(world, directory, first + second) == items_findings(
            world,
            directory,
            first,
        ) + items_findings(world, directory, second),
    decreases first.len(),
{
    if first.len() == 0 {
        assert(first + second =~= second);
        assert(items_findings(world, directory, first) + items_findings(world, directory, second)
            =~= items_findings(world, directory, second));
    } else {
        assert((first + second).drop_first() =~= first.drop_first() + second);
        law_in_order(world, directory, first.drop_first(), second);
        assert(items_findings(world, directory, first + second) =~= items_findings(
            world,
            directory,
            first,
        ) + items_findings(world, directory, second));
    }
}

/// An entry or an issue of this pool is the same one among those of the domain:
/// nothing of it is lost or changed.
pub proof fn law_lifting(entry: EntryView, issue: IssueView, directory: Seq<char>)
    ensures
        lift_entry(entry, directory).path == entry.path,
        lift_entry(entry, directory).id == entry.id,
        lift_entry(entry, directory).name == entry.name,
        lift_entry(entry, directory).toml == entry.toml,
        lift_issue(issue).path == issue.path,
        lift_issue(issue).kind.message() == issue.kind.message(),
        lift_issue(issue).message() == issue.message(),
        domain::issue_line(lift_issue(issue)) == vm_pool::issue_line(issue),
        domain::entry_line(lift_entry(entry, directory)) == vm_pool::entry_line(entry),
{
}

/// A report has one line for the number of entries, then one for each entry and
/// one for each issue, in order.
pub proof fn law_report(found: PoolView)
    ensures
        ({
            let lines = vm_pool::startup_lines(found);
            let n = found.entries.len();
            &&& lines.len() == 1 + n + found.issues.len()
            &&& lines[0].level == Level::Info
            &&& lines[0].text == "VM pool `"@ + found.directory + "`: "@ + text::decimal(n)
                + " config(s)"@
            &&& forall|i: int|
                0 <= i < n ==> #[trigger] vm_pool::entry_line(found.entries[i]) == lines[1 + i]
            &&& forall|i: int|
                0 <= i < found.issues.len() ==> #[trigger] vm_pool::issue_line(found.issues[i])
                    == lines[1 + n + i]
        }),
        vm_pool::issue_lines(found.issues).len() == found.issues.len(),
        forall|i: int|
            0 <= i < found.issues.len() ==> #[trigger] vm_pool::issue_lines(found.issues)[i]
                == vm_pool::issue_line(found.issues[i]),
{
}

/// The views of issues keep every part of them.
pub proof fn law_views(text: String, id: usize)
    ensures
        IssueKind::DirectoryUnavailable(text)@ == IssueKindView::DirectoryUnavailable(text@),
        IssueKind::Unreadable(text)@ == IssueKindView::Unreadable(text@),
        IssueKind::Empty@ == IssueKindView::Empty,
        IssueKind::InvalidToml(text)@ == IssueKindView::InvalidToml(text@),
        (IssueKind::DuplicateId { id, claimed_by: text })@ == (IssueKindView::DuplicateId {
            id,
            claimed_by: text@,
        }),
{
}

/// The views of lists of entries and issues keep them all, in order.
pub proof fn law_list_views(entries: Seq<Entry>, issues: Seq<Issue>)
    ensures
        vm_pool::entry_views(entries).len() == entries.len(),
        forall|i: int|
            0 <= i < entries.len() ==> #[trigger] vm_pool::entry_views(entries)[i] == entries[i]@,
        vm_pool::issue_views(issues).len() == issues.len(),
        forall|i: int|
            0 <= i < issues.len() ==> #[trigger] vm_pool::issue_views(issues)[i] == issues[i]@,
{
}

}
