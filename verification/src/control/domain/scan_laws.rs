//! What a whole scan finds, and what holds of every scan.

use super::pool::{
    claim, claim_position, lemma_claim, lemma_claim_push, EntryView, IssueKindView, IssueView,
};
use super::scan::{
    file_outcome, is_config_path, law_listing_keeps, law_look_up_keeps, law_reading_keeps,
    CandidateView, Item, Listing, ScanActionView, ScanState,
};
use crate::guest::ConfigOutcome;
use vstd::prelude::*;

verus! {

/// A filesystem that does not change while it is looked at, and a config
/// parser.
pub struct World {
    /// The listing of each directory.
    pub listings: spec_fn(Seq<char>) -> Listing,
    /// The content of each file.
    pub contents: spec_fn(Seq<char>) -> Result<Seq<char>, Seq<char>>,
    /// Whether each file exists.
    pub present: spec_fn(Seq<char>) -> bool,
    /// What the config parser makes of each text.
    pub configs: spec_fn(Seq<char>) -> ConfigOutcome,
}

/// What one place of the filesystem contributes to a scan.
pub enum Finding {
    /// A config that can be started.
    Usable(EntryView),
    /// Something that cannot.
    Unusable(IssueView),
}

impl World {
    /// What the config parser makes of the file at `path`.
    pub open spec fn config(self, path: Seq<char>) -> ConfigOutcome {
        (self.configs)((self.contents)(path)->Ok_0)
    }

    /// The first of `images` that does not exist.
    pub open spec fn first_missing(self, images: Seq<Seq<char>>) -> Option<Seq<char>>
        decreases images.len(),
    {
        if images.len() == 0 {
            None
        } else if !(self.present)(images[0]) {
            Some(images[0])
        } else {
            self.first_missing(images.drop_first())
        }
    }

    /// What a config contributes whose images are still to be looked up.
    pub open spec fn candidate_finding(self, candidate: CandidateView) -> Finding {
        match self.first_missing(candidate.images) {
            Some(image) => Finding::Unusable(
                IssueView {
                    path: candidate.entry.path,
                    kind: IssueKindView::MissingImage(image),
                },
            ),
            None => Finding::Usable(candidate.entry),
        }
    }

    /// What the config file at `path` contributes.
    pub open spec fn file_finding(self, directory: Seq<char>, path: Seq<char>) -> Finding {
        match file_outcome(path, directory, (self.contents)(path), self.config(path)) {
            Ok(candidate) => self.candidate_finding(candidate),
            Err(kind) => Finding::Unusable(IssueView { path, kind }),
        }
    }

    /// What one item of the listing of `directory` contributes.
    pub open spec fn item_findings(self, directory: Seq<char>, item: Item) -> Seq<Finding> {
        match item {
            Err(error) => seq![
                Finding::Unusable(
                    IssueView {
                        path: directory,
                        kind: IssueKindView::Unreadable("directory entry: "@ + error),
                    },
                ),
            ],
            Ok(path) => if is_config_path(path) {
                seq![self.file_finding(directory, path)]
            } else {
                Seq::empty()
            },
        }
    }

    /// What the items of a listing of `directory` contribute, in order.
    pub open spec fn items_findings(self, directory: Seq<char>, items: Seq<Item>) -> Seq<Finding>
        decreases items.len(),
    {
        if items.len() == 0 {
            Seq::empty()
        } else {
            self.item_findings(directory, items[0]) + self.items_findings(
                directory,
                items.drop_first(),
            )
        }
    }

    /// What `directory` contributes.
    pub open spec fn directory_findings(self, directory: Seq<char>) -> Seq<Finding> {
        match (self.listings)(directory) {
            Err(error) => seq![
                Finding::Unusable(
                    IssueView {
                        path: directory,
                        kind: IssueKindView::DirectoryUnavailable(error),
                    },
                ),
            ],
            Ok(items) => self.items_findings(directory, items),
        }
    }

    /// What `directories` contribute, in order.
    pub open spec fn findings(self, directories: Seq<Seq<char>>) -> Seq<Finding>
        decreases directories.len(),
    {
        if directories.len() == 0 {
            Seq::empty()
        } else {
            self.directory_findings(directories[0]) + self.findings(directories.drop_first())
        }
    }
}

/// The entries and issues of a scan.
#[verifier::ext_equal]
pub struct Tally {
    /// Startable configs.
    pub entries: Seq<EntryView>,
    /// What cannot be started.
    pub issues: Seq<IssueView>,
}

impl Tally {
    /// Nothing found yet.
    pub open spec fn none() -> Tally {
        Tally { entries: Seq::empty(), issues: Seq::empty() }
    }

    /// The tally after one more finding: the first config to ask for an id has
    /// it, and every later one is an issue.
    pub open spec fn with(self, finding: Finding) -> Tally {
        match finding {
            Finding::Unusable(issue) => Tally { issues: self.issues.push(issue), ..self },
            Finding::Usable(entry) => match claim(self.entries, entry.id) {
                Some(known) => Tally {
                    issues: self.issues.push(
                        IssueView {
                            path: entry.path,
                            kind: IssueKindView::DuplicateId {
                                id: entry.id,
                                claimed_by: known.path,
                            },
                        },
                    ),
                    ..self
                },
                None => Tally { entries: self.entries.push(entry), ..self },
            },
        }
    }

    /// The tally after `findings`, in order.
    pub open spec fn with_all(self, findings: Seq<Finding>) -> Tally
        decreases findings.len(),
    {
        if findings.len() == 0 {
            self
        } else {
            self.with(findings[0]).with_all(findings.drop_first())
        }
    }
}

/// What a scan of `directories` in `world` finds.
pub open spec fn scan_of(world: World, directories: Seq<Seq<char>>) -> Tally {
    Tally::none().with_all(world.findings(directories))
}

/// The state after the question that `state` asks is answered from `world`.
pub open spec fn step(state: ScanState, world: World) -> ScanState {
    match state.action() {
        ScanActionView::ReadDirectory(path) => state.listed((world.listings)(path)),
        ScanActionView::ReadText(path) => state.read((world.contents)(path), world.config(path)),
        ScanActionView::LookUp(path) => state.looked_up((world.present)(path)),
        ScanActionView::Finished => state,
    }
}

/// The state after `n` questions are answered from `world`.
pub open spec fn steps(state: ScanState, world: World, n: nat) -> ScanState
    decreases n,
{
    if n == 0 {
        state
    } else {
        steps(step(state, world), world, (n - 1) as nat)
    }
}

/// What the scan in `state` has still to find in `world`.
spec fn remaining(state: ScanState, world: World) -> Seq<Finding> {
    (match state.pending {
        Some(candidate) => seq![world.candidate_finding(candidate)],
        None => Seq::empty(),
    }) + world.items_findings(state.directory, state.items) + world.findings(state.todo)
}

/// What the scan in `state` will have found in `world` when it is finished.
spec fn completion(state: ScanState, world: World) -> Tally {
    Tally { entries: state.entries, issues: state.issues }.with_all(remaining(state, world))
}

/// Tallying is a fold: the findings may be taken in two portions.
pub proof fn lemma_with_all_add(tally: Tally, first: Seq<Finding>, second: Seq<Finding>)
    ensures
        tally.with_all(first + second) == tally.with_all(first).with_all(second),
    decreases first.len(),
{
    if first.len() == 0 {
        assert(first + second =~= second);
    } else {
        assert((first + second).drop_first() =~= first.drop_first() + second);
        lemma_with_all_add(tally.with(first[0]), first.drop_first(), second);
    }
}

proof fn lemma_settled(state: ScanState, world: World)
    ensures
        completion(state.settled(), world) == completion(state, world),
        !state.settled().skips(),
        state.settled().pending == state.pending,
        state.settled().todo == state.todo,
        state.settled().items.len() <= state.items.len(),
        state.settled().directory == state.directory,
        state.settled().sources == state.sources,
    decreases state.items.len(),
{
    if state.skips() {
        let next = state.skipped();
        lemma_settled(next, world);
        let first = world.item_findings(state.directory, state.items[0]);
        let rest = remaining(next, world);
        assert(remaining(state, world) =~= first + rest);
        lemma_with_all_add(
            Tally { entries: state.entries, issues: state.issues },
            first,
            rest,
        );
        reveal_with_fuel(Tally::with_all, 2);
    }
}

/// How far the scan in `state` is from its end, within the current directory.
spec fn distance(state: ScanState) -> nat {
    state.items.len() * 8 + match state.pending {
        Some(candidate) => 1 + candidate.images.len(),
        None => 0,
    }
}

proof fn lemma_images_few(
    path: Seq<char>,
    source: Seq<char>,
    content: Result<Seq<char>, Seq<char>>,
    config: ConfigOutcome,
)
    ensures
        file_outcome(path, source, content, config) is Ok ==> file_outcome(
            path,
            source,
            content,
            config,
        )->Ok_0.images.len() <= 3,
{
}

proof fn lemma_single(tally: Tally, finding: Finding, rest: Seq<Finding>)
    ensures
        tally.with_all(seq![finding] + rest) == tally.with(finding).with_all(rest),
{
    assert((seq![finding] + rest).drop_first() =~= rest);
}

proof fn lemma_step(state: ScanState, world: World)
    requires
        state.wf(),
        !(state.action() is Finished),
    ensures
        step(state, world).wf(),
        step(state, world).sources == state.sources,
        completion(step(state, world), world) == completion(state, world),
        step(state, world).todo.len() < state.todo.len() || (step(state, world).todo == state.todo
            && distance(step(state, world)) < distance(state)),
{
    let tally = Tally { entries: state.entries, issues: state.issues };
    let next = step(state, world);
    let empty = Seq::<Finding>::empty();
    match state.action() {
        ScanActionView::ReadDirectory(path) => {
            law_listing_keeps(state, (world.listings)(path));
            let entered = ScanState {
                todo: state.todo.drop_first(),
                directory: state.todo[0],
                ..state
            };
            match (world.listings)(path) {
                Err(error) => {
                    let finding = world.directory_findings(path)[0];
                    assert(world.directory_findings(path) =~= seq![finding]);
                    assert(world.items_findings(state.directory, state.items) =~= empty);
                    assert(world.items_findings(next.directory, next.items) =~= empty);
                    assert(remaining(state, world) =~= seq![finding] + remaining(next, world));
                    lemma_single(tally, finding, remaining(next, world));
                },
                Ok(items) => {
                    let full = ScanState { items, ..entered };
                    lemma_settled(full, world);
                    assert(world.items_findings(state.directory, state.items) =~= empty);
                    assert(remaining(state, world) =~= remaining(full, world));
                },
            }
        },
        ScanActionView::ReadText(path) => {
            let rest = ScanState { items: state.items.drop_first(), ..state };
            let content = (world.contents)(path);
            let config = world.config(path);
            law_reading_keeps(state, content, config);
            lemma_images_few(path, state.directory, content, config);
            let finding = world.file_finding(state.directory, path);
            assert(remaining(state, world) =~= seq![finding] + remaining(rest, world));
            lemma_single(tally, finding, remaining(rest, world));
            match file_outcome(path, state.directory, content, config) {
                Err(kind) => {
                    let reported = rest.with_issue(path, kind);
                    lemma_settled(reported, world);
                    assert(remaining(reported, world) =~= remaining(rest, world));
                },
                Ok(candidate) => if candidate.images.len() == 0 {
                    let offered = rest.with_entry(candidate.entry);
                    lemma_settled(offered, world);
                    assert(remaining(offered, world) =~= remaining(rest, world));
                } else {
                    assert(remaining(next, world) =~= seq![finding] + remaining(rest, world));
                },
            }
        },
        ScanActionView::LookUp(image) => {
            law_look_up_keeps(state, (world.present)(image));
            let candidate = state.pending->0;
            let rest = ScanState { pending: None, ..state };
            let finding = world.candidate_finding(candidate);
            assert(remaining(state, world) =~= seq![finding] + remaining(rest, world));
            lemma_single(tally, finding, remaining(rest, world));
            if !(world.present)(image) {
                let reported = rest.with_issue(
                    candidate.entry.path,
                    IssueKindView::MissingImage(image),
                );
                lemma_settled(reported, world);
                assert(remaining(reported, world) =~= remaining(rest, world));
            } else if candidate.images.len() == 1 {
                assert(candidate.images.drop_first().len() == 0);
                reveal_with_fuel(World::first_missing, 2);
                let offered = rest.with_entry(candidate.entry);
                lemma_settled(offered, world);
                assert(remaining(offered, world) =~= remaining(rest, world));
            } else {
                assert(world.candidate_finding(next.pending->0) == finding);
                assert(remaining(next, world) =~= remaining(state, world));
            }
        },
        ScanActionView::Finished => {},
    }
}

proof fn lemma_scan_ends(state: ScanState, world: World) -> (n: nat)
    requires
        state.wf(),
    ensures
        steps(state, world, n).action() is Finished,
        steps(state, world, n).wf(),
        steps(state, world, n).sources == state.sources,
        steps(state, world, n).entries == completion(state, world).entries,
        steps(state, world, n).issues == completion(state, world).issues,
    decreases state.todo.len(), distance(state),
{
    if state.action() is Finished {
        assert(remaining(state, world) =~= Seq::<Finding>::empty());
        0
    } else {
        lemma_step(state, world);
        let m = lemma_scan_ends(step(state, world), world);
        m + 1
    }
}

/// A scan comes to an end, and what it has found then is what the directories
/// contribute, directory by directory and item by item: in a filesystem that
/// does not change, the answers decide the pool.
pub proof fn law_scan_finds(world: World, directories: Seq<Seq<char>>)
    ensures
        exists|n: nat|
            {
                let end = #[trigger] steps(ScanState::start(directories), world, n);
                &&& end.action() is Finished
                &&& end.pool().sources == directories
                &&& end.pool().entries == scan_of(world, directories).entries
                &&& end.pool().issues == scan_of(world, directories).issues
            },
{
    let start = ScanState::start(directories);
    assert(world.items_findings(start.directory, start.items) =~= Seq::<Finding>::empty());
    assert(remaining(start, world) =~= world.findings(directories));
    let n = lemma_scan_ends(start, world);
    let end = steps(start, world, n);
    assert(end.pool().sources == directories);
}

/// The first usable config among `findings` that asks for `id`.
pub open spec fn first_asker(findings: Seq<Finding>, id: usize) -> Option<EntryView>
    decreases findings.len(),
{
    if findings.len() == 0 {
        None
    } else if findings[0] is Usable && findings[0]->Usable_0.id == id {
        Some(findings[0]->Usable_0)
    } else {
        first_asker(findings.drop_first(), id)
    }
}

proof fn lemma_with_all_last(tally: Tally, findings: Seq<Finding>)
    requires
        findings.len() > 0,
    ensures
        tally.with_all(findings) == tally.with_all(findings.drop_last()).with(findings.last()),
{
    assert(findings =~= findings.drop_last() + seq![findings.last()]);
    lemma_with_all_add(tally, findings.drop_last(), seq![findings.last()]);
    reveal_with_fuel(Tally::with_all, 2);
}

proof fn lemma_first_asker_last(findings: Seq<Finding>, id: usize)
    requires
        findings.len() > 0,
    ensures
        first_asker(findings, id) == (match first_asker(findings.drop_last(), id) {
            Some(entry) => Some(entry),
            None => if findings.last() is Usable && findings.last()->Usable_0.id == id {
                Some(findings.last()->Usable_0)
            } else {
                None
            },
        }),
    decreases findings.len(),
{
    if findings.len() == 1 {
        reveal_with_fuel(first_asker, 2);
    } else {
        assert(findings.drop_last().drop_first() =~= findings.drop_first().drop_last());
        assert(findings.drop_first().last() == findings.last());
        lemma_first_asker_last(findings.drop_first(), id);
    }
}

proof fn lemma_claim_push_new(entries: Seq<EntryView>, entry: EntryView, id: usize)
    requires
        claim(entries, id) is None,
    ensures
        claim(entries.push(entry), id) == (if entry.id == id {
            Some(entry)
        } else {
            None
        }),
    decreases entries.len(),
{
    lemma_claim(entries, id);
    lemma_claim(entries.push(entry), id);
    let all = entries.push(entry);
    let p = claim_position(all, id);
    assert(all[entries.len() as int] == entry);
    if p < entries.len() {
        assert(all[p] == entries[p]);
        assert(entries[p].id != id);
    }
}

/// The first usable config to ask for an id is the entry that has it, in the
/// order in which the directories and their items are read: the precedence of
/// the directories decides which of two files with the same id is startable.
pub proof fn law_first_asker_has_the_id(findings: Seq<Finding>, id: usize)
    ensures
        claim(Tally::none().with_all(findings).entries, id) == first_asker(findings, id),
    decreases findings.len(),
{
    if findings.len() > 0 {
        let before = Tally::none().with_all(findings.drop_last());
        lemma_with_all_last(Tally::none(), findings);
        lemma_first_asker_last(findings, id);
        law_first_asker_has_the_id(findings.drop_last(), id);
        match findings.last() {
            Finding::Unusable(_) => {},
            Finding::Usable(entry) => {
                if claim(before.entries, entry.id) is None {
                    if claim(before.entries, id) is None {
                        lemma_claim_push_new(before.entries, entry, id);
                    } else {
                        lemma_claim_push(before.entries, entry, id);
                    }
                } else {
                    assert(entry.id == id ==> claim(before.entries, id) is Some);
                }
            },
        }
    }
}

/// What a finding becomes: an entry, or an issue. A usable config becomes an
/// entry if it is the first to ask for its id, and otherwise an issue that
/// names the first.
pub open spec fn is_accounted(tally: Tally, findings: Seq<Finding>, finding: Finding) -> bool {
    match finding {
        Finding::Unusable(issue) => tally.issues.contains(issue),
        Finding::Usable(entry) => tally.entries.contains(entry) || (first_asker(findings, entry.id)
            is Some && tally.issues.contains(
            IssueView {
                path: entry.path,
                kind: IssueKindView::DuplicateId {
                    id: entry.id,
                    claimed_by: first_asker(findings, entry.id)->0.path,
                },
            },
        )),
    }
}

proof fn lemma_accounted_stays(findings: Seq<Finding>, finding: Finding)
    requires
        findings.len() > 0,
        is_accounted(
            Tally::none().with_all(findings.drop_last()),
            findings.drop_last(),
            finding,
        ),
    ensures
        is_accounted(Tally::none().with_all(findings), findings, finding),
{
    let before = Tally::none().with_all(findings.drop_last());
    let after = Tally::none().with_all(findings);
    lemma_with_all_last(Tally::none(), findings);
    assert forall|issue: IssueView| before.issues.contains(issue) implies after.issues.contains(
        issue,
    ) by {
        let i = choose|i: int| 0 <= i < before.issues.len() && before.issues[i] == issue;
        assert(after.issues[i] == issue);
    }
    assert forall|entry: EntryView| before.entries.contains(entry) implies after.entries.contains(
        entry,
    ) by {
        let i = choose|i: int| 0 <= i < before.entries.len() && before.entries[i] == entry;
        assert(after.entries[i] == entry);
    }
    if finding is Usable {
        lemma_first_asker_last(findings, finding->Usable_0.id);
    }
}

/// Nothing that is found disappears: there are as many entries and issues as
/// findings, and each finding is one of them.
pub proof fn law_nothing_disappears(findings: Seq<Finding>)
    ensures
        Tally::none().with_all(findings).entries.len() + Tally::none().with_all(findings).issues.len()
            == findings.len(),
        forall|i: int|
            0 <= i < findings.len() ==> is_accounted(
                Tally::none().with_all(findings),
                findings,
                #[trigger] findings[i],
            ),
    decreases findings.len(),
{
    if findings.len() > 0 {
        let init = findings.drop_last();
        let before = Tally::none().with_all(init);
        let after = Tally::none().with_all(findings);
        lemma_with_all_last(Tally::none(), findings);
        law_nothing_disappears(init);
        assert forall|i: int| 0 <= i < findings.len() implies is_accounted(
            after,
            findings,
            #[trigger] findings[i],
        ) by {
            if i < init.len() {
                assert(init[i] == findings[i]);
                lemma_accounted_stays(findings, findings[i]);
            } else {
                match findings[i] {
                    Finding::Unusable(issue) => {
                        assert(after.issues.last() == issue);
                    },
                    Finding::Usable(entry) => {
                        law_first_asker_has_the_id(init, entry.id);
                        lemma_first_asker_last(findings, entry.id);
                        if claim(before.entries, entry.id) is None {
                            assert(after.entries.last() == entry);
                        } else {
                            assert(after.issues.last().path == entry.path);
                        }
                    },
                }
            }
        }
    }
}

/// What a config file of a listing contributes is among what the listing does.
pub proof fn lemma_items_cover(world: World, directory: Seq<char>, items: Seq<Item>, i: int)
    requires
        0 <= i < items.len(),
        items[i] is Ok,
        is_config_path(items[i]->Ok_0),
    ensures
        world.items_findings(directory, items).contains(
            world.file_finding(directory, items[i]->Ok_0),
        ),
    decreases items.len(),
{
    let first = world.item_findings(directory, items[0]);
    let rest = world.items_findings(directory, items.drop_first());
    if i == 0 {
        assert((first + rest)[0] == world.file_finding(directory, items[0]->Ok_0));
    } else {
        lemma_items_cover(world, directory, items.drop_first(), i - 1);
        let finding = world.file_finding(directory, items[i]->Ok_0);
        let k = choose|k: int| 0 <= k < rest.len() && rest[k] == finding;
        assert((first + rest)[first.len() + k] == finding);
    }
}

/// What one directory contributes is among what all of them do.
pub proof fn lemma_directories_cover(world: World, directories: Seq<Seq<char>>, d: int, finding: Finding)
    requires
        0 <= d < directories.len(),
        world.directory_findings(directories[d]).contains(finding),
    ensures
        world.findings(directories).contains(finding),
    decreases directories.len(),
{
    let first = world.directory_findings(directories[0]);
    let rest = world.findings(directories.drop_first());
    if d == 0 {
        let k = choose|k: int| 0 <= k < first.len() && first[k] == finding;
        assert((first + rest)[k] == finding);
    } else {
        lemma_directories_cover(world, directories.drop_first(), d - 1, finding);
        let k = choose|k: int| 0 <= k < rest.len() && rest[k] == finding;
        assert((first + rest)[first.len() + k] == finding);
    }
}

/// Every config file that some directory lists is reported by the scan, as an
/// entry or as an issue, under its own path.
pub proof fn law_every_config_is_reported(
    world: World,
    directories: Seq<Seq<char>>,
    d: int,
    items: Seq<Item>,
    i: int,
)
    requires
        0 <= d < directories.len(),
        (world.listings)(directories[d]) == Ok::<Seq<Item>, Seq<char>>(items),
        0 <= i < items.len(),
        items[i] is Ok,
        is_config_path(items[i]->Ok_0),
    ensures
        ({
            let found = scan_of(world, directories);
            ||| exists|k: int|
                0 <= k < found.entries.len() && (#[trigger] found.entries[k]).path == items[i]->Ok_0
            ||| exists|k: int|
                0 <= k < found.issues.len() && (#[trigger] found.issues[k]).path == items[i]->Ok_0
        }),
{
    let found = scan_of(world, directories);
    let findings = world.findings(directories);
    let path = items[i]->Ok_0;
    let finding = world.file_finding(directories[d], path);
    lemma_items_cover(world, directories[d], items, i);
    lemma_directories_cover(world, directories, d, finding);
    let k = choose|k: int| 0 <= k < findings.len() && findings[k] == finding;
    law_nothing_disappears(findings);
    assert(is_accounted(found, findings, findings[k]));
    match finding {
        Finding::Unusable(issue) => {
            assert(issue.path == path);
            let j = choose|j: int| 0 <= j < found.issues.len() && found.issues[j] == issue;
            assert(found.issues[j].path == path);
        },
        Finding::Usable(entry) => {
            assert(entry.path == path);
            if found.entries.contains(entry) {
                let j = choose|j: int| 0 <= j < found.entries.len() && found.entries[j] == entry;
                assert(found.entries[j].path == path);
            } else {
                let issue = IssueView {
                    path: entry.path,
                    kind: IssueKindView::DuplicateId {
                        id: entry.id,
                        claimed_by: first_asker(findings, entry.id)->0.path,
                    },
                };
                let j = choose|j: int| 0 <= j < found.issues.len() && found.issues[j] == issue;
                assert(found.issues[j].path == path);
            }
        },
    }
}

/// A directory that cannot be opened yields an empty pool with a single issue
/// about the directory, not an error.
pub proof fn law_unavailable_directory(world: World, directory: Seq<char>, error: Seq<char>)
    requires
        (world.listings)(directory) == Err::<Seq<Item>, Seq<char>>(error),
    ensures
        scan_of(world, seq![directory]) == (Tally {
            entries: Seq::empty(),
            issues: seq![
                IssueView {
                    path: directory,
                    kind: IssueKindView::DirectoryUnavailable(error),
                },
            ],
        }),
{
    let findings = world.findings(seq![directory]);
    assert(seq![directory].drop_first() =~= Seq::empty());
    assert(world.findings(seq![directory].drop_first()) =~= Seq::empty());
    assert(findings =~= world.directory_findings(directory));
    reveal_with_fuel(Tally::with_all, 2);
    assert(scan_of(world, seq![directory]).issues =~= seq![
        IssueView { path: directory, kind: IssueKindView::DirectoryUnavailable(error) },
    ]);
}

proof fn lemma_findings_add(world: World, first: Seq<Seq<char>>, more: Seq<Seq<char>>)
    ensures
        world.findings(first + more) == world.findings(first) + world.findings(more),
    decreases first.len(),
{
    if first.len() == 0 {
        assert(first + more =~= more);
        assert(world.findings(first) + world.findings(more) =~= world.findings(more));
    } else {
        assert((first + more).drop_first() =~= first.drop_first() + more);
        lemma_findings_add(world, first.drop_first(), more);
        assert(world.findings(first + more) =~= world.findings(first) + world.findings(more));
    }
}

proof fn lemma_tally_grows(tally: Tally, findings: Seq<Finding>)
    ensures
        tally.entries.is_prefix_of(tally.with_all(findings).entries),
        tally.issues.is_prefix_of(tally.with_all(findings).issues),
    decreases findings.len(),
{
    if findings.len() > 0 {
        let next = tally.with(findings[0]);
        lemma_tally_grows(next, findings.drop_first());
        assert(tally.entries.is_prefix_of(next.entries));
        assert(tally.issues.is_prefix_of(next.issues));
    }
}

/// Directories that are scanned later change nothing of what the earlier ones
/// gave: the entries and issues of a scan of the earlier ones alone come first,
/// as they are.
pub proof fn law_later_directories_only_add(
    world: World,
    first: Seq<Seq<char>>,
    more: Seq<Seq<char>>,
)
    ensures
        scan_of(world, first).entries.is_prefix_of(scan_of(world, first + more).entries),
        scan_of(world, first).issues.is_prefix_of(scan_of(world, first + more).issues),
{
    lemma_findings_add(world, first, more);
    lemma_with_all_add(Tally::none(), world.findings(first), world.findings(more));
    lemma_tally_grows(scan_of(world, first), world.findings(more));
}

proof fn lemma_first_asker_add(first: Seq<Finding>, second: Seq<Finding>, id: usize)
    ensures
        first_asker(first + second, id) == (match first_asker(first, id) {
            Some(entry) => Some(entry),
            None => first_asker(second, id),
        }),
    decreases first.len(),
{
    if first.len() == 0 {
        assert(first + second =~= second);
    } else {
        assert((first + second).drop_first() =~= first.drop_first() + second);
        lemma_first_asker_add(first.drop_first(), second, id);
    }
}

/// Whether `finding` is a usable config that asks for `id`.
pub open spec fn asks_for(finding: Finding, id: usize) -> bool {
    finding is Usable && finding->Usable_0.id == id
}

/// Whether some config among the first `n` of `items` of `directory` is usable
/// and asks for `id`.
pub open spec fn is_asked_for(
    world: World,
    directory: Seq<char>,
    items: Seq<Item>,
    n: int,
    id: usize,
) -> bool {
    exists|j: int|
        0 <= j < n && j < items.len() && (#[trigger] items[j]) is Ok && is_config_path(
            items[j]->Ok_0,
        ) && asks_for(world.file_finding(directory, items[j]->Ok_0), id)
}

proof fn lemma_first_of_items(
    world: World,
    directory: Seq<char>,
    items: Seq<Item>,
    i: int,
    entry: EntryView,
)
    requires
        0 <= i < items.len(),
        items[i] is Ok,
        is_config_path(items[i]->Ok_0),
        world.file_finding(directory, items[i]->Ok_0) == Finding::Usable(entry),
        !is_asked_for(world, directory, items, i, entry.id),
    ensures
        first_asker(world.items_findings(directory, items), entry.id) == Some(entry),
    decreases items.len(),
{
    let first = world.item_findings(directory, items[0]);
    let rest = world.items_findings(directory, items.drop_first());
    lemma_first_asker_add(first, rest, entry.id);
    reveal_with_fuel(first_asker, 2);
    if i > 0 {
        let tail = items.drop_first();
        if is_asked_for(world, directory, tail, i - 1, entry.id) {
            let j = choose|j: int|
                0 <= j < i - 1 && j < tail.len() && (#[trigger] tail[j]) is Ok && is_config_path(
                    tail[j]->Ok_0,
                ) && asks_for(world.file_finding(directory, tail[j]->Ok_0), entry.id);
            assert(items[j + 1] == tail[j]);
            assert(is_asked_for(world, directory, items, i, entry.id));
        }
        lemma_first_of_items(world, directory, tail, i - 1, entry);
        if items[0] is Ok && is_config_path(items[0]->Ok_0) {
            assert(!asks_for(world.file_finding(directory, items[0]->Ok_0), entry.id));
            assert(first.drop_first() =~= Seq::<Finding>::empty());
        }
    }
}

/// A usable config of the first directory has its id, whatever the other
/// directories hold, unless one that is listed before it asks for the same id.
pub proof fn law_first_directory_wins(
    world: World,
    directories: Seq<Seq<char>>,
    items: Seq<Item>,
    i: int,
    entry: EntryView,
)
    requires
        directories.len() > 0,
        (world.listings)(directories[0]) == Ok::<Seq<Item>, Seq<char>>(items),
        0 <= i < items.len(),
        items[i] is Ok,
        is_config_path(items[i]->Ok_0),
        world.file_finding(directories[0], items[i]->Ok_0) == Finding::Usable(entry),
        !is_asked_for(world, directories[0], items, i, entry.id),
    ensures
        claim(scan_of(world, directories).entries, entry.id) == Some(entry),
        scan_of(world, directories).entries.contains(entry),
{
    let findings = world.findings(directories);
    let entries = scan_of(world, directories).entries;
    lemma_first_of_items(world, directories[0], items, i, entry);
    lemma_first_asker_add(
        world.directory_findings(directories[0]),
        world.findings(directories.drop_first()),
        entry.id,
    );
    law_first_asker_has_the_id(findings, entry.id);
    lemma_claim(entries, entry.id);
    assert(entries[claim_position(entries, entry.id)] == entry);
}

}
