//! What holds of the directories of a pool, of its entries, and of what is
//! reported about it.

use super::pool::{
    self, claim, claim_position, directory_of, lemma_claim, named_directories, sources_of,
    with_sources, Entry, EntryView, Issue, IssueKind, IssueKindView, IssueView, PoolView,
};
use crate::report::Level;
use crate::text;
use crate::text_laws::law_split;
use vstd::prelude::*;

verus! {

/// The configured pool directory is used as it is, and the default one where
/// none is configured.
pub proof fn law_directory(configured: &str)
    ensures
        directory_of(Some(configured)) == configured@,
        directory_of(None) == "/guest/vm_pool"@,
{
}

/// The pool names its drop-in directory first, and then the extra ones: they
/// are the list, split at each colon and nowhere else.
pub proof fn law_named_directories(pool: Option<&str>, extra: Option<&str>)
    ensures
        ({
            let named = named_directories(pool, extra);
            &&& named.len() > 1
            &&& named[0] == directory_of(pool)
            &&& text::joined(named.skip(1), seq![':']) == (match extra {
                Some(list) => list@,
                None => Seq::empty(),
            })
            &&& forall|i: int| 1 <= i < named.len() ==> !(#[trigger] named[i]).contains(':')
        }),
{
    let list = match extra {
        Some(list) => list@,
        None => Seq::empty(),
    };
    let named = named_directories(pool, extra);
    law_split(list, ':');
    assert(named.skip(1) =~= text::split(list, ':'));
    assert forall|i: int| 1 <= i < named.len() implies !(#[trigger] named[i]).contains(':') by {
        assert(named[i] == text::split(list, ':')[i - 1]);
    }
}

/// Directories are read in the order in which they are first named: naming more
/// of them changes nothing of those before.
pub proof fn law_sources_in_order(directories: Seq<Seq<char>>, k: int)
    requires
        0 <= k <= directories.len(),
    ensures
        with_sources(Seq::empty(), directories.take(k)).is_prefix_of(
            with_sources(Seq::empty(), directories),
        ),
    decreases directories.len(),
{
    if k == directories.len() {
        assert(directories.take(k) =~= directories);
    } else {
        let init = directories.drop_last();
        assert(init.take(k) =~= directories.take(k));
        law_sources_in_order(init, k);
        let before = with_sources(Seq::empty(), init);
        let after = with_sources(Seq::empty(), directories);
        assert(before.is_prefix_of(after));
    }
}

/// Without extra directories a pool is read from its drop-in directory alone.
pub proof fn law_single_source(pool: Option<&str>)
    ensures
        !text::is_blank(directory_of(pool)) ==> sources_of(pool, None) == seq![
            text::trimmed(directory_of(pool)),
        ],
        text::is_blank(directory_of(pool)) ==> sources_of(pool, None).len() == 0,
{
    let named = named_directories(pool, None);
    assert(text::split(Seq::empty(), ':') =~= seq![Seq::<char>::empty()]);
    assert(named =~= seq![directory_of(pool), Seq::<char>::empty()]);
    let first = named.drop_last();
    assert(first =~= seq![directory_of(pool)]);
    assert(first.drop_last() =~= Seq::<Seq<char>>::empty());
    assert(text::trimmed(Seq::empty()) =~= Seq::<char>::empty());
    reveal_with_fuel(with_sources, 3);
    assert(sources_of(pool, None) =~= if text::is_blank(directory_of(pool)) {
        Seq::empty()
    } else {
        seq![text::trimmed(directory_of(pool))]
    });
}

/// The entry for an id is the first one that claims it, as it is; there is none
/// exactly if no entry does.
pub proof fn law_claim(entries: Seq<EntryView>, id: usize, i: int)
    ensures
        claim(entries, id) is None <==> forall|k: int|
            0 <= k < entries.len() ==> (#[trigger] entries[k]).id != id,
        0 <= i < entries.len() && entries[i].id == id && (forall|k: int|
            0 <= k < i ==> (#[trigger] entries[k]).id != id) ==> claim(entries, id) == Some(
            entries[i],
        ),
        claim(entries, id) is Some ==> claim(entries, id)->0.id == id && entries.contains(
            claim(entries, id)->0,
        ),
{
    lemma_claim(entries, id);
    let p = claim_position(entries, id);
    if p < entries.len() {
        assert(entries[p].id == id);
    }
}

/// The tokens that clients match on.
pub proof fn law_tokens(text: Seq<char>, id: usize)
    ensures
        IssueKindView::DirectoryUnavailable(text).token() == "directory-unavailable"@,
        IssueKindView::Unreadable(text).token() == "unreadable"@,
        IssueKindView::Empty.token() == "empty"@,
        IssueKindView::InvalidToml(text).token() == "invalid-toml"@,
        (IssueKindView::DuplicateId { id, claimed_by: text }).token() == "duplicate-id"@,
        IssueKindView::MissingImage(text).token() == "missing-image"@,
{
}

/// What is said about a path begins with the path, and ends in what was found
/// there: the error, the missing image, or the file that has the id.
pub proof fn law_issue_message(path: Seq<char>, found: Seq<char>, id: usize, kind: IssueKindView)
    ensures
        (path + ": "@).is_prefix_of((IssueView { path, kind }).message()),
        (IssueView { path, kind }).message().skip((path + ": "@).len() as int) == kind.message(),
        IssueKindView::DirectoryUnavailable(found).message() == "directory is unavailable: "@
            + found,
        IssueKindView::Unreadable(found).message() == "cannot be read: "@ + found,
        IssueKindView::InvalidToml(found).message() == "is not a guest config: "@ + found,
        IssueKindView::MissingImage(found).message() == "names an image that does not exist: "@
            + found,
        IssueKindView::Empty.message() == "is empty"@,
        (IssueKindView::DuplicateId { id, claimed_by: found }).message() == "asks for VM id "@
            + text::decimal(id as nat) + ", which `"@ + found
            + "` already claims in this pool"@,
{
    let issue = IssueView { path, kind };
    assert(issue.message() =~= (path + ": "@) + kind.message());
    assert(issue.message().skip((path + ": "@).len() as int) =~= kind.message());
}

/// An issue is a warning, unless it is about a directory: an unprovisioned pool
/// is a normal state. Each line says what its issue or entry is about.
pub proof fn law_log_lines(issue: IssueView, entry: EntryView)
    ensures
        pool::issue_line(issue).level == (match issue.kind {
            IssueKindView::DirectoryUnavailable(_) => Level::Info,
            _ => Level::Warn,
        }),
        pool::issue_line(issue).text == "VM pool: "@ + issue.message(),
        pool::entry_line(entry).level == Level::Info,
        pool::entry_line(entry).text == "  VM pool entry: VM["@ + text::decimal(entry.id as nat)
            + "] `"@ + entry.name + "` from "@ + entry.path,
{
}

/// A report has one line for the directories, one for the number of entries,
/// then one for each entry and one for each issue, in order.
pub proof fn law_report(found: PoolView)
    ensures
        ({
            let lines = pool::startup_lines(found);
            let n = found.entries.len();
            &&& lines.len() == 2 + n + found.issues.len()
            &&& lines[0].level == Level::Info
            &&& lines[0].text == "VM pool: "@ + text::decimal(found.sources.len())
                + " folder(s): "@ + text::joined(found.sources, ", "@)
            &&& lines[1].level == Level::Info
            &&& lines[1].text == "VM pool `"@ + found.directory + "`: "@ + text::decimal(n)
                + " config(s)"@
            &&& forall|i: int|
                0 <= i < n ==> #[trigger] pool::entry_line(found.entries[i]) == lines[2 + i]
            &&& forall|i: int|
                0 <= i < found.issues.len() ==> #[trigger] pool::issue_line(found.issues[i])
                    == lines[2 + n + i]
        }),
{
}

/// The issues of a pool are reported one line each, in order.
pub proof fn law_issue_report(issues: Seq<IssueView>)
    ensures
        pool::issue_lines(issues).len() == issues.len(),
        forall|i: int|
            0 <= i < issues.len() ==> #[trigger] pool::issue_lines(issues)[i] == pool::issue_line(
                issues[i],
            ),
{
}

/// The views of issues keep every part of them.
pub proof fn law_views(text: String, id: usize)
    ensures
        IssueKind::DirectoryUnavailable(text)@ == IssueKindView::DirectoryUnavailable(text@),
        IssueKind::Unreadable(text)@ == IssueKindView::Unreadable(text@),
        IssueKind::Empty@ == IssueKindView::Empty,
        IssueKind::InvalidToml(text)@ == IssueKindView::InvalidToml(text@),
        (IssueKind::DuplicateId { id, claimed_by: text })@ == (IssueKindView::DuplicateId {
            id,
            claimed_by: text@,
        }),
        IssueKind::MissingImage(text)@ == IssueKindView::MissingImage(text@),
{
}

/// The views of lists of entries and issues keep them all, in order.
pub proof fn law_list_views(entries: Seq<Entry>, issues: Seq<Issue>)
    ensures
        pool::entry_views(entries).len() == entries.len(),
        forall|i: int|
            0 <= i < entries.len() ==> #[trigger] pool::entry_views(entries)[i] == entries[i]@,
        pool::issue_views(issues).len() == issues.len(),
        forall|i: int|
            0 <= i < issues.len() ==> #[trigger] pool::issue_views(issues)[i] == issues[i]@,
{
}

}
