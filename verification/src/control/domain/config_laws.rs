//! What becomes of a config file: which files are configs, which images they
//! need, and when a scan lists or reports them.

use super::pool::{EntryView, IssueKindView, IssueView};
use super::scan::{self, Item, ScanAction, ScanActionView};
use super::scan_laws::{self, Finding, World};
use crate::guest::{self, ConfigOutcome, GuestFacts, GuestFactsView};
use crate::text;
use crate::text_laws::{law_blank, law_suffix, white_space_points};
use vstd::prelude::*;

verus! {

/// A file is a config exactly if its path is something followed by `.toml`.
pub proof fn law_config_path(path: Seq<char>)
    ensures
        scan::is_config_path(path) <==> exists|stem: Seq<char>| path == #[trigger] (stem
            + ".toml"@),
{
    law_suffix(path, ".toml"@);
}

/// Whether a config with `facts` reads its images from the filesystem and names
/// `image` as its kernel, its ramdisk or its device tree.
pub open spec fn names_image(facts: GuestFactsView, image: Seq<char>) -> bool {
    &&& facts.image_location == Some("fs"@)
    &&& image.len() > 0
    &&& facts.kernel_path == image || facts.ramdisk_path == Some(image) || facts.dtb_path == Some(
        image,
    )
}

/// The images that are looked up are those that the config names, each of the
/// three whether or not it names the others; a config whose images are not on
/// the filesystem has none.
pub proof fn law_images(facts: GuestFactsView, image: Seq<char>)
    ensures
        scan::image_paths(facts).contains(image) <==> names_image(facts, image),
{
    let images = scan::image_paths(facts);
    let kernel = scan::named_image(Some(facts.kernel_path));
    let ramdisk = scan::named_image(facts.ramdisk_path);
    let dtb = scan::named_image(facts.dtb_path);
    if facts.image_location == Some("fs"@) {
        assert(images =~= kernel + ramdisk + dtb);
        if names_image(facts, image) {
            if facts.kernel_path == image {
                assert(images[0] == image);
            } else if facts.ramdisk_path == Some(image) {
                assert(images[kernel.len() as int] == image);
            } else {
                assert(images[(kernel.len() + ramdisk.len()) as int] == image);
            }
        }
        if images.contains(image) {
            let k = choose|k: int| 0 <= k < images.len() && images[k] == image;
            if k < kernel.len() {
            } else if k < kernel.len() + ramdisk.len() {
                assert(ramdisk[k - kernel.len()] == image);
            } else {
                assert(dtb[k - kernel.len() - ramdisk.len()] == image);
            }
        }
    }
}

/// The kernel is looked up first, then the ramdisk, then the device tree: the
/// first of the three that is named and absent is the one that is reported.
pub open spec fn is_first_absent(world: World, facts: GuestFactsView, image: Seq<char>) -> bool {
    let kernel_absent = names_image(facts, facts.kernel_path) && !(world.present)(
        facts.kernel_path,
    );
    let ramdisk_absent = facts.ramdisk_path is Some && names_image(facts, facts.ramdisk_path->0)
        && !(world.present)(facts.ramdisk_path->0);
    let dtb_absent = facts.dtb_path is Some && names_image(facts, facts.dtb_path->0)
        && !(world.present)(facts.dtb_path->0);
    if kernel_absent {
        image == facts.kernel_path
    } else if ramdisk_absent {
        image == facts.ramdisk_path->0
    } else {
        dtb_absent && image == facts.dtb_path->0
    }
}

proof fn lemma_missing(world: World, images: Seq<Seq<char>>, more: Seq<Seq<char>>)
    ensures
        world.first_missing(images + more) == (match world.first_missing(images) {
            Some(image) => Some(image),
            None => world.first_missing(more),
        }),
    decreases images.len(),
{
    if images.len() == 0 {
        assert(images + more =~= more);
    } else {
        assert((images + more).drop_first() =~= images.drop_first() + more);
        lemma_missing(world, images.drop_first(), more);
    }
}

proof fn lemma_named_missing(world: World, path: Option<Seq<char>>)
    ensures
        world.first_missing(scan::named_image(path)) == (if path is Some && path->0.len() > 0
            && !(world.present)(path->0) {
            path
        } else {
            None
        }),
{
    let named = scan::named_image(path);
    if named.len() > 0 {
        assert(named.drop_first() =~= Seq::<Seq<char>>::empty());
        reveal_with_fuel(World::first_missing, 2);
    }
}

/// An image is missing exactly if the config names one that does not exist, and
/// the one that is reported is the first of them.
pub proof fn law_missing_image(world: World, facts: GuestFactsView)
    ensures
        ({
            let missing = world.first_missing(scan::image_paths(facts));
            &&& missing is Some <==> exists|image: Seq<char>| #[trigger]
                names_image(facts, image) && !(world.present)(image)
            &&& missing is Some ==> names_image(facts, missing->0) && !(world.present)(missing->0)
                && is_first_absent(world, facts, missing->0)
        }),
{
    let kernel = scan::named_image(Some(facts.kernel_path));
    let ramdisk = scan::named_image(facts.ramdisk_path);
    let dtb = scan::named_image(facts.dtb_path);
    lemma_missing(world, kernel, ramdisk);
    lemma_missing(world, kernel + ramdisk, dtb);
    lemma_named_missing(world, Some(facts.kernel_path));
    lemma_named_missing(world, facts.ramdisk_path);
    lemma_named_missing(world, facts.dtb_path);
    let missing = world.first_missing(scan::image_paths(facts));
    if missing is Some {
        assert(names_image(facts, missing->0));
    }
    if exists|image: Seq<char>| #[trigger] names_image(facts, image) && !(world.present)(image) {
        let image = choose|image: Seq<char>| #[trigger]
            names_image(facts, image) && !(world.present)(image);
        assert(missing is Some);
    }
}

/// Whether a file with this content holds some text that is not white space.
pub open spec fn holds_words(content: Result<Seq<char>, Seq<char>>) -> bool {
    content is Ok && exists|i: int|
        0 <= i < content->Ok_0.len() && !white_space_points().contains(
            #[trigger] content->Ok_0[i] as int,
        )
}

/// A file holds words exactly if it is text that is not blank.
pub proof fn lemma_holds_words(content: Result<Seq<char>, Seq<char>>)
    ensures
        holds_words(content) <==> content is Ok && !text::is_blank(content->Ok_0),
{
    if content is Ok {
        let toml = content->Ok_0;
        let points = |c: char| white_space_points().contains(c as int);
        law_blank(toml);
        if holds_words(content) {
            let i = choose|i: int|
                0 <= i < toml.len() && !white_space_points().contains(#[trigger] toml[i] as int);
            assert(!points(toml[i]));
        }
        if !text::is_blank(toml) {
            let i = choose|i: int| 0 <= i < toml.len() && !points(#[trigger] toml[i]);
            assert(!white_space_points().contains(toml[i] as int));
        }
    }
}

/// A config file can be started exactly if it is text that is not blank, the
/// parser accepts it, and every image it names exists; the entry then has the
/// path, the directory, the text, and the id and name that the config gives. A
/// file that cannot is reported under its path with the first reason: it cannot
/// be read, it is blank, it is no config, or an image is absent.
pub proof fn law_file_finding(world: World, directory: Seq<char>, path: Seq<char>)
    ensures
        ({
            let finding = world.file_finding(directory, path);
            let content = (world.contents)(path);
            let config = (world.configs)(content->Ok_0);
            let complete = forall|image: Seq<char>| #[trigger]
                names_image(config->Ok_0, image) ==> (world.present)(image);
            &&& finding is Usable <==> holds_words(content) && config is Ok && complete
            &&& finding is Usable ==> finding->Usable_0 == (EntryView {
                path,
                source: directory,
                id: config->Ok_0.id,
                name: config->Ok_0.name,
                toml: content->Ok_0,
            })
            &&& finding is Unusable ==> finding->Unusable_0.path == path
            &&& content is Err ==> finding == Finding::Unusable(
                IssueView { path, kind: IssueKindView::Unreadable(content->Err_0) },
            )
            &&& content is Ok && !holds_words(content) ==> finding == Finding::Unusable(
                IssueView { path, kind: IssueKindView::Empty },
            )
            &&& holds_words(content) && config is Err ==> finding == Finding::Unusable(
                IssueView { path, kind: IssueKindView::InvalidToml(config->Err_0) },
            )
            &&& holds_words(content) && config is Ok && !complete ==> finding is Unusable
                && finding->Unusable_0.kind is MissingImage && is_first_absent(
                world,
                config->Ok_0,
                finding->Unusable_0.kind->MissingImage_0,
            )
        }),
{
    let content = (world.contents)(path);
    let config = (world.configs)(content->Ok_0);
    lemma_holds_words(content);
    if config is Ok {
        law_missing_image(world, config->Ok_0);
    }
}

/// A config that names an image which does not exist is not listed but
/// reported: whichever of the three images is absent, the scan of any
/// directories among which is its own holds an issue about the file, of the
/// kind that names a missing image.
pub proof fn law_absent_image_is_reported(
    world: World,
    directories: Seq<Seq<char>>,
    d: int,
    items: Seq<Item>,
    i: int,
    image: Seq<char>,
)
    requires
        0 <= d < directories.len(),
        (world.listings)(directories[d]) == Ok::<Seq<Item>, Seq<char>>(items),
        0 <= i < items.len(),
        items[i] is Ok,
        scan::is_config_path(items[i]->Ok_0),
        holds_words((world.contents)(items[i]->Ok_0)),
        (world.configs)((world.contents)(items[i]->Ok_0)->Ok_0) is Ok,
        names_image((world.configs)((world.contents)(items[i]->Ok_0)->Ok_0)->Ok_0, image),
        !(world.present)(image),
    ensures
        ({
            let issues = scan_laws::scan_of(world, directories).issues;
            exists|k: int|
                0 <= k < issues.len() && (#[trigger] issues[k]).path == items[i]->Ok_0
                    && issues[k].kind is MissingImage
        }),
        !(world.file_finding(directories[d], items[i]->Ok_0) is Usable),
{
    let path = items[i]->Ok_0;
    let found = scan_laws::scan_of(world, directories);
    let findings = world.findings(directories);
    let finding = world.file_finding(directories[d], path);
    law_file_finding(world, directories[d], path);
    scan_laws::lemma_items_cover(world, directories[d], items, i);
    scan_laws::lemma_directories_cover(world, directories, d, finding);
    let k = choose|k: int| 0 <= k < findings.len() && findings[k] == finding;
    scan_laws::law_nothing_disappears(findings);
    assert(scan_laws::is_accounted(found, findings, findings[k]));
    let j = choose|j: int| 0 <= j < found.issues.len() && found.issues[j] == finding->Unusable_0;
    assert(found.issues[j].path == path);
}

/// What an item of a listing contributes: an error is reported about the
/// directory, a config file contributes what becomes of it, and any other file
/// contributes nothing.
pub proof fn law_item(world: World, directory: Seq<char>, path: Seq<char>, error: Seq<char>)
    ensures
        world.item_findings(directory, Err(error)) == seq![
            Finding::Unusable(
                IssueView {
                    path: directory,
                    kind: IssueKindView::Unreadable("directory entry: "@ + error),
                },
            ),
        ],
        scan::is_config_path(path) ==> world.item_findings(directory, Ok(path)) == seq![
            world.file_finding(directory, path),
        ],
        !scan::is_config_path(path) ==> world.item_findings(directory, Ok(path)).len() == 0,
{
}

/// The items of a listing, and the directories of a scan, are taken one after
/// the other: what two portions contribute is what the first contributes,
/// followed by what the second does.
pub proof fn law_in_order(
    world: World,
    directory: Seq<char>,
    first: Seq<Item>,
    second: Seq<Item>,
)
    ensures
        world.items_findings(directory, first + second) == world.items_findings(directory, first)
            + world.items_findings(directory, second),
    decreases first.len(),
{
    if first.len() == 0 {
        assert(first + second =~= second);
        assert(world.items_findings(directory, first) + world.items_findings(directory, second)
            =~= world.items_findings(directory, second));
    } else {
        assert((first + second).drop_first() =~= first.drop_first() + second);
        law_in_order(world, directory, first.drop_first(), second);
        assert(world.items_findings(directory, first + second) =~= world.items_findings(
            directory,
            first,
        ) + world.items_findings(directory, second));
    }
}

/// The facts of a config are the fields of it that the control plane looks at,
/// each as it is, and the outcome of reading one is the facts or the message.
pub proof fn law_facts(facts: GuestFacts, message: String)
    ensures
        facts@.id == facts.id,
        facts@.name == facts.name@,
        facts@.kernel_path == facts.kernel_path@,
        facts@.image_location == text::optional(facts.image_location),
        facts@.ramdisk_path == text::optional(facts.ramdisk_path),
        facts@.dtb_path == text::optional(facts.dtb_path),
        guest::config_outcome(Ok(facts)) == Ok::<GuestFactsView, Seq<char>>(facts@),
        guest::config_outcome(Err(message)) == Err::<GuestFactsView, Seq<char>>(message@),
{
}

/// The parser is asked about every text that is not blank, and only its own
/// answers are taken: what it accepts everywhere is accepted, with its facts,
/// and what it refuses everywhere is refused.
pub proof fn law_parser_decides(content: Result<Seq<char>, Seq<char>>, config: ConfigOutcome)
    requires
        scan::may_parse_as(content, config),
        holds_words(content),
    ensures
        guest::guest_reading(content->Ok_0) is Accepted ==> config == Ok::<
            GuestFactsView,
            Seq<char>,
        >(guest::guest_reading(content->Ok_0)->Accepted_0),
        guest::guest_reading(content->Ok_0) is Refused ==> config is Err,
        guest::guest_reading(content->Ok_0) is PerTarget && config is Ok ==> config->Ok_0
            == guest::guest_reading(content->Ok_0)->PerTarget_0,
{
    lemma_holds_words(content);
}

/// The views of what a scan asks for and is answered keep every part of them.
pub proof fn law_views(path: String, items: Vec<Result<String, String>>)
    ensures
        ScanAction::ReadDirectory(path)@ == ScanActionView::ReadDirectory(path@),
        ScanAction::ReadText(path)@ == ScanActionView::ReadText(path@),
        ScanAction::LookUp(path)@ == ScanActionView::LookUp(path@),
        ScanAction::Finished@ == ScanActionView::Finished,
        scan::listing_view(Err(path)) == Err::<Seq<Item>, Seq<char>>(path@),
        scan::listing_view(Ok(items)) is Ok,
        scan::listing_view(Ok(items))->Ok_0.len() == items@.len(),
        forall|i: int|
            0 <= i < items@.len() ==> #[trigger] scan::listing_view(Ok(items))->Ok_0[i]
                == text::either(items@[i]),
{
}

}
