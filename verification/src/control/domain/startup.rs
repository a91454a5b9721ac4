//! Reporting the pool at startup.
//!
//! The startup path makes sure that the pool directories exist, scans them, and
//! reports what it found. Creating a candidate is the start request's job;
//! reporting it makes a broken pool visible in the serial log before anything
//! asks for it.

use super::pool::{self, sources, startup_report, Pool, PoolView};
use super::save::{
    self, ensure_each, EnsureAllAction, EnsureAllActionView, EnsureAllState, EnsuringAll,
};
use super::scan::{self, scan_dirs, ScanAction, ScanActionView, ScanState, Scanner};
use super::scan_laws::{self, World};
use crate::guest::{self, ConfigOutcome, GuestFacts};
use crate::report::{self, LogLine, LogLineView};
use crate::text;
use vstd::prelude::*;

verus! {

/// What the startup report needs next.
#[derive(Debug, Clone, PartialEq, Eq)]
pub enum StartupAction {
    /// Find out whether this directory can be read.
    ProbeDirectory(String),
    /// Create this directory.
    CreateDirectory(String),
    /// List this directory.
    ReadDirectory(String),
    /// Read this file as text.
    ReadText(String),
    /// Look up whether this file exists.
    LookUp(String),
    /// Nothing: the report is complete.
    Finished,
}

/// The view of a [`StartupAction`].
pub enum StartupActionView {
    /// Find out whether this directory can be read.
    ProbeDirectory(Seq<char>),
    /// Create this directory.
    CreateDirectory(Seq<char>),
    /// List this directory.
    ReadDirectory(Seq<char>),
    /// Read this file as text.
    ReadText(Seq<char>),
    /// Look up whether this file exists.
    LookUp(Seq<char>),
    /// The report is complete.
    Finished,
}

impl View for StartupAction {
    type V = StartupActionView;

    open spec fn view(&self) -> StartupActionView {
        match self {
            StartupAction::ProbeDirectory(path) => StartupActionView::ProbeDirectory(path@),
            StartupAction::CreateDirectory(path) => StartupActionView::CreateDirectory(path@),
            StartupAction::ReadDirectory(path) => StartupActionView::ReadDirectory(path@),
            StartupAction::ReadText(path) => StartupActionView::ReadText(path@),
            StartupAction::LookUp(path) => StartupActionView::LookUp(path@),
            StartupAction::Finished => StartupActionView::Finished,
        }
    }
}

/// A startup report in progress.
pub struct Startup {
    ensuring: EnsuringAll,
    scanner: Scanner,
}

/// The view of a [`Startup`].
#[verifier::ext_equal]
pub struct StartupState {
    /// The directories being made sure of.
    pub ensuring: EnsureAllState,
    /// The scan that follows.
    pub scan: ScanState,
}

impl View for Startup {
    type V = StartupState;

    closed spec fn view(&self) -> StartupState {
        StartupState { ensuring: self.ensuring@, scan: self.scanner@ }
    }
}

impl StartupState {
    /// The state before anything was asked about `directories`.
    pub open spec fn start(directories: Seq<Seq<char>>) -> StartupState {
        StartupState {
            ensuring: EnsureAllState::start(directories),
            scan: ScanState::start(directories),
        }
    }

    /// Whether the state is one to rest in.
    pub open spec fn wf(self) -> bool {
        self.ensuring.wf() && self.scan.wf()
    }

    /// What is needed next. The scan begins once every directory has been made
    /// sure of.
    pub open spec fn action(self) -> StartupActionView {
        match self.ensuring.action() {
            EnsureAllActionView::ReadDirectory(path) => StartupActionView::ProbeDirectory(path),
            EnsureAllActionView::CreateDirectory(path) => StartupActionView::CreateDirectory(path),
            EnsureAllActionView::Finished => match self.scan.action() {
                ScanActionView::ReadDirectory(path) => StartupActionView::ReadDirectory(path),
                ScanActionView::ReadText(path) => StartupActionView::ReadText(path),
                ScanActionView::LookUp(path) => StartupActionView::LookUp(path),
                ScanActionView::Finished => StartupActionView::Finished,
            },
        }
    }

    /// The state after finding out whether a directory can be read.
    pub open spec fn probed(self, readable: bool) -> StartupState {
        StartupState { ensuring: self.ensuring.probed(readable), ..self }
    }

    /// The state after trying to create a directory.
    pub open spec fn created(self, result: Result<(), Seq<char>>) -> StartupState {
        StartupState { ensuring: self.ensuring.created(result), ..self }
    }

    /// The state after the listing of a directory.
    pub open spec fn listed(self, listing: scan::Listing) -> StartupState {
        StartupState { scan: self.scan.listed(listing), ..self }
    }

    /// The state after reading a config file, given what the config parser made
    /// of its text.
    pub open spec fn read(
        self,
        content: Result<Seq<char>, Seq<char>>,
        config: ConfigOutcome,
    ) -> StartupState {
        StartupState { scan: self.scan.read(content, config), ..self }
    }

    /// The state after looking up an image.
    pub open spec fn looked_up(self, present: bool) -> StartupState {
        StartupState { scan: self.scan.looked_up(present), ..self }
    }

    /// What a finished report says: what could not be created, then the pool.
    pub open spec fn report(self) -> Seq<LogLineView> {
        self.ensuring.log + pool::startup_lines(self.scan.pool())
    }
}

/// Starts reporting the pool contents through the host log.
pub fn log_startup_state(pool: Option<&str>, extra: Option<&str>) -> (r: Startup)
    ensures
        r@ == StartupState::start(pool::sources_of(pool, extra)),
        r@.wf(),
{
    let directories: Vec<String> = sources(pool, extra);
    let scanner: Scanner = scan_dirs(directories.as_slice());
    Startup { ensuring: ensure_each(directories), scanner }
}

impl Startup {
    /// What is needed from the filesystem next.
    pub fn action(&self) -> (r: StartupAction)
        requires
            self@.wf(),
        ensures
            r@ == self@.action(),
    {
        match self.ensuring.action() {
            EnsureAllAction::ReadDirectory(path) => StartupAction::ProbeDirectory(path),
            EnsureAllAction::CreateDirectory(path) => StartupAction::CreateDirectory(path),
            EnsureAllAction::Finished => match self.scanner.action() {
                ScanAction::ReadDirectory(path) => StartupAction::ReadDirectory(path),
                ScanAction::ReadText(path) => StartupAction::ReadText(path),
                ScanAction::LookUp(path) => StartupAction::LookUp(path),
                ScanAction::Finished => StartupAction::Finished,
            },
        }
    }

    /// Hands over whether the directory that [`Startup::action`] named can be
    /// read.
    pub fn probe(&mut self, readable: bool)
        requires
            old(self)@.wf(),
            old(self)@.action() is ProbeDirectory,
        ensures
            final(self)@ == old(self)@.probed(readable),
            final(self)@.wf(),
    {
        self.ensuring.probe(readable);
    }

    /// Hands over what came of creating the directory.
    pub fn create(&mut self, result: Result<(), String>)
        requires
            old(self)@.wf(),
            old(self)@.action() is CreateDirectory,
        ensures
            final(self)@ == old(self)@.created(text::answer(result)),
            final(self)@.wf(),
    {
        self.ensuring.create(result);
    }

    /// Hands over the listing of the directory.
    pub fn read_directory(&mut self, listing: Result<Vec<Result<String, String>>, String>)
        requires
            old(self)@.wf(),
            old(self)@.action() is ReadDirectory,
        ensures
            final(self)@ == old(self)@.listed(scan::listing_view(listing)),
            final(self)@.wf(),
    {
        self.scanner.read_directory(listing);
    }

    /// Hands over the text of the config file, and what the config parser made
    /// of it.
    pub fn read_text_with(
        &mut self,
        content: Result<String, String>,
        config: Result<GuestFacts, String>,
    )
        requires
            old(self)@.wf(),
            old(self)@.action() is ReadText,
        ensures
            final(self)@ == old(self)@.read(text::either(content), guest::config_outcome(config)),
            final(self)@.wf(),
    {
        self.scanner.read_text_with(content, config);
    }

    /// Hands over the text of the config file.
    pub fn read_text(&mut self, content: Result<String, String>)
        requires
            old(self)@.wf(),
            old(self)@.action() is ReadText,
        ensures
            exists|config: ConfigOutcome|
                scan::may_parse_as(text::either(content), config) && final(self)@
                    == #[trigger] old(self)@.read(text::either(content), config),
            final(self)@.wf(),
    {
        self.scanner.read_text(content);
        proof {
            let config = choose|config: ConfigOutcome|
                scan::may_parse_as(text::either(content), config) && self.scanner@
                    == #[trigger] old(self)@.scan.read(text::either(content), config);
            assert(self@ == old(self)@.read(text::either(content), config));
        }
    }

    /// Hands over whether the file exists.
    pub fn look_up(&mut self, present: bool)
        requires
            old(self)@.wf(),
            old(self)@.action() is LookUp,
        ensures
            final(self)@ == old(self)@.looked_up(present),
            final(self)@.wf(),
    {
        self.scanner.look_up(present);
    }

    /// The lines of the report.
    pub fn finish(self) -> (r: Vec<LogLine>)
        requires
            self@.wf(),
            self@.action() is Finished,
        ensures
            report::lines(r@) == self@.report(),
    {
        let mut log: Vec<LogLine> = self.ensuring.into_log();
        let found: Pool = self.scanner.finish();
        let mut lines: Vec<LogLine> = startup_report(&found);
        let ghost first = log@;
        let ghost second = lines@;
        log.append(&mut lines);
        assert(report::lines(log@) =~= report::lines(first) + report::lines(second));
        log
    }
}

/// Every directory is made sure of before any is scanned: as long as one is
/// being probed or created, the scan has not begun, and neither of the two
/// answers begins it.
pub proof fn law_ensured_before_scanned(state: StartupState, readable: bool, result: Result<
    (),
    Seq<char>,
>)
    requires
        state.ensuring.action() is ReadDirectory || state.ensuring.action() is CreateDirectory,
    ensures
        state.action() is ProbeDirectory || state.action() is CreateDirectory,
        state.probed(readable).scan == state.scan,
        state.created(result).scan == state.scan,
{
}

/// A filesystem on which directories are made sure of and then scanned.
pub struct Premises {
    /// Whether each directory can be read at first.
    pub readable: spec_fn(Seq<char>) -> bool,
    /// What comes of creating each directory.
    pub created: spec_fn(Seq<char>) -> Result<(), Seq<char>>,
    /// What the scan then meets.
    pub world: World,
}

/// The state after the question that `state` asks is answered from `premises`.
pub open spec fn step(state: StartupState, premises: Premises) -> StartupState {
    match state.action() {
        StartupActionView::ProbeDirectory(path) => state.probed((premises.readable)(path)),
        StartupActionView::CreateDirectory(path) => state.created((premises.created)(path)),
        StartupActionView::ReadDirectory(path) => state.listed((premises.world.listings)(path)),
        StartupActionView::ReadText(path) => state.read(
            (premises.world.contents)(path),
            premises.world.config(path),
        ),
        StartupActionView::LookUp(path) => state.looked_up((premises.world.present)(path)),
        StartupActionView::Finished => state,
    }
}

/// The state after `n` questions are answered from `premises`.
pub open spec fn steps(state: StartupState, premises: Premises, n: nat) -> StartupState
    decreases n,
{
    if n == 0 {
        state
    } else {
        steps(step(state, premises), premises, (n - 1) as nat)
    }
}

proof fn lemma_steps_add(state: StartupState, premises: Premises, m: nat, n: nat)
    ensures
        steps(state, premises, m + n) == steps(steps(state, premises, m), premises, n),
    decreases m,
{
    if m > 0 {
        lemma_steps_add(step(state, premises), premises, (m - 1) as nat, n);
    }
}

proof fn lemma_ensuring(state: StartupState, premises: Premises, k: nat) -> (n: nat)
    ensures
        steps(state, premises, n) == (StartupState {
            ensuring: save::ensure_steps(
                state.ensuring,
                premises.readable,
                premises.created,
                k,
            ),
            scan: state.scan,
        }),
    decreases k,
{
    let next = save::ensure_step(state.ensuring, premises.readable, premises.created);
    if k == 0 {
        0
    } else if state.ensuring.action() is Finished {
        assert(next == state.ensuring);
        lemma_ensuring(state, premises, (k - 1) as nat)
    } else {
        let stepped = step(state, premises);
        assert(stepped == (StartupState { ensuring: next, scan: state.scan }));
        let m = lemma_ensuring(stepped, premises, (k - 1) as nat);
        m + 1
    }
}

proof fn lemma_scanning(state: StartupState, premises: Premises, k: nat) -> (n: nat)
    requires
        state.ensuring.action() is Finished,
    ensures
        steps(state, premises, n) == (StartupState {
            ensuring: state.ensuring,
            scan: scan_laws::steps(state.scan, premises.world, k),
        }),
    decreases k,
{
    let next = scan_laws::step(state.scan, premises.world);
    if k == 0 {
        0
    } else if state.scan.action() is Finished {
        assert(next == state.scan);
        lemma_scanning(state, premises, (k - 1) as nat)
    } else {
        let stepped = step(state, premises);
        assert(stepped == (StartupState { ensuring: state.ensuring, scan: next }));
        let m = lemma_scanning(stepped, premises, (k - 1) as nat);
        m + 1
    }
}

/// The startup report comes to an end, and says first which directories could
/// not be created, and then what a scan of all of them finds.
pub proof fn law_startup_reports(directories: Seq<Seq<char>>, premises: Premises)
    ensures
        exists|n: nat|
            {
                let end = #[trigger] steps(StartupState::start(directories), premises, n);
                let found = scan_laws::scan_of(premises.world, directories);
                &&& end.action() is Finished
                &&& end.report() == save::ensure_log(
                    directories,
                    premises.readable,
                    premises.created,
                ) + pool::startup_lines(
                    PoolView {
                        directory: if directories.len() > 0 {
                            directories[0]
                        } else {
                            Seq::empty()
                        },
                        sources: directories,
                        entries: found.entries,
                        issues: found.issues,
                    },
                )
            },
{
    let start = StartupState::start(directories);
    save::law_every_directory_has_its_turn(directories, premises.readable, premises.created);
    let k = choose|k: nat|
        {
            let end = #[trigger] save::ensure_steps(
                EnsureAllState::start(directories),
                premises.readable,
                premises.created,
                k,
            );
            end.action() is Finished && end.log == save::ensure_log(
                directories,
                premises.readable,
                premises.created,
            )
        };
    let m = lemma_ensuring(start, premises, k);
    let ensured = steps(start, premises, m);
    scan_laws::law_scan_finds(premises.world, directories);
    let l = choose|l: nat|
        {
            let end = #[trigger] scan_laws::steps(
                ScanState::start(directories),
                premises.world,
                l,
            );
            &&& end.action() is Finished
            &&& end.pool().sources == directories
            &&& end.pool().entries == scan_laws::scan_of(premises.world, directories).entries
            &&& end.pool().issues == scan_laws::scan_of(premises.world, directories).issues
        };
    let n = lemma_scanning(ensured, premises, l);
    lemma_steps_add(start, premises, m, n);
    let end = steps(start, premises, m + n);
    assert(end.action() is Finished);
    assert(end.scan.pool() =~= PoolView {
        directory: if directories.len() > 0 {
            directories[0]
        } else {
            Seq::empty()
        },
        sources: directories,
        entries: scan_laws::scan_of(premises.world, directories).entries,
        issues: scan_laws::scan_of(premises.world, directories).issues,
    });
}

/// The views of what the startup report asks for keep every part of them.
pub proof fn law_views(path: String)
    ensures
        StartupAction::ProbeDirectory(path)@ == StartupActionView::ProbeDirectory(path@),
        StartupAction::CreateDirectory(path)@ == StartupActionView::CreateDirectory(path@),
        StartupAction::ReadDirectory(path)@ == StartupActionView::ReadDirectory(path@),
        StartupAction::ReadText(path)@ == StartupActionView::ReadText(path@),
        StartupAction::LookUp(path)@ == StartupActionView::LookUp(path@),
        StartupAction::Finished@ == StartupActionView::Finished,
{
}

}
