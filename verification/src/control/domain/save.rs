//! Storing a guest config in the pool, and making sure the pool directories
//! exist.
//!
//! The filesystem is asked one question at a time: `action` names the question,
//! and the answer is handed back through the method of that name.

use super::browse;
use super::pool::{self, directory, sources, EntryView};
use super::scan::{self, names_config, CandidateView, Item};
use super::scan_laws::{self, World};
use crate::guest::{
    self, read_config, ConfigOutcome, GuestFacts, GuestFactsView, GuestReading,
};
use crate::report::{self, Level, LogLine, LogLineView};
use crate::text;
use vstd::prelude::*;

verus! {

/// Why a config could not be stored in the pool directory.
#[derive(Debug, Clone, PartialEq, Eq)]
pub enum SaveError {
    /// The name is not a plain `*.toml` file name.
    InvalidName(String),
    /// The text is not a guest config TOML document.
    InvalidToml(String),
    /// The pool directory or the file could not be written.
    Unwritable(String),
}

/// The view of a [`SaveError`].
pub enum SaveErrorView {
    /// The name is not a plain `*.toml` file name.
    InvalidName(Seq<char>),
    /// The text is not a guest config.
    InvalidToml(Seq<char>),
    /// The directory or the file could not be written.
    Unwritable(Seq<char>),
}

impl View for SaveError {
    type V = SaveErrorView;

    open spec fn view(&self) -> SaveErrorView {
        match self {
            SaveError::InvalidName(name) => SaveErrorView::InvalidName(name@),
            SaveError::InvalidToml(error) => SaveErrorView::InvalidToml(error@),
            SaveError::Unwritable(error) => SaveErrorView::Unwritable(error@),
        }
    }
}

impl SaveErrorView {
    /// Human-facing text.
    pub open spec fn message(self) -> Seq<char> {
        match self {
            SaveErrorView::InvalidName(name) => "`"@ + name
                + "` is not a file name (a plain name ending in .toml is required)"@,
            SaveErrorView::InvalidToml(error) => "not a guest config: "@ + error,
            SaveErrorView::Unwritable(error) => "cannot be written: "@ + error,
        }
    }
}

impl SaveError {
    /// Human-facing text.
    pub fn to_text(&self) -> (r: String)
        ensures
            r@ == self@.message(),
    {
        match self {
            SaveError::InvalidName(name) => "`".to_string().concat(name.as_str()).concat(
                "` is not a file name (a plain name ending in .toml is required)",
            ),
            SaveError::InvalidToml(error) => "not a guest config: ".to_string().concat(
                error.as_str(),
            ),
            SaveError::Unwritable(error) => "cannot be written: ".to_string().concat(
                error.as_str(),
            ),
        }
    }
}

/// What making sure that a directory exists needs next.
#[derive(Debug, PartialEq, Eq)]
pub enum EnsureAction {
    /// Find out whether this directory can be read.
    ReadDirectory(String),
    /// Create this directory.
    CreateDirectory(String),
    /// Nothing: the directory is there, or could not be created.
    Finished(Result<(), String>),
}

/// The view of an [`EnsureAction`].
pub enum EnsureActionView {
    /// Find out whether this directory can be read.
    ReadDirectory(Seq<char>),
    /// Create this directory.
    CreateDirectory(Seq<char>),
    /// The directory is there, or could not be created.
    Finished(Result<(), Seq<char>>),
}

impl View for EnsureAction {
    type V = EnsureActionView;

    open spec fn view(&self) -> EnsureActionView {
        match self {
            EnsureAction::ReadDirectory(path) => EnsureActionView::ReadDirectory(path@),
            EnsureAction::CreateDirectory(path) => EnsureActionView::CreateDirectory(path@),
            EnsureAction::Finished(result) => EnsureActionView::Finished(text::answer(*result)),
        }
    }
}

/// A directory whose existence is being made sure of.
#[derive(Debug, PartialEq, Eq)]
pub struct Ensuring {
    directory: String,
    missing: bool,
    outcome: Option<Result<(), String>>,
}

/// The view of an [`Ensuring`].
pub struct EnsureState {
    /// The directory.
    pub directory: Seq<char>,
    /// Whether it turned out to be unreadable.
    pub missing: bool,
    /// What came of it, once that is known.
    pub outcome: Option<Result<(), Seq<char>>>,
}

impl EnsureState {
    /// The state before anything was asked.
    pub open spec fn start(directory: Seq<char>) -> EnsureState {
        EnsureState { directory, missing: false, outcome: None }
    }

    /// What is needed next.
    pub open spec fn action(self) -> EnsureActionView {
        match self.outcome {
            Some(result) => EnsureActionView::Finished(result),
            None => if self.missing {
                EnsureActionView::CreateDirectory(self.directory)
            } else {
                EnsureActionView::ReadDirectory(self.directory)
            },
        }
    }

    /// The state after finding out whether the directory can be read: one that
    /// can is left untouched.
    pub open spec fn probed(self, readable: bool) -> EnsureState {
        if readable {
            EnsureState { outcome: Some(Ok(())), ..self }
        } else {
            EnsureState { missing: true, ..self }
        }
    }

    /// The state after trying to create the directory.
    pub open spec fn created(self, result: Result<(), Seq<char>>) -> EnsureState {
        EnsureState { outcome: Some(result), ..self }
    }
}

impl View for Ensuring {
    type V = EnsureState;

    closed spec fn view(&self) -> EnsureState {
        EnsureState {
            directory: self.directory@,
            missing: self.missing,
            outcome: match self.outcome {
                Some(result) => Some(text::answer(result)),
                None => None,
            },
        }
    }
}

/// Starts making sure that `directory` exists.
///
/// The guest filesystem cannot create parent directories, so the pool only ever
/// ensures one level. An existing directory is left untouched, which is what
/// makes this callable on every start and on every save.
pub fn ensure_directory(directory: &str) -> (r: Ensuring)
    ensures
        r@ == EnsureState::start(directory@),
{
    Ensuring { directory: directory.to_string(), missing: false, outcome: None }
}

/// A copy of an operation's answer.
fn copy_answer(result: &Result<(), String>) -> (r: Result<(), String>)
    ensures
        text::answer(r) == text::answer(*result),
{
    match result {
        Ok(_) => Ok(()),
        Err(error) => Err(error.clone()),
    }
}

impl Ensuring {
    /// What is needed from the filesystem next.
    pub fn action(&self) -> (r: EnsureAction)
        ensures
            r@ == self@.action(),
    {
        match &self.outcome {
            Some(result) => EnsureAction::Finished(copy_answer(result)),
            None => {
                if self.missing {
                    EnsureAction::CreateDirectory(self.directory.clone())
                } else {
                    EnsureAction::ReadDirectory(self.directory.clone())
                }
            },
        }
    }

    /// Hands over whether the directory can be read.
    pub fn probe(&mut self, readable: bool)
        requires
            old(self)@.action() is ReadDirectory,
        ensures
            final(self)@ == old(self)@.probed(readable),
    {
        if readable {
            self.outcome = Some(Ok(()));
        } else {
            self.missing = true;
        }
    }

    /// Hands over what came of creating the directory.
    pub fn create(&mut self, result: Result<(), String>)
        requires
            old(self)@.action() is CreateDirectory,
        ensures
            final(self)@ == old(self)@.created(text::answer(result)),
    {
        self.outcome = Some(result);
    }
}

/// Whether `name` is a plain config file name: no separators, no leading dot.
pub open spec fn is_file_name(name: Seq<char>) -> bool {
    &&& name.len() > 0
    &&& scan::is_config_path(name)
    &&& !name.contains('/')
    &&& name[0] != '.'
}

/// Whether `name` is a plain config file name.
fn names_file(name: &str) -> (r: bool)
    ensures
        r == is_file_name(name@),
{
    !name.is_empty() && names_config(name) && !text::contains_char(name, '/')
        && !text::starts_with_char(name, '.')
}

/// What storing a config needs next.
#[derive(Debug, PartialEq, Eq)]
pub enum SaveAction {
    /// Find out whether this directory can be read.
    ReadDirectory(String),
    /// Create this directory.
    CreateDirectory(String),
    /// Write a file.
    Write {
        /// Path of the file.
        path: String,
        /// The text to write.
        toml: String,
    },
    /// Nothing: the config is stored under this path, or could not be.
    Finished(Result<String, SaveError>),
}

/// The view of a [`SaveAction`].
pub enum SaveActionView {
    /// Find out whether this directory can be read.
    ReadDirectory(Seq<char>),
    /// Create this directory.
    CreateDirectory(Seq<char>),
    /// Write a file.
    Write {
        /// Path of the file.
        path: Seq<char>,
        /// The text to write.
        toml: Seq<char>,
    },
    /// The config is stored under this path, or could not be.
    Finished(Result<Seq<char>, SaveErrorView>),
}

/// The view of the result of a save.
pub open spec fn saved(result: Result<String, SaveError>) -> Result<Seq<char>, SaveErrorView> {
    match result {
        Ok(path) => Ok(path@),
        Err(error) => Err(error@),
    }
}

impl View for SaveAction {
    type V = SaveActionView;

    open spec fn view(&self) -> SaveActionView {
        match self {
            SaveAction::ReadDirectory(path) => SaveActionView::ReadDirectory(path@),
            SaveAction::CreateDirectory(path) => SaveActionView::CreateDirectory(path@),
            SaveAction::Write { path, toml } => SaveActionView::Write { path: path@, toml: toml@ },
            SaveAction::Finished(result) => SaveActionView::Finished(saved(*result)),
        }
    }
}

/// A config being stored.
#[derive(Debug, PartialEq, Eq)]
pub struct Saver {
    ensuring: Ensuring,
    path: String,
    toml: String,
    written: Option<Result<(), String>>,
}

/// The view of a [`Saver`].
pub struct SaveState {
    /// The directory being made sure of.
    pub ensuring: EnsureState,
    /// The path to write.
    pub path: Seq<char>,
    /// The text to write.
    pub toml: Seq<char>,
    /// What came of writing it, once that is known.
    pub written: Option<Result<(), Seq<char>>>,
}

impl View for Saver {
    type V = SaveState;

    closed spec fn view(&self) -> SaveState {
        SaveState {
            ensuring: self.ensuring@,
            path: self.path@,
            toml: self.toml@,
            written: match self.written {
                Some(result) => Some(text::answer(result)),
                None => None,
            },
        }
    }
}

impl SaveState {
    /// The start of storing `toml` as `name` in `directory`, or the reason why
    /// it is refused, given what the config parser made of the text. Nothing is
    /// asked of the filesystem before name and text are valid.
    pub open spec fn start(
        directory: Seq<char>,
        name: Seq<char>,
        toml: Seq<char>,
        config: ConfigOutcome,
    ) -> Result<SaveState, SaveErrorView> {
        let name = text::trimmed(name);
        if !is_file_name(name) {
            Err(SaveErrorView::InvalidName(name))
        } else {
            match config {
                Err(message) => Err(SaveErrorView::InvalidToml(message)),
                Ok(_) => Ok(
                    SaveState {
                        ensuring: EnsureState::start(directory),
                        path: directory + "/"@ + name,
                        toml,
                        written: None,
                    },
                ),
            }
        }
    }

    /// What is needed next.
    pub open spec fn action(self) -> SaveActionView {
        match self.written {
            Some(Ok(_)) => SaveActionView::Finished(Ok(self.path)),
            Some(Err(error)) => SaveActionView::Finished(Err(SaveErrorView::Unwritable(error))),
            None => match self.ensuring.action() {
                EnsureActionView::ReadDirectory(path) => SaveActionView::ReadDirectory(path),
                EnsureActionView::CreateDirectory(path) => SaveActionView::CreateDirectory(path),
                EnsureActionView::Finished(Ok(_)) => SaveActionView::Write {
                    path: self.path,
                    toml: self.toml,
                },
                EnsureActionView::Finished(Err(error)) => SaveActionView::Finished(
                    Err(SaveErrorView::Unwritable(error)),
                ),
            },
        }
    }

    /// The state after finding out whether the directory can be read.
    pub open spec fn probed(self, readable: bool) -> SaveState {
        SaveState { ensuring: self.ensuring.probed(readable), ..self }
    }

    /// The state after trying to create the directory.
    pub open spec fn created(self, result: Result<(), Seq<char>>) -> SaveState {
        SaveState { ensuring: self.ensuring.created(result), ..self }
    }

    /// The state after trying to write the file.
    pub open spec fn wrote(self, result: Result<(), Seq<char>>) -> SaveState {
        SaveState { written: Some(result), ..self }
    }
}

/// The view of the start of a save.
pub open spec fn started(result: Result<Saver, SaveError>) -> Result<SaveState, SaveErrorView> {
    match result {
        Ok(saver) => Ok(saver@),
        Err(error) => Err(error@),
    }
}

/// Starts storing a guest config in `directory`, given what the config parser
/// made of its text.
pub fn save_in_with(
    directory: &str,
    name: &str,
    toml: &str,
    config: Result<GuestFacts, String>,
) -> (r: Result<Saver, SaveError>)
    ensures
        started(r) == SaveState::start(directory@, name@, toml@, guest::config_outcome(config)),
{
    let name: &str = text::trim(name);
    if !names_file(name) {
        return Err(SaveError::InvalidName(name.to_string()));
    }
    match config {
        Err(message) => Err(SaveError::InvalidToml(message)),
        Ok(_) => Ok(
            Saver {
                ensuring: ensure_directory(directory),
                path: directory.to_string().concat("/").concat(name),
                toml: toml.to_string(),
                written: None,
            },
        ),
    }
}

/// Starts storing a guest config in a specific directory.
///
/// [`save`] passes the drop-in pool directory. Validation is identical in both
/// cases: the name must be a plain `*.toml` file name (no separators, no
/// leading dot) and the text must parse as a guest config before anything is
/// written. A bad name is refused before the text is looked at.
pub fn save_in(directory: &str, name: &str, toml: &str) -> (r: Result<Saver, SaveError>)
    ensures
        exists|config: ConfigOutcome|
            guest::may_read_as(toml@, config) && started(r) == #[trigger] SaveState::start(
                directory@,
                name@,
                toml@,
                config,
            ),
{
    let trimmed: &str = text::trim(name);
    if !names_file(trimmed) {
        proof {
            let reading: ConfigOutcome = match guest::guest_reading(toml@) {
                GuestReading::Accepted(facts) => Ok(facts),
                _ => Err(Seq::empty()),
            };
            assert(guest::may_read_as(toml@, reading));
            assert(SaveState::start(directory@, name@, toml@, reading) is Err);
        }
        return Err(SaveError::InvalidName(trimmed.to_string()));
    }
    let config: Result<GuestFacts, String> = read_config(toml);
    assert(guest::may_read_as(toml@, guest::config_outcome(config)));
    save_in_with(directory, name, toml, config)
}

/// Starts storing a guest config in the drop-in pool directory.
///
/// This is how a config reaches the pool on a machine whose shell cannot write
/// a multi-line file: the text is validated and written as a pool file, after
/// which it is a candidate like any other. The name is restricted to a plain
/// `*.toml` file name so the request cannot write outside the pool directory.
pub fn save(pool: Option<&str>, name: &str, toml: &str) -> (r: Result<Saver, SaveError>)
    ensures
        exists|config: ConfigOutcome|
            guest::may_read_as(toml@, config) && started(r) == #[trigger] SaveState::start(
                pool::directory_of(pool),
                name@,
                toml@,
                config,
            ),
{
    save_in(directory(pool), name, toml)
}

impl Saver {
    /// What is needed from the filesystem next.
    pub fn action(&self) -> (r: SaveAction)
        ensures
            r@ == self@.action(),
    {
        match &self.written {
            Some(Ok(_)) => SaveAction::Finished(Ok(self.path.clone())),
            Some(Err(error)) => SaveAction::Finished(Err(SaveError::Unwritable(error.clone()))),
            None => match self.ensuring.action() {
                EnsureAction::ReadDirectory(path) => SaveAction::ReadDirectory(path),
                EnsureAction::CreateDirectory(path) => SaveAction::CreateDirectory(path),
                EnsureAction::Finished(Ok(_)) => SaveAction::Write {
                    path: self.path.clone(),
                    toml: self.toml.clone(),
                },
                EnsureAction::Finished(Err(error)) => SaveAction::Finished(
                    Err(SaveError::Unwritable(error)),
                ),
            },
        }
    }

    /// Hands over whether the directory can be read.
    pub fn probe(&mut self, readable: bool)
        requires
            old(self)@.action() is ReadDirectory,
        ensures
            final(self)@ == old(self)@.probed(readable),
    {
        self.ensuring.probe(readable);
    }

    /// Hands over what came of creating the directory.
    pub fn create(&mut self, result: Result<(), String>)
        requires
            old(self)@.action() is CreateDirectory,
        ensures
            final(self)@ == old(self)@.created(text::answer(result)),
    {
        self.ensuring.create(result);
    }

    /// Hands over what came of writing the file.
    pub fn write(&mut self, result: Result<(), String>)
        requires
            old(self)@.action() is Write,
        ensures
            final(self)@ == old(self)@.wrote(text::answer(result)),
    {
        self.written = Some(result);
    }
}

/// The log line about a directory that could not be created.
pub open spec fn uncreated(directory: Seq<char>, error: Seq<char>) -> LogLineView {
    LogLineView {
        level: Level::Info,
        text: "VM pool: cannot create `"@ + directory + "`: "@ + error,
    }
}

/// Every pool directory, being made sure of in turn.
#[derive(Debug, PartialEq, Eq)]
pub struct EnsuringAll {
    current: Option<Ensuring>,
    todo: Vec<String>,
    log: Vec<LogLine>,
}

/// The view of an [`EnsuringAll`].
#[verifier::ext_equal]
pub struct EnsureAllState {
    /// The directory in hand.
    pub current: Option<EnsureState>,
    /// The directories after it.
    pub todo: Seq<Seq<char>>,
    /// What could not be created.
    pub log: Seq<LogLineView>,
}

/// What making sure of every pool directory needs next.
#[derive(Debug, Clone, PartialEq, Eq)]
pub enum EnsureAllAction {
    /// Find out whether this directory can be read.
    ReadDirectory(String),
    /// Create this directory.
    CreateDirectory(String),
    /// Nothing: every directory has had its turn.
    Finished,
}

/// The view of an [`EnsureAllAction`].
pub enum EnsureAllActionView {
    /// Find out whether this directory can be read.
    ReadDirectory(Seq<char>),
    /// Create this directory.
    CreateDirectory(Seq<char>),
    /// Every directory has had its turn.
    Finished,
}

impl View for EnsureAllAction {
    type V = EnsureAllActionView;

    open spec fn view(&self) -> EnsureAllActionView {
        match self {
            EnsureAllAction::ReadDirectory(path) => EnsureAllActionView::ReadDirectory(path@),
            EnsureAllAction::CreateDirectory(path) => EnsureAllActionView::CreateDirectory(path@),
            EnsureAllAction::Finished => EnsureAllActionView::Finished,
        }
    }
}

impl View for EnsuringAll {
    type V = EnsureAllState;

    closed spec fn view(&self) -> EnsureAllState {
        EnsureAllState {
            current: match self.current {
                Some(ensuring) => Some(ensuring@),
                None => None,
            },
            todo: text::views(self.todo@),
            log: report::lines(self.log@),
        }
    }
}

impl EnsureAllState {
    /// The state before anything was asked about `directories`.
    pub open spec fn start(directories: Seq<Seq<char>>) -> EnsureAllState {
        EnsureAllState { current: None, todo: directories, log: Seq::empty() }.advanced()
    }

    /// Whether the state is one to rest in: the directory in hand still needs
    /// an answer.
    pub open spec fn wf(self) -> bool {
        &&& self.current is Some ==> self.current->0.outcome is None
        &&& self.current is None ==> self.todo.len() == 0
    }

    /// What is needed next.
    pub open spec fn action(self) -> EnsureAllActionView {
        match self.current {
            None => EnsureAllActionView::Finished,
            Some(ensuring) => if ensuring.missing {
                EnsureAllActionView::CreateDirectory(ensuring.directory)
            } else {
                EnsureAllActionView::ReadDirectory(ensuring.directory)
            },
        }
    }

    /// The state with the next directory in hand.
    pub open spec fn advanced(self) -> EnsureAllState {
        if self.todo.len() == 0 {
            EnsureAllState { current: None, ..self }
        } else {
            EnsureAllState {
                current: Some(EnsureState::start(self.todo[0])),
                todo: self.todo.drop_first(),
                ..self
            }
        }
    }

    /// The state after finding out whether the directory in hand can be read.
    pub open spec fn probed(self, readable: bool) -> EnsureAllState {
        if readable {
            self.advanced()
        } else {
            EnsureAllState { current: Some(self.current->0.probed(false)), ..self }
        }
    }

    /// The state after trying to create the directory in hand. A failure is not
    /// fatal: the pool is allowed to be absent.
    pub open spec fn created(self, result: Result<(), Seq<char>>) -> EnsureAllState {
        match result {
            Ok(_) => self.advanced(),
            Err(error) => EnsureAllState {
                log: self.log.push(uncreated(self.current->0.directory, error)),
                ..self
            }.advanced(),
        }
    }
}

/// Starts making sure of every one of `directories`, in order.
pub fn ensure_each(directories: Vec<String>) -> (r: EnsuringAll)
    ensures
        r@ == EnsureAllState::start(text::views(directories@)),
        r@.wf(),
{
    let mut r = EnsuringAll { current: None, todo: directories, log: Vec::new() };
    assert(r@ =~= EnsureAllState {
        current: None,
        todo: text::views(directories@),
        log: Seq::empty(),
    });
    r.advance();
    r
}

/// Starts creating every pool directory that can be created.
///
/// Called on start so the drop-in folder exists and is visible in a browse, and
/// so an unprovisioned pool reads as "empty folder" rather than "missing
/// folder".
pub fn ensure_directories(pool: Option<&str>, extra: Option<&str>) -> (r: EnsuringAll)
    ensures
        r@ == EnsureAllState::start(pool::sources_of(pool, extra)),
        r@.wf(),
{
    ensure_each(sources(pool, extra))
}

impl EnsuringAll {
    /// What is needed from the filesystem next.
    pub fn action(&self) -> (r: EnsureAllAction)
        requires
            self@.wf(),
        ensures
            r@ == self@.action(),
    {
        match &self.current {
            None => EnsureAllAction::Finished,
            Some(ensuring) => match ensuring.action() {
                EnsureAction::ReadDirectory(path) => EnsureAllAction::ReadDirectory(path),
                EnsureAction::CreateDirectory(path) => EnsureAllAction::CreateDirectory(path),
                EnsureAction::Finished(_) => EnsureAllAction::Finished,
            },
        }
    }

    /// Takes the next directory in hand.
    fn advance(&mut self)
        ensures
            final(self)@ == old(self)@.advanced(),
            final(self)@.wf(),
    {
        if self.todo.len() == 0 {
            self.current = None;
            assert(self@ =~= old(self)@.advanced());
        } else {
            let next: String = self.todo.remove(0);
            self.current = Some(ensure_directory(next.as_str()));
            assert(self@.todo =~= old(self)@.todo.drop_first());
            assert(self@ =~= old(self)@.advanced());
        }
    }

    /// Hands over whether the directory in hand can be read.
    pub fn probe(&mut self, readable: bool)
        requires
            old(self)@.wf(),
            old(self)@.action() is ReadDirectory,
        ensures
            final(self)@ == old(self)@.probed(readable),
            final(self)@.wf(),
    {
        if readable {
            self.advance();
        } else {
            match self.current.take() {
                Some(mut ensuring) => {
                    ensuring.probe(false);
                    self.current = Some(ensuring);
                    assert(self@ =~= old(self)@.probed(false));
                },
                None => {},
            }
        }
    }

    /// Hands over what came of creating the directory in hand.
    pub fn create(&mut self, result: Result<(), String>)
        requires
            old(self)@.wf(),
            old(self)@.action() is CreateDirectory,
        ensures
            final(self)@ == old(self)@.created(text::answer(result)),
            final(self)@.wf(),
    {
        match result {
            Ok(_) => self.advance(),
            Err(error) => {
                match &self.current {
                    Some(ensuring) => {
                        let text: String = "VM pool: cannot create `".to_string().concat(
                            ensuring.directory.as_str(),
                        ).concat("`: ").concat(error.as_str());
                        let line = LogLine { level: Level::Info, text };
                        self.log.push(line);
                        assert(self@ =~= EnsureAllState {
                            log: old(self)@.log.push(
                                uncreated(old(self)@.current->0.directory, error@),
                            ),
                            ..old(self)@
                        });
                    },
                    None => {},
                }
                self.advance();
            },
        }
    }

    /// What could not be created, for the host log.
    pub fn into_log(self) -> (r: Vec<LogLine>)
        ensures
            report::lines(r@) == self@.log,
    {
        self.log
    }
}

/// A save is refused exactly if the name is not a plain config file name or the
/// text is not a guest config, the name first; and only one that is not refused
/// asks anything of the filesystem, beginning with the directory.
pub proof fn law_validation_comes_first(
    directory: Seq<char>,
    name: Seq<char>,
    toml: Seq<char>,
    config: ConfigOutcome,
)
    ensures
        ({
            let start = SaveState::start(directory, name, toml, config);
            let named = is_file_name(text::trimmed(name));
            &&& start is Ok <==> named && config is Ok
            &&& !named ==> start == Err::<SaveState, SaveErrorView>(
                SaveErrorView::InvalidName(text::trimmed(name)),
            )
            &&& named && config is Err ==> start == Err::<SaveState, SaveErrorView>(
                SaveErrorView::InvalidToml(config->Err_0),
            )
            &&& start is Ok ==> start->Ok_0.action() == SaveActionView::ReadDirectory(directory)
        }),
{
}

/// A directory that can be read is left untouched, one that cannot is created
/// once, and what comes of that is the outcome.
pub proof fn law_existing_directory_is_untouched(
    directory: Seq<char>,
    created: Result<(), Seq<char>>,
)
    ensures
        ({
            let start = EnsureState::start(directory);
            &&& start.probed(true).action() == EnsureActionView::Finished(Ok(()))
            &&& start.probed(false).action() == EnsureActionView::CreateDirectory(directory)
            &&& start.probed(false).created(created).action() == EnsureActionView::Finished(created)
        }),
{
}

/// A stored config lies directly in the directory it was stored in, under the
/// trimmed name, and is a config file: the name cannot lead out of the
/// directory.
pub proof fn law_saved_path(
    directory: Seq<char>,
    name: Seq<char>,
    toml: Seq<char>,
    config: ConfigOutcome,
)
    requires
        SaveState::start(directory, name, toml, config) is Ok,
    ensures
        ({
            let path = SaveState::start(directory, name, toml, config)->Ok_0.path;
            &&& path == directory.push('/') + text::trimmed(name)
            &&& scan::is_config_path(path)
            &&& browse::parent_of(path) == (if directory.len() == 0 {
                Some("/"@)
            } else {
                Some(directory)
            })
        }),
{
    let name = text::trimmed(name);
    let path = SaveState::start(directory, name, toml, config)->Ok_0.path;
    reveal_strlit("/");
    assert(directory + "/"@ + name =~= directory.push('/') + name);
    super::browse_laws::law_parent_of_child(directory, name);
    let suffix = ".toml"@;
    let whole = directory.push('/') + name;
    assert(whole.skip(whole.len() - suffix.len()) =~= name.skip(name.len() - suffix.len()));
}

/// Storing a config that passes validation comes to an end after at most three
/// answers: it succeeds with the path if the directory can be read or created
/// and the file can be written, and otherwise reports the operation that
/// failed.
pub proof fn law_save_ends(
    start: SaveState,
    readable: bool,
    created: Result<(), Seq<char>>,
    wrote: Result<(), Seq<char>>,
)
    requires
        start.written is None,
        start.ensuring == EnsureState::start(start.ensuring.directory),
    ensures
        ({
            let probed = start.probed(readable);
            let ensured = if readable {
                probed
            } else {
                probed.created(created)
            };
            &&& start.action() == SaveActionView::ReadDirectory(start.ensuring.directory)
            &&& !readable ==> probed.action() == SaveActionView::CreateDirectory(
                start.ensuring.directory,
            )
            &&& readable || created is Ok ==> ensured.action() == (SaveActionView::Write {
                path: start.path,
                toml: start.toml,
            }) && ensured.wrote(wrote).action() == SaveActionView::Finished(
                match wrote {
                    Ok(_) => Ok(start.path),
                    Err(error) => Err(SaveErrorView::Unwritable(error)),
                },
            )
            &&& !readable && created is Err ==> ensured.action() == SaveActionView::Finished(
                Err(SaveErrorView::Unwritable(created->Err_0)),
            )
        }),
{
}

/// The entry that a stored config becomes.
pub open spec fn stored_entry(
    directory: Seq<char>,
    name: Seq<char>,
    toml: Seq<char>,
    facts: GuestFactsView,
) -> EntryView {
    EntryView {
        path: directory.push('/') + text::trimmed(name),
        source: directory,
        id: facts.id,
        name: facts.name,
        toml,
    }
}

/// Whether `world` is a filesystem in which the config `toml`, stored as `name`
/// in `directory`, is the item `i` of `items`, the listing of `directory`, reads
/// back as it was written, and holds `facts`.
pub open spec fn is_stored(
    world: World,
    directory: Seq<char>,
    name: Seq<char>,
    toml: Seq<char>,
    facts: GuestFactsView,
    items: Seq<Item>,
    i: int,
) -> bool {
    let path = directory.push('/') + text::trimmed(name);
    &&& is_file_name(text::trimmed(name))
    &&& (world.configs)(toml) == Ok::<GuestFactsView, Seq<char>>(facts)
    &&& (world.listings)(directory) == Ok::<Seq<Item>, Seq<char>>(items)
    &&& 0 <= i < items.len()
    &&& items[i] == Ok::<Seq<char>, Seq<char>>(path)
    &&& (world.contents)(path) == Ok::<Seq<char>, Seq<char>>(toml)
}

/// A stored config is a candidate like any other: a scan of any directories
/// among which is the one it was stored in makes of it what its images allow,
/// and reports it under its path. This holds of every text but a blank one.
pub proof fn law_saved_config_is_a_candidate(
    world: World,
    directories: Seq<Seq<char>>,
    d: int,
    name: Seq<char>,
    toml: Seq<char>,
    facts: GuestFactsView,
    items: Seq<Item>,
    i: int,
)
    requires
        0 <= d < directories.len(),
        is_stored(world, directories[d], name, toml, facts, items, i),
        !text::is_blank(toml),
    ensures
        ({
            let directory = directories[d];
            let entry = stored_entry(directory, name, toml, facts);
            let found = scan_laws::scan_of(world, directories);
            &&& SaveState::start(directory, name, toml, Ok(facts)) is Ok
            &&& SaveState::start(directory, name, toml, Ok(facts))->Ok_0.path == entry.path
            &&& world.file_finding(directory, entry.path) == world.candidate_finding(
                CandidateView { entry, images: scan::image_paths(facts) },
            )
            &&& (exists|k: int|
                0 <= k < found.entries.len() && (#[trigger] found.entries[k]).path == entry.path)
                || (exists|k: int|
                0 <= k < found.issues.len() && (#[trigger] found.issues[k]).path == entry.path)
        }),
{
    law_saved_path(directories[d], name, toml, Ok(facts));
    scan_laws::law_every_config_is_reported(world, directories, d, items, i);
}

/// A config stored in the first directory is the entry for its id in a scan of
/// all of them, with the text that was stored, when its images exist and no
/// config that its directory lists before it asks for the id. This holds of
/// every text but a blank one.
pub proof fn law_saved_config_is_the_entry(
    world: World,
    directories: Seq<Seq<char>>,
    name: Seq<char>,
    toml: Seq<char>,
    facts: GuestFactsView,
    items: Seq<Item>,
    i: int,
)
    requires
        directories.len() > 0,
        is_stored(world, directories[0], name, toml, facts, items, i),
        !text::is_blank(toml),
        world.first_missing(scan::image_paths(facts)) is None,
        !scan_laws::is_asked_for(world, directories[0], items, i, facts.id),
    ensures
        ({
            let entry = stored_entry(directories[0], name, toml, facts);
            let found = scan_laws::scan_of(world, directories);
            &&& pool::claim(found.entries, facts.id) == Some(entry)
            &&& found.entries.contains(entry)
        }),
{
    let entry = stored_entry(directories[0], name, toml, facts);
    law_saved_config_is_a_candidate(world, directories, 0, name, toml, facts, items, i);
    law_saved_path(directories[0], name, toml, Ok(facts));
    scan_laws::law_first_directory_wins(world, directories, items, i, entry);
}

/// What making sure of `directories` logs, when `readable` tells which can be
/// read and `created` what comes of creating each: one line for every directory
/// that can neither be read nor created, in order.
pub open spec fn ensure_log(
    directories: Seq<Seq<char>>,
    readable: spec_fn(Seq<char>) -> bool,
    created: spec_fn(Seq<char>) -> Result<(), Seq<char>>,
) -> Seq<LogLineView>
    decreases directories.len(),
{
    if directories.len() == 0 {
        Seq::empty()
    } else {
        let first = directories[0];
        (if !readable(first) && created(first) is Err {
            seq![uncreated(first, created(first)->Err_0)]
        } else {
            Seq::empty()
        }) + ensure_log(directories.drop_first(), readable, created)
    }
}

/// The state after the question that `state` asks is answered.
pub open spec fn ensure_step(
    state: EnsureAllState,
    readable: spec_fn(Seq<char>) -> bool,
    created: spec_fn(Seq<char>) -> Result<(), Seq<char>>,
) -> EnsureAllState {
    match state.action() {
        EnsureAllActionView::ReadDirectory(path) => state.probed(readable(path)),
        EnsureAllActionView::CreateDirectory(path) => state.created(created(path)),
        EnsureAllActionView::Finished => state,
    }
}

/// The state after `n` questions are answered.
pub open spec fn ensure_steps(
    state: EnsureAllState,
    readable: spec_fn(Seq<char>) -> bool,
    created: spec_fn(Seq<char>) -> Result<(), Seq<char>>,
    n: nat,
) -> EnsureAllState
    decreases n,
{
    if n == 0 {
        state
    } else {
        ensure_steps(ensure_step(state, readable, created), readable, created, (n - 1) as nat)
    }
}

proof fn lemma_ensure_ends(
    state: EnsureAllState,
    readable: spec_fn(Seq<char>) -> bool,
    created: spec_fn(Seq<char>) -> Result<(), Seq<char>>,
) -> (n: nat)
    requires
        state.wf(),
        state.current is Some ==> !state.current->0.missing,
    ensures
        ensure_steps(state, readable, created, n).action() is Finished,
        ensure_steps(state, readable, created, n).log == state.log + ensure_log(
            (match state.current {
                Some(ensuring) => seq![ensuring.directory],
                None => Seq::empty(),
            }) + state.todo,
            readable,
            created,
        ),
    decreases
            state.todo.len() + (if state.current is Some {
                1nat
            } else {
                0nat
            }),
{
    match state.current {
        None => {
            assert(Seq::<Seq<char>>::empty() + state.todo =~= Seq::<Seq<char>>::empty());
            assert(state.log + Seq::<LogLineView>::empty() =~= state.log);
            0
        },
        Some(ensuring) => {
            let path = ensuring.directory;
            let all = seq![path] + state.todo;
            assert(all.drop_first() =~= state.todo);
            let one = ensure_step(state, readable, created);
            reveal_with_fuel(ensure_steps, 3);
            let next = if readable(path) {
                one
            } else {
                ensure_step(one, readable, created)
            };
            let rest = (match next.current {
                Some(ensuring) => seq![ensuring.directory],
                None => Seq::empty(),
            }) + next.todo;
            assert(rest =~= state.todo);
            let m = lemma_ensure_ends(next, readable, created);
            assert(next.log + ensure_log(rest, readable, created) =~= state.log + ensure_log(
                all,
                readable,
                created,
            ));
            if readable(path) {
                m + 1
            } else {
                assert(ensure_steps(one, readable, created, m + 1) == ensure_steps(
                    next,
                    readable,
                    created,
                    m,
                ));
                m + 2
            }
        },
    }
}

/// Making sure of the pool directories comes to an end, whatever fails on the
/// way: every directory has its turn, and the log holds one line for each that
/// can neither be read nor created.
pub proof fn law_every_directory_has_its_turn(
    directories: Seq<Seq<char>>,
    readable: spec_fn(Seq<char>) -> bool,
    created: spec_fn(Seq<char>) -> Result<(), Seq<char>>,
)
    ensures
        exists|n: nat|
            {
                let end = #[trigger] ensure_steps(
                    EnsureAllState::start(directories),
                    readable,
                    created,
                    n,
                );
                end.action() is Finished && end.log == ensure_log(directories, readable, created)
            },
{
    let start = EnsureAllState::start(directories);
    let n = lemma_ensure_ends(start, readable, created);
    let all = (match start.current {
        Some(ensuring) => seq![ensuring.directory],
        None => Seq::empty(),
    }) + start.todo;
    assert(all =~= directories);
    assert(start.log + ensure_log(all, readable, created) =~= ensure_log(
        directories,
        readable,
        created,
    ));
    let end = ensure_steps(start, readable, created, n);
    assert(end.action() is Finished);
}

/// A name is accepted exactly if it is something followed by `.toml`, holds no
/// separator and does not begin with a dot.
pub proof fn law_file_name(name: Seq<char>)
    ensures
        is_file_name(name) <==> (exists|stem: Seq<char>| name == #[trigger] (stem + ".toml"@))
            && !name.contains('/') && name[0] != '.',
{
    reveal_strlit(".toml");
    crate::text_laws::law_suffix(name, ".toml"@);
}

/// What is written is what was submitted: a save that is not refused asks for
/// one write, of exactly the text that was validated, to the trimmed name in
/// the directory, however the directory came to be there.
pub proof fn law_written_text_is_the_submitted_one(
    directory: Seq<char>,
    name: Seq<char>,
    toml: Seq<char>,
    config: ConfigOutcome,
    readable: bool,
    wrote: Result<(), Seq<char>>,
)
    requires
        SaveState::start(directory, name, toml, config) is Ok,
    ensures
        ({
            let start = SaveState::start(directory, name, toml, config)->Ok_0;
            let ensured = if readable {
                start.probed(true)
            } else {
                start.probed(false).created(Ok(()))
            };
            let path = directory + "/"@ + text::trimmed(name);
            &&& start.toml == toml
            &&& ensured.action() == (SaveActionView::Write { path, toml })
            &&& start.action() == SaveActionView::ReadDirectory(directory)
            &&& !readable ==> start.probed(false).action() == SaveActionView::CreateDirectory(
                directory,
            )
            &&& wrote is Ok ==> ensured.wrote(wrote).action() == SaveActionView::Finished(Ok(path))
            &&& wrote is Err ==> ensured.wrote(wrote).action() == SaveActionView::Finished(
                Err(SaveErrorView::Unwritable(wrote->Err_0)),
            )
        }),
{
}

/// What is said about a save that failed names the name that was refused, or
/// ends in the error.
pub proof fn law_save_messages(found: Seq<char>)
    ensures
        SaveErrorView::InvalidName(found).message() == "`"@ + found
            + "` is not a file name (a plain name ending in .toml is required)"@,
        SaveErrorView::InvalidToml(found).message() == "not a guest config: "@ + found,
        SaveErrorView::Unwritable(found).message() == "cannot be written: "@ + found,
{
}

/// The log of making sure of directories has a line for each that can neither
/// be read nor created, with its error, and for no other; none of them is a
/// warning.
pub proof fn law_ensure_log(
    directories: Seq<Seq<char>>,
    readable: spec_fn(Seq<char>) -> bool,
    created: spec_fn(Seq<char>) -> Result<(), Seq<char>>,
    i: int,
)
    ensures
        ({
            let log = ensure_log(directories, readable, created);
            &&& 0 <= i < directories.len() && !readable(directories[i]) && created(
                directories[i],
            ) is Err ==> log.contains(uncreated(directories[i], created(directories[i])->Err_0))
            &&& forall|k: int|
                0 <= k < log.len() ==> exists|j: int|
                    0 <= j < directories.len() && !readable(#[trigger] directories[j]) && created(
                        directories[j],
                    ) is Err && #[trigger] log[k] == uncreated(
                        directories[j],
                        created(directories[j])->Err_0,
                    )
            &&& log.len() <= directories.len()
        }),
        forall|directory: Seq<char>, error: Seq<char>|
            (#[trigger] uncreated(directory, error)).level == Level::Info && uncreated(
                directory,
                error,
            ).text == "VM pool: cannot create `"@ + directory + "`: "@ + error,
    decreases directories.len(),
{
    if directories.len() > 0 {
        let rest = directories.drop_first();
        let log = ensure_log(directories, readable, created);
        let tail = ensure_log(rest, readable, created);
        let first = directories[0];
        let n: int = if !readable(first) && created(first) is Err {
            1
        } else {
            0
        };
        law_ensure_log(rest, readable, created, i - 1);
        assert(log.skip(n) =~= tail);
        if 0 <= i < directories.len() && !readable(directories[i]) && created(
            directories[i],
        ) is Err {
            let line = uncreated(directories[i], created(directories[i])->Err_0);
            if i == 0 {
                assert(log[0] == line);
            } else {
                assert(rest[i - 1] == directories[i]);
                let k = choose|k: int| 0 <= k < tail.len() && tail[k] == line;
                assert(log[n + k] == line);
            }
        }
        assert forall|k: int| 0 <= k < log.len() implies exists|j: int|
            0 <= j < directories.len() && !readable(#[trigger] directories[j]) && created(
                directories[j],
            ) is Err && #[trigger] log[k] == uncreated(
                directories[j],
                created(directories[j])->Err_0,
            ) by {
            if k < n {
                assert(log[k] == uncreated(directories[0], created(directories[0])->Err_0));
            } else {
                assert(log[k] == tail[k - n]);
                let j = choose|j: int|
                    0 <= j < rest.len() && !readable(#[trigger] rest[j]) && created(
                        rest[j],
                    ) is Err && tail[k - n] == uncreated(rest[j], created(rest[j])->Err_0);
                assert(directories[j + 1] == rest[j]);
            }
        }
    }
}

/// Directories are made sure of one after the other, beginning with the first,
/// and a directory is created only after it turned out that it cannot be read.
pub proof fn law_readable_is_not_created(
    directories: Seq<Seq<char>>,
    state: EnsureAllState,
    result: Result<(), Seq<char>>,
)
    requires
        state.wf(),
        state.current is Some,
    ensures
        directories.len() > 0 ==> EnsureAllState::start(directories).action()
            == EnsureAllActionView::ReadDirectory(directories[0]),
        directories.len() == 0 ==> EnsureAllState::start(directories).action() is Finished,
        !(state.probed(true).action() is CreateDirectory),
        state.probed(false).action() == EnsureAllActionView::CreateDirectory(
            state.current->0.directory,
        ),
        !(state.created(result).action() is CreateDirectory),
        state.todo.len() > 0 ==> state.probed(true).action() == EnsureAllActionView::ReadDirectory(
            state.todo[0],
        ) && state.created(result).action() == EnsureAllActionView::ReadDirectory(state.todo[0]),
{
}

/// The views of what is asked of the filesystem, and of errors, keep every part
/// of them.
pub proof fn law_views(path: String, toml: String, error: SaveError, result: Result<(), String>)
    ensures
        EnsureAction::ReadDirectory(path)@ == EnsureActionView::ReadDirectory(path@),
        EnsureAction::CreateDirectory(path)@ == EnsureActionView::CreateDirectory(path@),
        EnsureAction::Finished(result)@ == EnsureActionView::Finished(text::answer(result)),
        EnsureAllAction::ReadDirectory(path)@ == EnsureAllActionView::ReadDirectory(path@),
        EnsureAllAction::CreateDirectory(path)@ == EnsureAllActionView::CreateDirectory(path@),
        EnsureAllAction::Finished@ == EnsureAllActionView::Finished,
        SaveAction::ReadDirectory(path)@ == SaveActionView::ReadDirectory(path@),
        SaveAction::CreateDirectory(path)@ == SaveActionView::CreateDirectory(path@),
        (SaveAction::Write { path, toml })@ == (SaveActionView::Write {
            path: path@,
            toml: toml@,
        }),
        SaveAction::Finished(Ok(path))@ == SaveActionView::Finished(Ok(path@)),
        SaveAction::Finished(Err(error))@ == SaveActionView::Finished(Err(error@)),
        SaveError::InvalidName(path)@ == SaveErrorView::InvalidName(path@),
        SaveError::InvalidToml(path)@ == SaveErrorView::InvalidToml(path@),
        SaveError::Unwritable(path)@ == SaveErrorView::Unwritable(path@),
{
}

}
