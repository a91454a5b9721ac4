//! Top-level AxVM orchestration.
//!
//! The runtime itself does the work; what stands here is the policy around it:
//! which step comes next, and what an error is reported with.

use crate::bringup::{Bringup, BringupState};
use crate::report::{self, Failure, FailureView, LogLine, LogLineView};
use crate::text;
use crate::vm_pool::{self, log_issues, Pool, PoolView};
use vstd::prelude::*;

verus! {

/// AxVM top-level manager.
///
/// It owns the policy for loading default VM configs, starting and stopping
/// VMs, and serving shell commands. The runtime `R` only supplies the
/// primitives.
pub struct AxvmManager<R> {
    runtime: R,
}

/// The result `result`, with its error met while doing `context`.
pub open spec fn within<T>(result: Result<T, FailureView>, context: Seq<char>) -> Result<
    T,
    FailureView,
> {
    match result {
        Ok(value) => Ok(value),
        Err(failure) => Err(failure.within(context)),
    }
}

/// The view of a result that holds a plain value.
pub open spec fn plain<T>(result: Result<T, Failure>) -> Result<T, FailureView> {
    match result {
        Ok(value) => Ok(value),
        Err(failure) => Err(failure@),
    }
}

/// `operation VM[vm_id]`.
pub open spec fn vm_context(operation: Seq<char>, vm_id: usize) -> Seq<char> {
    operation + " VM["@ + text::decimal(vm_id as nat) + "]"@
}

/// Adds what was being done to the error of an operation on a VM.
fn with_vm_context(operation: &str, vm_id: usize, result: Result<(), Failure>) -> (r: Result<
    (),
    Failure,
>)
    ensures
        plain(r) == within(plain(result), vm_context(operation@, vm_id)),
{
    match result {
        Ok(_) => Ok(()),
        Err(failure) => {
            let id: String = text::number(vm_id as u64);
            Err(
                failure.context(
                    operation.to_string().concat(" VM[").concat(id.as_str()).concat("]"),
                ),
            )
        },
    }
}

impl<R> AxvmManager<R> {
    /// The runtime.
    pub closed spec fn runtime_view(&self) -> R {
        self.runtime
    }

    /// A manager over the initialized AxVM runtime services.
    pub fn new(runtime: Result<R, Failure>) -> (r: Result<AxvmManager<R>, Failure>)
        ensures
            match runtime {
                Ok(runtime) => r is Ok && r->Ok_0.runtime_view() == runtime,
                Err(failure) => r is Err && r->Err_0@ == failure@.within(
                    "initialize AxVM runtime"@,
                ),
            },
    {
        match runtime {
            Ok(runtime) => Ok(AxvmManager { runtime }),
            Err(failure) => Err(failure.context("initialize AxVM runtime".to_string())),
        }
    }

    /// The runtime.
    pub fn runtime(&self) -> (r: &R)
        ensures
            *r == self.runtime_view(),
    {
        &self.runtime
    }

    /// Starts loading and initializing the default VM set. `capable` says
    /// whether the build has a host filesystem that it can release to a guest.
    pub fn init_default_vms(&self, capable: bool) -> (r: Bringup)
        ensures
            r@ == BringupState::start(capable),
    {
        Bringup::start(capable)
    }

    /// What creating one VM from a TOML config string comes to, given what the
    /// runtime made of it.
    pub fn create_vm_from_toml(created: Result<usize, Failure>) -> (r: Result<usize, Failure>)
        ensures
            plain(r) == within(plain(created), "create VM from TOML configuration"@),
    {
        match created {
            Ok(vm_id) => Ok(vm_id),
            Err(failure) => Err(failure.context("create VM from TOML configuration".to_string())),
        }
    }

    /// What starting a VM comes to, given what the runtime made of it.
    pub fn start_vm(vm_id: usize, result: Result<(), Failure>) -> (r: Result<(), Failure>)
        ensures
            plain(r) == within(plain(result), vm_context("start"@, vm_id)),
    {
        with_vm_context("start", vm_id, result)
    }

    /// What stopping a VM comes to, given what the runtime made of it.
    pub fn stop_vm(vm_id: usize, result: Result<(), Failure>) -> (r: Result<(), Failure>)
        ensures
            plain(r) == within(plain(result), vm_context("stop"@, vm_id)),
    {
        with_vm_context("stop", vm_id, result)
    }

    /// What pausing a VM comes to, given what the runtime made of it.
    pub fn pause_vm(vm_id: usize, result: Result<(), Failure>) -> (r: Result<(), Failure>)
        ensures
            plain(r) == within(plain(result), vm_context("pause"@, vm_id)),
    {
        with_vm_context("pause", vm_id, result)
    }

    /// What resuming a VM comes to, given what the runtime made of it.
    pub fn resume_vm(vm_id: usize, result: Result<(), Failure>) -> (r: Result<(), Failure>)
        ensures
            plain(r) == within(plain(result), vm_context("resume"@, vm_id)),
    {
        with_vm_context("resume", vm_id, result)
    }

    /// What resetting a VM comes to, given what the runtime made of it.
    pub fn reset_vm(vm_id: usize, result: Result<(), Failure>) -> (r: Result<(), Failure>)
        ensures
            plain(r) == within(plain(result), vm_context("reset"@, vm_id)),
    {
        with_vm_context("reset", vm_id, result)
    }

    /// What waking the primary vCPU of a VM comes to, given what the runtime
    /// made of it.
    pub fn notify_vm(vm_id: usize, result: Result<(), Failure>) -> (r: Result<(), Failure>)
        ensures
            plain(r) == within(plain(result), vm_context("notify"@, vm_id)),
    {
        with_vm_context("notify", vm_id, result)
    }

    /// Starts making sure that `vm_id` is registered, creating it from the VM
    /// pool if needed.
    ///
    /// A start request names a VM, not a config file: when the id has no
    /// registered VM yet, the pool entry claiming that id is created now. The
    /// pool is read anew, so a config repaired on the host takes effect on the
    /// next start request.
    pub fn ensure_registered(vm_id: usize) -> (r: Registration)
        ensures
            r@ == RegistrationState::start(vm_id),
    {
        let r = Registration {
            vm_id,
            stage: RegistrationStage::LookingUp,
            path: String::new(),
            toml: String::new(),
            log: Vec::new(),
            outcome: Ok(false),
        };
        proof {
            reveal_strlit("");
            assert(r@ =~= RegistrationState::start(vm_id));
        }
        r
    }

    /// What opening a guest image file comes to.
    pub fn open_file(file_name: &str, opened: Result<(), String>) -> (r: Result<(), Failure>)
        ensures
            plain(r) == opening(file_name@, text_error(opened)),
    {
        match opened {
            Ok(_) => Ok(()),
            Err(error) => Err(
                Failure::new(
                    "open guest image file `".to_string().concat(file_name).concat("`: ").concat(
                        error.as_str(),
                    ),
                ),
            ),
        }
    }

    /// What asking for the size of a guest image file comes to, given what came
    /// of opening it and of reading its metadata.
    pub fn file_size(
        file_name: &str,
        opened: Result<(), String>,
        metadata: Result<u64, String>,
    ) -> (r: Result<usize, Failure>)
        ensures
            plain(r) == sizing(file_name@, text_error(opened), text_error(metadata)),
            opened is Ok && metadata is Ok && metadata->Ok_0 <= usize::MAX ==> r is Ok
                && r->Ok_0 as int == metadata->Ok_0 as int,
    {
        match Self::open_file(file_name, opened) {
            Err(failure) => Err(failure),
            Ok(_) => match metadata {
                Err(error) => Err(
                    Failure::new(
                        "read metadata for guest image file `".to_string().concat(
                            file_name,
                        ).concat("`: ").concat(error.as_str()),
                    ),
                ),
                Ok(size) => Ok(
                    #[verifier::truncate]
                    (size as usize),
                ),
            },
        }
    }

    /// What reading the first `read_size` bytes of a guest image file comes to,
    /// given what came of opening it and of reading them.
    pub fn read_file_exact(
        file_name: &str,
        read_size: usize,
        opened: Result<(), String>,
        content: Result<Vec<u8>, String>,
    ) -> (r: Result<Vec<u8>, Failure>)
        requires
            content is Ok ==> content->Ok_0@.len() == read_size,
        ensures
            r is Ok ==> r->Ok_0@.len() == read_size,
            plain(r) == reading(file_name@, read_size, text_error(opened), text_error(content)),
    {
        match Self::open_file(file_name, opened) {
            Err(failure) => Err(failure),
            Ok(_) => match content {
                Err(error) => {
                    let count: String = text::number(read_size as u64);
                    Err(
                        Failure::new(
                            "read ".to_string().concat(count.as_str()).concat(
                                " bytes from guest image file `",
                            ).concat(file_name).concat("`: ").concat(error.as_str()),
                        ),
                    )
                },
                Ok(bytes) => Ok(bytes),
            },
        }
    }

    /// What reading a whole guest image file comes to: its size is asked for
    /// first, and then as many bytes are read.
    pub fn read_file(
        file_name: &str,
        size: Result<usize, Failure>,
        opened: Result<(), String>,
        content: Result<Vec<u8>, String>,
    ) -> (r: Result<Vec<u8>, Failure>)
        requires
            size is Ok && content is Ok ==> content->Ok_0@.len() == size->Ok_0,
        ensures
            r is Ok ==> size is Ok && r->Ok_0@.len() == size->Ok_0,
            plain(r) == (match plain(size) {
                Err(failure) => Err(failure),
                Ok(size) => reading(file_name@, size, text_error(opened), text_error(content)),
            }),
    {
        match size {
            Err(failure) => Err(failure),
            Ok(size) => Self::read_file_exact(file_name, size, opened, content),
        }
    }
}

/// The view of a filesystem operation's answer that holds a plain value.
pub open spec fn text_error<T>(result: Result<T, String>) -> Result<T, Seq<char>> {
    match result {
        Ok(value) => Ok(value),
        Err(error) => Err(error@),
    }
}

/// What opening a guest image file comes to.
pub open spec fn opening(file_name: Seq<char>, opened: Result<(), Seq<char>>) -> Result<
    (),
    FailureView,
> {
    match opened {
        Ok(_) => Ok(()),
        Err(error) => Err(
            FailureView::plain("open guest image file `"@ + file_name + "`: "@ + error),
        ),
    }
}

/// What asking for the size of a guest image file comes to.
pub open spec fn sizing(
    file_name: Seq<char>,
    opened: Result<(), Seq<char>>,
    metadata: Result<u64, Seq<char>>,
) -> Result<usize, FailureView> {
    match opening(file_name, opened) {
        Err(failure) => Err(failure),
        Ok(_) => match metadata {
            Err(error) => Err(
                FailureView::plain(
                    "read metadata for guest image file `"@ + file_name + "`: "@ + error,
                ),
            ),
            Ok(size) => Ok(size as usize),
        },
    }
}

/// What reading the first `read_size` bytes of a guest image file comes to.
pub open spec fn reading(
    file_name: Seq<char>,
    read_size: usize,
    opened: Result<(), Seq<char>>,
    content: Result<Vec<u8>, Seq<char>>,
) -> Result<Vec<u8>, FailureView> {
    match opening(file_name, opened) {
        Err(failure) => Err(failure),
        Ok(_) => match content {
            Err(error) => Err(
                FailureView::plain(
                    "read "@ + text::decimal(read_size as nat) + " bytes from guest image file `"@
                        + file_name + "`: "@ + error,
                ),
            ),
            Ok(bytes) => Ok(bytes),
        },
    }
}

/// How far a registration has come.
#[derive(Debug, Clone, Copy, PartialEq, Eq, Structural)]
pub enum RegistrationStage {
    /// The registry is to be asked.
    LookingUp,
    /// The pool is to be scanned.
    Scanning,
    /// The VM is to be created.
    Creating,
    /// There is nothing left to do.
    Done,
}

/// What a registration needs next.
#[derive(Debug, Clone, PartialEq, Eq)]
pub enum RegistrationAction {
    /// To know whether this VM is registered.
    LookUp(usize),
    /// A scan of the pool.
    Scan,
    /// A VM created from this config.
    Create(String),
    /// Nothing.
    Finished,
}

/// The view of a [`RegistrationAction`].
pub enum RegistrationActionView {
    /// To know whether this VM is registered.
    LookUp(usize),
    /// A scan of the pool.
    Scan,
    /// A VM created from this config.
    Create(Seq<char>),
    /// Nothing.
    Finished,
}

impl View for RegistrationAction {
    type V = RegistrationActionView;

    open spec fn view(&self) -> RegistrationActionView {
        match self {
            RegistrationAction::LookUp(vm_id) => RegistrationActionView::LookUp(*vm_id),
            RegistrationAction::Scan => RegistrationActionView::Scan,
            RegistrationAction::Create(toml) => RegistrationActionView::Create(toml@),
            RegistrationAction::Finished => RegistrationActionView::Finished,
        }
    }
}

/// A VM being registered.
#[derive(Debug)]
pub struct Registration {
    vm_id: usize,
    stage: RegistrationStage,
    path: String,
    toml: String,
    log: Vec<LogLine>,
    outcome: Result<bool, Failure>,
}

/// The view of a [`Registration`].
#[verifier::ext_equal]
pub struct RegistrationState {
    /// Id of the VM.
    pub vm_id: usize,
    /// How far it has come.
    pub stage: RegistrationStage,
    /// Path of the config to create it from.
    pub path: Seq<char>,
    /// The config to create it from.
    pub toml: Seq<char>,
    /// What is to be reported.
    pub log: Seq<LogLineView>,
    /// What it comes to, once there is nothing left to do: whether the VM is
    /// registered.
    pub outcome: Result<bool, FailureView>,
}

impl View for Registration {
    type V = RegistrationState;

    closed spec fn view(&self) -> RegistrationState {
        RegistrationState {
            vm_id: self.vm_id,
            stage: self.stage,
            path: self.path@,
            toml: self.toml@,
            log: report::lines(self.log@),
            outcome: plain(self.outcome),
        }
    }
}

/// `create VM[vm_id] from VM pool entry`, with the path of the entry.
pub open spec fn creation_context(vm_id: usize, path: Seq<char>) -> Seq<char> {
    vm_context("create"@, vm_id) + " from VM pool entry `"@ + path + "`"@
}

impl RegistrationState {
    /// The state at the beginning.
    pub open spec fn start(vm_id: usize) -> RegistrationState {
        RegistrationState {
            vm_id,
            stage: RegistrationStage::LookingUp,
            path: Seq::empty(),
            toml: Seq::empty(),
            log: Seq::empty(),
            outcome: Ok(false),
        }
    }

    /// What is needed next.
    pub open spec fn action(self) -> RegistrationActionView {
        match self.stage {
            RegistrationStage::LookingUp => RegistrationActionView::LookUp(self.vm_id),
            RegistrationStage::Scanning => RegistrationActionView::Scan,
            RegistrationStage::Creating => RegistrationActionView::Create(self.toml),
            RegistrationStage::Done => RegistrationActionView::Finished,
        }
    }

    /// The state after learning whether the VM is registered.
    pub open spec fn looked_up(self, registered: bool) -> RegistrationState {
        if registered {
            RegistrationState { stage: RegistrationStage::Done, outcome: Ok(true), ..self }
        } else {
            RegistrationState { stage: RegistrationStage::Scanning, ..self }
        }
    }

    /// The state after a scan of the pool. Where it has no usable config for
    /// the id, what is wrong with the pool is reported.
    pub open spec fn scanned(self, pool: PoolView) -> RegistrationState {
        match vm_pool::claim(pool.entries, self.vm_id) {
            Some(entry) => RegistrationState {
                stage: RegistrationStage::Creating,
                path: entry.path,
                toml: entry.toml,
                ..self
            },
            None => RegistrationState {
                stage: RegistrationStage::Done,
                log: vm_pool::issue_lines(pool.issues),
                outcome: Ok(false),
                ..self
            },
        }
    }

    /// The state after trying to create the VM.
    pub open spec fn created(self, result: Result<usize, FailureView>) -> RegistrationState {
        RegistrationState {
            stage: RegistrationStage::Done,
            outcome: match within(result, "create VM from TOML configuration"@) {
                Ok(_) => Ok(true),
                Err(failure) => Err(failure.within(creation_context(self.vm_id, self.path))),
            },
            ..self
        }
    }
}

impl Registration {
    /// What is needed next.
    pub fn action(&self) -> (r: RegistrationAction)
        ensures
            r@ == self@.action(),
    {
        match self.stage {
            RegistrationStage::LookingUp => RegistrationAction::LookUp(self.vm_id),
            RegistrationStage::Scanning => RegistrationAction::Scan,
            RegistrationStage::Creating => RegistrationAction::Create(self.toml.clone()),
            RegistrationStage::Done => RegistrationAction::Finished,
        }
    }

    /// Hands over whether the VM is registered.
    pub fn look_up(&mut self, registered: bool)
        requires
            old(self)@.action() is LookUp,
        ensures
            final(self)@ == old(self)@.looked_up(registered),
    {
        if registered {
            self.stage = RegistrationStage::Done;
            self.outcome = Ok(true);
        } else {
            self.stage = RegistrationStage::Scanning;
        }
        assert(self@ =~= old(self)@.looked_up(registered));
    }

    /// Hands over a scan of the pool.
    pub fn scan(&mut self, pool: &Pool)
        requires
            old(self)@.action() is Scan,
        ensures
            final(self)@ == old(self)@.scanned(pool@),
    {
        match pool.entry(self.vm_id) {
            Some(entry) => {
                self.stage = RegistrationStage::Creating;
                self.path = entry.path().to_string();
                self.toml = entry.toml().to_string();
            },
            None => {
                self.stage = RegistrationStage::Done;
                self.log = log_issues(pool);
                self.outcome = Ok(false);
            },
        }
        assert(self@ =~= old(self)@.scanned(pool@));
    }

    /// Hands over what came of creating the VM.
    pub fn create(&mut self, result: Result<usize, Failure>)
        requires
            old(self)@.action() is Create,
        ensures
            final(self)@ == old(self)@.created(plain(result)),
    {
        self.stage = RegistrationStage::Done;
        self.outcome = match AxvmManager::<()>::create_vm_from_toml(result) {
            Ok(_) => Ok(true),
            Err(failure) => {
                let id: String = text::number(self.vm_id as u64);
                Err(
                    failure.context(
                        "create".to_string().concat(" VM[").concat(id.as_str()).concat("]").concat(
                            " from VM pool entry `",
                        ).concat(self.path.as_str()).concat("`"),
                    ),
                )
            },
        };
        assert(self@ =~= old(self)@.created(plain(result)));
    }

    /// What is to be reported through the host log.
    pub fn log(&self) -> (r: &[LogLine])
        ensures
            report::lines(r@) == self@.log,
    {
        self.log.as_slice()
    }

    /// Whether the VM is registered, or the error met on the way. `false` means
    /// that neither the registry nor the pool knows the id.
    pub fn into_outcome(self) -> (r: Result<bool, Failure>)
        requires
            self@.action() is Finished,
        ensures
            plain(r) == self@.outcome,
    {
        self.outcome
    }
}

/// A registered VM is not created again: the pool is not even read.
pub proof fn law_registered_is_enough(vm_id: usize)
    ensures
        RegistrationState::start(vm_id).looked_up(true).action() is Finished,
        RegistrationState::start(vm_id).looked_up(true).outcome == Ok::<bool, FailureView>(true),
        RegistrationState::start(vm_id).looked_up(false).action() is Scan,
{
}

/// A VM that is not registered is created from the config that claims its id in
/// the pool as it is now, and from no other; it is unknown exactly if there is
/// none, and then every issue of the pool is reported.
pub proof fn law_created_from_the_claiming_entry(
    vm_id: usize,
    pool: PoolView,
    result: Result<usize, FailureView>,
)
    ensures
        ({
            let scanned = RegistrationState::start(vm_id).looked_up(false).scanned(pool);
            let entry = vm_pool::claim(pool.entries, vm_id);
            &&& entry is Some ==> scanned.action() == RegistrationActionView::Create(entry->0.toml)
                && entry->0.id == vm_id && scanned.path == entry->0.path && scanned.vm_id == vm_id
                && scanned.log.len() == 0
            &&& RegistrationState::start(vm_id).action() == RegistrationActionView::LookUp(vm_id)
            &&& entry is Some && result is Ok ==> scanned.created(result).outcome == Ok::<
                bool,
                FailureView,
            >(true)
            &&& entry is Some && result is Err ==> scanned.created(result).outcome is Err
                && scanned.created(result).outcome->Err_0.cause == result->Err_0.cause
            &&& entry is None <==> scanned.action() is Finished
            &&& entry is None ==> scanned.outcome == Ok::<bool, FailureView>(false) && scanned.log
                == vm_pool::issue_lines(pool.issues)
        }),
{
    lemma_claim_has_the_id(pool.entries, vm_id);
}

proof fn lemma_claim_has_the_id(entries: Seq<vm_pool::EntryView>, id: usize)
    ensures
        0 <= vm_pool::claim_position(entries, id),
        vm_pool::claim(entries, id) is Some ==> vm_pool::claim(entries, id)->0.id == id,
    decreases entries.len(),
{
    if entries.len() > 0 {
        lemma_claim_has_the_id(entries.drop_first(), id);
    }
}

/// What the runtime gives is passed on as it is; an error keeps its cause and
/// its contexts, after what was being done.
pub proof fn law_context_of_operation<T>(
    value: T,
    failure: FailureView,
    operation: Seq<char>,
    vm_id: usize,
)
    ensures
        within(Ok::<T, FailureView>(value), operation) == Ok::<T, FailureView>(value),
        within(Err::<T, FailureView>(failure), operation) is Err,
        within(Err::<T, FailureView>(failure), operation)->Err_0.cause == failure.cause,
        within(Err::<T, FailureView>(failure), operation)->Err_0.contexts == seq![operation]
            + failure.contexts,
        operation.is_prefix_of(vm_context(operation, vm_id)),
        vm_context(operation, vm_id).skip(operation.len() as int) == " VM["@ + text::decimal(
            vm_id as nat,
        ) + "]"@,
{
    assert(vm_context(operation, vm_id).skip(operation.len() as int) =~= " VM["@ + text::decimal(
        vm_id as nat,
    ) + "]"@);
}

/// The size of a guest image file is the one its metadata reports, no more and
/// no less; it is an error exactly if the file cannot be opened or its metadata
/// cannot be read.
pub proof fn law_file_size_is_exact(
    file_name: Seq<char>,
    opened: Result<(), Seq<char>>,
    metadata: Result<u64, Seq<char>>,
)
    requires
        metadata is Ok ==> metadata->Ok_0 <= usize::MAX,
    ensures
        sizing(file_name, opened, metadata) is Ok <==> opened is Ok && metadata is Ok,
        opened is Ok && metadata is Ok ==> sizing(file_name, opened, metadata)->Ok_0 as int
            == metadata->Ok_0 as int,
        opened is Ok && metadata is Err ==> sizing(file_name, opened, metadata)->Err_0.cause
            == "read metadata for guest image file `"@ + file_name + "`: "@ + metadata->Err_0,
        opened is Err ==> sizing(file_name, opened, metadata)->Err_0 == opening(
            file_name,
            opened,
        )->Err_0,
{
}

/// Opening a guest image file is an error exactly if the filesystem says so,
/// and then one that names the file and ends in what it said.
pub proof fn law_opening(file_name: Seq<char>, opened: Result<(), Seq<char>>)
    ensures
        opening(file_name, opened) is Ok <==> opened is Ok,
        opened is Err ==> opening(file_name, opened)->Err_0.contexts.len() == 0 && opening(
            file_name,
            opened,
        )->Err_0.cause == "open guest image file `"@ + file_name + "`: "@ + opened->Err_0,
{
}

/// Reading a guest image file gives the bytes that were read, as they are; it
/// is an error exactly if the file cannot be opened or read.
pub proof fn law_reading_is_exact(
    file_name: Seq<char>,
    read_size: usize,
    opened: Result<(), Seq<char>>,
    content: Result<Vec<u8>, Seq<char>>,
)
    ensures
        reading(file_name, read_size, opened, content) is Ok <==> opened is Ok && content is Ok,
        opened is Ok && content is Ok ==> reading(file_name, read_size, opened, content)->Ok_0@
            == content->Ok_0@,
        opened is Ok && content is Err ==> reading(
            file_name,
            read_size,
            opened,
            content,
        )->Err_0.cause == "read "@ + text::decimal(read_size as nat)
            + " bytes from guest image file `"@ + file_name + "`: "@ + content->Err_0,
        opened is Err ==> reading(file_name, read_size, opened, content)->Err_0 == opening(
            file_name,
            opened,
        )->Err_0,
{
}

/// A VM that cannot be created is an error that names the VM and the config it
/// was to be created from, in front of what the runtime said.
pub proof fn law_failed_creation(state: RegistrationState, failure: FailureView)
    ensures
        ({
            let outcome = state.created(Err(failure)).outcome;
            &&& outcome is Err
            &&& outcome->Err_0.cause == failure.cause
            &&& outcome->Err_0.contexts == seq![
                "create"@ + " VM["@ + text::decimal(state.vm_id as nat) + "]"@
                    + " from VM pool entry `"@ + state.path + "`"@,
                "create VM from TOML configuration"@,
            ] + failure.contexts
        }),
{
    let outcome = state.created(Err(failure)).outcome;
    assert(outcome->Err_0.contexts =~= seq![
        "create"@ + " VM["@ + text::decimal(state.vm_id as nat) + "]"@ + " from VM pool entry `"@
            + state.path + "`"@,
        "create VM from TOML configuration"@,
    ] + failure.contexts);
}

/// The views of results and of what a registration asks for keep every part of
/// them.
pub proof fn law_views<T>(value: T, failure: Failure, error: String, vm_id: usize)
    ensures
        plain(Ok::<T, Failure>(value)) == Ok::<T, FailureView>(value),
        plain(Err::<T, Failure>(failure)) == Err::<T, FailureView>(failure@),
        text_error(Ok::<T, String>(value)) == Ok::<T, Seq<char>>(value),
        text_error(Err::<T, String>(error)) == Err::<T, Seq<char>>(error@),
        RegistrationAction::LookUp(vm_id)@ == RegistrationActionView::LookUp(vm_id),
        RegistrationAction::Create(error)@ == RegistrationActionView::Create(error@),
        RegistrationAction::Scan@ == RegistrationActionView::Scan,
        RegistrationAction::Finished@ == RegistrationActionView::Finished,
{
}

}
