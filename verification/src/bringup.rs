//! Bringing up the default VM set.
//!
//! The guest configs are loaded and the VMs initialized; then, where a guest
//! takes over the device of the host filesystem, that filesystem is shut down
//! and the device prepared for its new owner.

use crate::report::{Level, LogLine, LogLineView};
use crate::text;
use vstd::prelude::*;

verus! {

/// How far a bring-up has come.
#[derive(Debug, Clone, Copy, PartialEq, Eq, Structural)]
pub enum BringupStage {
    /// The guest configs are to be loaded.
    LoadingConfigs,
    /// The VMs are to be initialized.
    InitializingVms,
    /// It is not known yet whether the host filesystem has to be released.
    Asking,
    /// The host filesystems are to be shut down.
    ShuttingDown,
    /// The block device is to be prepared.
    Preparing,
    /// The release is to be reported.
    Reporting,
    /// There is nothing left to do.
    Done,
}

/// What a bring-up needs next.
#[derive(Debug, Clone, PartialEq, Eq)]
pub enum BringupAction {
    /// Load the guest configs.
    InitGuestVms,
    /// Initialize the VMs in the runtime.
    InitVms,
    /// Find out whether a guest needs the device of the host filesystem.
    AskRelease,
    /// Unmount the host filesystems.
    ShutdownFilesystems,
    /// Prepare the block device for its new owner.
    PrepareBlockPassthroughDevice,
    /// Report what was done.
    Log(LogLine),
    /// Nothing: the default VM set is up.
    Finished,
    /// To give up with this message. It is fatal to the hypervisor.
    Panic(String),
}

/// The view of a [`BringupAction`].
pub enum BringupActionView {
    /// Load the guest configs.
    InitGuestVms,
    /// Initialize the VMs in the runtime.
    InitVms,
    /// Find out whether a guest needs the device of the host filesystem.
    AskRelease,
    /// Unmount the host filesystems.
    ShutdownFilesystems,
    /// Prepare the block device for its new owner.
    PrepareBlockPassthroughDevice,
    /// Report what was done.
    Log(LogLineView),
    /// Nothing: the default VM set is up.
    Finished,
    /// To give up with this message.
    Panic(Seq<char>),
}

impl View for BringupAction {
    type V = BringupActionView;

    open spec fn view(&self) -> BringupActionView {
        match self {
            BringupAction::InitGuestVms => BringupActionView::InitGuestVms,
            BringupAction::InitVms => BringupActionView::InitVms,
            BringupAction::AskRelease => BringupActionView::AskRelease,
            BringupAction::ShutdownFilesystems => BringupActionView::ShutdownFilesystems,
            BringupAction::PrepareBlockPassthroughDevice => {
                BringupActionView::PrepareBlockPassthroughDevice
            },
            BringupAction::Log(line) => BringupActionView::Log(line@),
            BringupAction::Finished => BringupActionView::Finished,
            BringupAction::Panic(message) => BringupActionView::Panic(message@),
        }
    }
}

/// A default VM set being brought up.
#[derive(Debug)]
pub struct Bringup {
    capable: bool,
    stage: BringupStage,
    fatal: Option<String>,
}

/// The view of a [`Bringup`].
#[verifier::ext_equal]
pub struct BringupState {
    /// Whether the build has a host filesystem that it can release.
    pub capable: bool,
    /// How far it has come.
    pub stage: BringupStage,
    /// Why it was given up, where it was.
    pub fatal: Option<Seq<char>>,
}

impl View for Bringup {
    type V = BringupState;

    closed spec fn view(&self) -> BringupState {
        BringupState {
            capable: self.capable,
            stage: self.stage,
            fatal: text::optional(self.fatal),
        }
    }
}

/// The report of a release.
pub open spec fn release_line() -> LogLineView {
    LogLineView {
        level: Level::Info,
        text: "Host filesystem cleanly unmounted before guest passthrough devices start"@,
    }
}

/// The message that a bring-up is given up with, where shutting the host
/// filesystems down failed with `error`.
pub open spec fn release_failure(error: Seq<char>) -> Seq<char> {
    "Failed to release host filesystem before guest passthrough devices take ownership"@ + ": "@
        + error
}

impl BringupState {
    /// The state at the beginning.
    pub open spec fn start(capable: bool) -> BringupState {
        BringupState { capable, stage: BringupStage::LoadingConfigs, fatal: None }
    }

    /// What is needed next.
    pub open spec fn action(self) -> BringupActionView {
        match self.stage {
            BringupStage::LoadingConfigs => BringupActionView::InitGuestVms,
            BringupStage::InitializingVms => BringupActionView::InitVms,
            BringupStage::Asking => BringupActionView::AskRelease,
            BringupStage::ShuttingDown => BringupActionView::ShutdownFilesystems,
            BringupStage::Preparing => BringupActionView::PrepareBlockPassthroughDevice,
            BringupStage::Reporting => BringupActionView::Log(release_line()),
            BringupStage::Done => match self.fatal {
                None => BringupActionView::Finished,
                Some(message) => BringupActionView::Panic(message),
            },
        }
    }

    /// The state after loading the guest configs.
    pub open spec fn loaded(self) -> BringupState {
        BringupState { stage: BringupStage::InitializingVms, ..self }
    }

    /// The state after initializing the VMs. A build without a filesystem to
    /// release has nothing left to do.
    pub open spec fn initialized(self) -> BringupState {
        BringupState {
            stage: if self.capable {
                BringupStage::Asking
            } else {
                BringupStage::Done
            },
            ..self
        }
    }

    /// The state after learning whether the host filesystem has to be released.
    pub open spec fn asked(self, required: bool) -> BringupState {
        BringupState {
            stage: if required {
                BringupStage::ShuttingDown
            } else {
                BringupStage::Done
            },
            ..self
        }
    }

    /// The state after trying to shut the host filesystems down.
    pub open spec fn shut_down(self, result: Result<(), Seq<char>>) -> BringupState {
        match result {
            Ok(_) => BringupState { stage: BringupStage::Preparing, ..self },
            Err(error) => BringupState {
                stage: BringupStage::Done,
                fatal: Some(release_failure(error)),
                ..self
            },
        }
    }

    /// The state after preparing the block device.
    pub open spec fn prepared(self) -> BringupState {
        BringupState { stage: BringupStage::Reporting, ..self }
    }

    /// The state after reporting the release.
    pub open spec fn reported(self) -> BringupState {
        BringupState { stage: BringupStage::Done, ..self }
    }
}

impl Bringup {
    /// Starts bringing up the default VM set. `capable` says whether the build
    /// has a host filesystem that it can release.
    pub(crate) fn start(capable: bool) -> (r: Bringup)
        ensures
            r@ == BringupState::start(capable),
    {
        Bringup { capable, stage: BringupStage::LoadingConfigs, fatal: None }
    }

    /// What is needed next.
    pub fn action(&self) -> (r: BringupAction)
        ensures
            r@ == self@.action(),
    {
        match self.stage {
            BringupStage::LoadingConfigs => BringupAction::InitGuestVms,
            BringupStage::InitializingVms => BringupAction::InitVms,
            BringupStage::Asking => BringupAction::AskRelease,
            BringupStage::ShuttingDown => BringupAction::ShutdownFilesystems,
            BringupStage::Preparing => BringupAction::PrepareBlockPassthroughDevice,
            BringupStage::Reporting => BringupAction::Log(
                LogLine {
                    level: Level::Info,
                    text:
                        "Host filesystem cleanly unmounted before guest passthrough devices start".to_string(),
                },
            ),
            BringupStage::Done => match &self.fatal {
                None => BringupAction::Finished,
                Some(message) => BringupAction::Panic(message.clone()),
            },
        }
    }

    /// Hands over that the guest configs are loaded.
    pub fn loaded(&mut self)
        requires
            old(self)@.action() is InitGuestVms,
        ensures
            final(self)@ == old(self)@.loaded(),
    {
        self.stage = BringupStage::InitializingVms;
    }

    /// Hands over that the VMs are initialized.
    pub fn initialized(&mut self)
        requires
            old(self)@.action() is InitVms,
        ensures
            final(self)@ == old(self)@.initialized(),
    {
        self.stage = if self.capable {
            BringupStage::Asking
        } else {
            BringupStage::Done
        };
    }

    /// Hands over whether a guest needs the device of the host filesystem. If
    /// not, the filesystem stays mounted.
    pub fn release_host_filesystem_for_guest_passthrough(&mut self, required: bool)
        requires
            old(self)@.action() is AskRelease,
        ensures
            final(self)@ == old(self)@.asked(required),
    {
        self.stage = if required {
            BringupStage::ShuttingDown
        } else {
            BringupStage::Done
        };
    }

    /// Hands over what came of shutting the host filesystems down, an error as
    /// it is written for debugging.
    pub fn shut_down(&mut self, result: Result<(), String>)
        requires
            old(self)@.action() is ShutdownFilesystems,
        ensures
            final(self)@ == old(self)@.shut_down(text::answer(result)),
    {
        match result {
            Ok(_) => {
                self.stage = BringupStage::Preparing;
            },
            Err(error) => {
                self.stage = BringupStage::Done;
                let doing: &str =
                    "Failed to release host filesystem before guest passthrough devices take ownership";
                self.fatal = Some(doing.to_string().concat(": ").concat(error.as_str()));
            },
        }
    }

    /// Hands over that the block device is prepared.
    pub fn prepared(&mut self)
        requires
            old(self)@.action() is PrepareBlockPassthroughDevice,
        ensures
            final(self)@ == old(self)@.prepared(),
    {
        self.stage = BringupStage::Reporting;
    }

    /// Hands over that the release is reported.
    pub fn reported(&mut self)
        requires
            old(self)@.action() is Log,
        ensures
            final(self)@ == old(self)@.reported(),
    {
        self.stage = BringupStage::Done;
    }
}

/// Something that a bring-up is told.
pub enum BringupEvent {
    /// The guest configs are loaded.
    Loaded,
    /// The VMs are initialized.
    Initialized,
    /// Whether the host filesystem has to be released.
    Asked(bool),
    /// What came of shutting the host filesystems down.
    ShutDown(Result<(), Seq<char>>),
    /// The block device is prepared.
    Prepared,
    /// The release is reported.
    Reported,
}

/// Whether `event` is that the host filesystems were shut down.
pub open spec fn is_clean_shutdown(event: BringupEvent) -> bool {
    event is ShutDown && event->ShutDown_0 is Ok
}

/// Whether `event` is the answer to `action`.
pub open spec fn answers(action: BringupActionView, event: BringupEvent) -> bool {
    match event {
        BringupEvent::Loaded => action is InitGuestVms,
        BringupEvent::Initialized => action is InitVms,
        BringupEvent::Asked(_) => action is AskRelease,
        BringupEvent::ShutDown(_) => action is ShutdownFilesystems,
        BringupEvent::Prepared => action is PrepareBlockPassthroughDevice,
        BringupEvent::Reported => action is Log,
    }
}

/// The state after `event`.
pub open spec fn bringup_after(state: BringupState, event: BringupEvent) -> BringupState {
    match event {
        BringupEvent::Loaded => state.loaded(),
        BringupEvent::Initialized => state.initialized(),
        BringupEvent::Asked(required) => state.asked(required),
        BringupEvent::ShutDown(result) => state.shut_down(result),
        BringupEvent::Prepared => state.prepared(),
        BringupEvent::Reported => state.reported(),
    }
}

/// The state after `events`, in order.
pub open spec fn bringup_run(state: BringupState, events: Seq<BringupEvent>) -> BringupState
    decreases events.len(),
{
    if events.len() == 0 {
        state
    } else {
        bringup_after(bringup_run(state, events.drop_last()), events.last())
    }
}

/// Whether each of `events` answers what the bring-up asked for just before.
pub open spec fn is_course(state: BringupState, events: Seq<BringupEvent>) -> bool
    decreases events.len(),
{
    events.len() > 0 ==> is_course(state, events.drop_last()) && answers(
        bringup_run(state, events.drop_last()).action(),
        events.last(),
    )
}

/// What was carried out in the course of `events`, in order.
pub open spec fn bringup_work(state: BringupState, events: Seq<BringupEvent>) -> Seq<
    BringupActionView,
>
    decreases events.len(),
{
    if events.len() == 0 {
        Seq::empty()
    } else {
        let init = events.drop_last();
        bringup_work(state, init).push(bringup_run(state, init).action())
    }
}

/// All that a bring-up can have to do, in order.
pub open spec fn whole_bringup() -> Seq<BringupActionView> {
    seq![
        BringupActionView::InitGuestVms,
        BringupActionView::InitVms,
        BringupActionView::AskRelease,
        BringupActionView::ShutdownFilesystems,
        BringupActionView::PrepareBlockPassthroughDevice,
        BringupActionView::Log(release_line()),
    ]
}

/// Where a bring-up stands after a course of `events`.
spec fn stands(capable: bool, events: Seq<BringupEvent>, state: BringupState) -> bool {
    &&& state.capable == capable
    &&& events.len() <= 6
    &&& events.len() > 2 ==> capable && events[2] is Asked
    &&& events.len() > 3 ==> events[2] == BringupEvent::Asked(true) && events[3] is ShutDown
    &&& events.len() > 4 ==> is_clean_shutdown(events[3])
    &&& state.fatal == (if events.len() == 4 && events[3]->ShutDown_0 is Err {
        Some(release_failure(events[3]->ShutDown_0->Err_0))
    } else {
        None
    })
    &&& state.stage == (if events.len() == 0 {
        BringupStage::LoadingConfigs
    } else if events.len() == 1 {
        BringupStage::InitializingVms
    } else if events.len() == 2 && capable {
        BringupStage::Asking
    } else if events.len() == 3 && events[2] == BringupEvent::Asked(true) {
        BringupStage::ShuttingDown
    } else if events.len() == 4 && is_clean_shutdown(events[3]) {
        BringupStage::Preparing
    } else if events.len() == 5 {
        BringupStage::Reporting
    } else {
        BringupStage::Done
    })
}

proof fn lemma_course(capable: bool, events: Seq<BringupEvent>)
    requires
        is_course(BringupState::start(capable), events),
    ensures
        stands(capable, events, bringup_run(BringupState::start(capable), events)),
        bringup_work(BringupState::start(capable), events) == whole_bringup().take(
            events.len() as int,
        ),
    decreases events.len(),
{
    let start = BringupState::start(capable);
    if events.len() > 0 {
        let init = events.drop_last();
        lemma_course(capable, init);
        let before = bringup_run(start, init);
        assert(answers(before.action(), events.last()));
        assert(init.len() < 6);
        assert(init.len() > 2 ==> init[2] == events[2]);
        assert(init.len() > 3 ==> init[3] == events[3]);
        assert(before.action() == whole_bringup()[init.len() as int]);
        assert(whole_bringup().take(init.len() as int).push(before.action())
            =~= whole_bringup().take(events.len() as int));
    } else {
        assert(whole_bringup().take(0) =~= Seq::empty());
    }
}

/// The work of a bring-up is done in one order, with nothing left out on the
/// way: the host filesystems are shut down only in a build that can release
/// them, only if a guest requires it, and only after the configs were loaded
/// and the VMs initialized; the block device is prepared only after that
/// shutdown succeeded.
pub proof fn law_device_is_prepared_only_after_shutdown(capable: bool, events: Seq<BringupEvent>)
    requires
        is_course(BringupState::start(capable), events),
    ensures
        ({
            let action = bringup_run(BringupState::start(capable), events).action();
            let work = bringup_work(BringupState::start(capable), events);
            &&& work == whole_bringup().take(events.len() as int)
            &&& action is ShutdownFilesystems <==> capable && events.len() == 3 && events[2]
                == BringupEvent::Asked(true)
            &&& work.contains(BringupActionView::ShutdownFilesystems) ==> capable && events[2]
                == BringupEvent::Asked(true)
            &&& action is PrepareBlockPassthroughDevice <==> events.len() == 4
                && is_clean_shutdown(events[3])
            &&& work.contains(BringupActionView::PrepareBlockPassthroughDevice)
                ==> is_clean_shutdown(events[3])
        }),
{
    lemma_course(capable, events);
    let work = bringup_work(BringupState::start(capable), events);
    if work.contains(BringupActionView::ShutdownFilesystems) {
        let i = choose|i: int|
            0 <= i < work.len() && work[i] == BringupActionView::ShutdownFilesystems;
        assert(whole_bringup()[i] == BringupActionView::ShutdownFilesystems);
        assert(i == 3);
    }
    if work.contains(BringupActionView::PrepareBlockPassthroughDevice) {
        let i = choose|i: int|
            0 <= i < work.len() && work[i] == BringupActionView::PrepareBlockPassthroughDevice;
        assert(whole_bringup()[i] == BringupActionView::PrepareBlockPassthroughDevice);
        assert(i == 4);
    }
}

/// A bring-up is given up exactly if shutting the host filesystems down failed,
/// with a message that ends in the error. That is its end: it asks for nothing
/// more, and the block device was not touched.
pub proof fn law_failed_shutdown_ends_the_bringup(capable: bool, events: Seq<BringupEvent>)
    requires
        is_course(BringupState::start(capable), events),
    ensures
        ({
            let action = bringup_run(BringupState::start(capable), events).action();
            let work = bringup_work(BringupState::start(capable), events);
            &&& action is Panic <==> events.len() > 3 && !is_clean_shutdown(events[3])
            &&& action is Panic ==> {
                &&& events[3] is ShutDown
                &&& events[3]->ShutDown_0 is Err
                &&& action == BringupActionView::Panic(
                    release_failure(events[3]->ShutDown_0->Err_0),
                )
                &&& events.len() == 4
                &&& !work.contains(BringupActionView::PrepareBlockPassthroughDevice)
                &&& forall|event: BringupEvent| !#[trigger] answers(action, event)
            }
        }),
{
    lemma_course(capable, events);
    law_device_is_prepared_only_after_shutdown(capable, events);
}

/// A bring-up comes to its end without giving up in three ways: in a build that
/// cannot release the host filesystem, and where no guest requires it, the
/// filesystem stays mounted; else the whole work was done.
pub proof fn law_bringup_finishes(capable: bool, events: Seq<BringupEvent>)
    requires
        is_course(BringupState::start(capable), events),
    ensures
        bringup_run(BringupState::start(capable), events).action() is Finished <==> {
            ||| !capable && events.len() == 2
            ||| events.len() == 3 && events[2] == BringupEvent::Asked(false)
            ||| events.len() == 6
        },
{
    lemma_course(capable, events);
}

/// The message that a bring-up is given up with says what failed and ends in
/// the error; a release is reported as a normal state.
pub proof fn law_release_messages(error: Seq<char>)
    ensures
        release_failure(error) == release_failure(Seq::empty()) + error,
        release_failure(Seq::empty())
            == "Failed to release host filesystem before guest passthrough devices take ownership"@
            + ": "@,
        release_line().level == Level::Info,
        release_line().text
            == "Host filesystem cleanly unmounted before guest passthrough devices start"@,
{
    assert(release_failure(Seq::empty()) + error =~= release_failure(error));
    assert(release_failure(Seq::empty())
        =~= "Failed to release host filesystem before guest passthrough devices take ownership"@
        + ": "@);
}

/// The views of what a bring-up asks for keep every part of them.
pub proof fn law_views(line: LogLine, message: String)
    ensures
        BringupAction::Log(line)@ == BringupActionView::Log(line@),
        BringupAction::Panic(message)@ == BringupActionView::Panic(message@),
        BringupAction::Finished@ == BringupActionView::Finished,
        BringupAction::ShutdownFilesystems@ == BringupActionView::ShutdownFilesystems,
        BringupAction::PrepareBlockPassthroughDevice@
            == BringupActionView::PrepareBlockPassthroughDevice,
        BringupAction::AskRelease@ == BringupActionView::AskRelease,
        BringupAction::InitVms@ == BringupActionView::InitVms,
        BringupAction::InitGuestVms@ == BringupActionView::InitGuestVms,
{
}

}
