use vstd::prelude::*;

verus! {

/// How a file was opened or closed.
#[derive(Clone, Copy, Debug, PartialEq, Eq, Structural)]
pub enum AccessMode {
    Any,
    Execute,
    Read,
    Write,
    Other,
}

/// What kind of access to a file was seen.
#[derive(Clone, Copy, Debug, PartialEq, Eq, Structural)]
pub enum AccessKind {
    Any,
    Read,
    Open(AccessMode),
    Close(AccessMode),
    Other,
}

/// What the file observer saw, as far as the watcher tells events apart.
#[derive(Clone, Copy, Debug, PartialEq, Eq, Structural)]
pub enum FileEventKind {
    Any,
    Access(AccessKind),
    Create,
    Modify,
    Remove,
    Other,
}

impl FileEventKind {
    /// Whether the event says that a file opened for writing was closed:
    /// the one event after which the record holds a completed write.
    pub open spec fn spec_is_write_completed(&self) -> bool {
        *self == FileEventKind::Access(AccessKind::Close(AccessMode::Write))
    }

    #[verifier::when_used_as_spec(spec_is_write_completed)]
    pub fn is_write_completed(&self) -> (completed: bool)
        ensures
            completed == self.spec_is_write_completed(),
    {
        match self {
            FileEventKind::Access(AccessKind::Close(AccessMode::Write)) => true,
            _ => false,
        }
    }
}

/// Why the watcher did not start.
#[derive(Debug, PartialEq, Eq)]
pub enum WatchError {
    /// The preference record was absent and could not be created.
    CannotCreate(String),
    /// The observer could not be attached to the record.
    CannotWatch(String),
}

/// Where a watcher stands. It starts in `Checking` and never leaves
/// `Stopped`.
#[derive(Clone, Copy, Debug, PartialEq, Eq, Structural)]
pub enum Watcher {
    /// It is being found out whether the record exists.
    Checking,
    /// An empty record is being written.
    Creating,
    /// The observer is being attached.
    Attaching,
    /// File events are awaited.
    Watching,
    /// A write was completed and the record is being read.
    Reading,
    /// Nothing more is published.
    Stopped,
}

/// What happened outside the watcher since its last step.
#[derive(Debug, PartialEq, Eq)]
pub enum WatcherInput {
    /// It is known whether the record exists.
    RecordChecked { exists: bool },
    /// The empty record was written.
    RecordCreated,
    /// The empty record could not be written.
    CreationFailed(String),
    /// The observer is attached.
    Attached,
    /// The observer could not be attached.
    AttachFailed(String),
    /// The observer saw an event on the record.
    FileEvent(FileEventKind),
    /// The observer reported an error.
    ObserverFailed,
    /// The record was read: its content, or why it could not be read.
    RecordRead(Result<String, String>),
    /// The notification could not be handed over: nobody receives any
    /// more.
    ConsumerGone,
}

/// What the watcher's surroundings do next.
#[derive(Debug, PartialEq, Eq)]
pub enum WatcherAction {
    /// Write an empty record.
    CreateRecord,
    /// Attach the observer to the record.
    Attach,
    /// Hand the receiving end of the notifications to the caller.
    ReportStarted,
    /// Tell the caller why the watcher does not start.
    ReportFailure(WatchError),
    /// Read the record.
    ReadRecord,
    /// Hand this notification to the consumer, waiting until it is taken.
    Publish(Result<String, String>),
    /// Wait for the next file event.
    Wait,
    /// Give up: the process cannot go on.
    Abort,
}

/// The phase that follows `w` on `input`.
pub open spec fn watcher_next(w: Watcher, input: WatcherInput) -> Watcher {
    match (w, input) {
        (Watcher::Stopped, _) => Watcher::Stopped,
        (Watcher::Checking, WatcherInput::RecordChecked { exists }) => if exists {
            Watcher::Attaching
        } else {
            Watcher::Creating
        },
        (Watcher::Creating, WatcherInput::RecordCreated) => Watcher::Attaching,
        (Watcher::Creating, WatcherInput::CreationFailed(_)) => Watcher::Stopped,
        (Watcher::Attaching, WatcherInput::Attached) => Watcher::Watching,
        (Watcher::Attaching, WatcherInput::AttachFailed(_)) => Watcher::Stopped,
        (Watcher::Watching, WatcherInput::FileEvent(kind)) => if kind.spec_is_write_completed() {
            Watcher::Reading
        } else {
            Watcher::Watching
        },
        (Watcher::Reading, WatcherInput::RecordRead(_)) => Watcher::Watching,
        (_, WatcherInput::ObserverFailed) => Watcher::Stopped,
        (_, WatcherInput::ConsumerGone) => Watcher::Stopped,
        _ => w,
    }
}

/// What is to be done when `w` meets `input`.
pub open spec fn watcher_action(w: Watcher, input: WatcherInput) -> WatcherAction {
    match (w, input) {
        (Watcher::Stopped, _) => WatcherAction::Abort,
        (Watcher::Checking, WatcherInput::RecordChecked { exists }) => if exists {
            WatcherAction::Attach
        } else {
            WatcherAction::CreateRecord
        },
        (Watcher::Creating, WatcherInput::RecordCreated) => WatcherAction::Attach,
        (Watcher::Creating, WatcherInput::CreationFailed(reason)) => WatcherAction::ReportFailure(
            WatchError::CannotCreate(reason),
        ),
        (Watcher::Attaching, WatcherInput::Attached) => WatcherAction::ReportStarted,
        (Watcher::Attaching, WatcherInput::AttachFailed(reason)) => WatcherAction::ReportFailure(
            WatchError::CannotWatch(reason),
        ),
        (Watcher::Watching, WatcherInput::FileEvent(kind)) => if kind.spec_is_write_completed() {
            WatcherAction::ReadRecord
        } else {
            WatcherAction::Wait
        },
        (Watcher::Reading, WatcherInput::RecordRead(outcome)) => WatcherAction::Publish(outcome),
        (_, WatcherInput::ObserverFailed) => WatcherAction::Abort,
        (_, WatcherInput::ConsumerGone) => WatcherAction::Abort,
        _ => WatcherAction::Wait,
    }
}

impl Watcher {
    pub fn new() -> (watcher: Watcher)
        ensures
            watcher == Watcher::Checking,
    {
        Watcher::Checking
    }

    /// Takes one input and says what to do.
    ///
    /// At the start the record is created empty where it is absent, then
    /// the observer is attached; a failure of either is reported to the
    /// caller. Afterwards each completed write has the record read, and
    /// what was read is published as it is, equal to the last notification
    /// or not. An input that the phase does not await is passed over. A
    /// failure of the observer, or a consumer that is gone, stops the
    /// watcher for good.
    pub fn step(self, input: WatcherInput) -> (result: (Watcher, WatcherAction))
        ensures
            result.0 == watcher_next(self, input),
            result.1 == watcher_action(self, input),
            result.1 is Publish <==> self is Reading && input is RecordRead,
            result.1 is Publish ==> result.1->Publish_0 == input->RecordRead_0,
    {
        match (self, input) {
            (Watcher::Stopped, _) => (Watcher::Stopped, WatcherAction::Abort),
            (Watcher::Checking, WatcherInput::RecordChecked { exists }) => {
                if exists {
                    (Watcher::Attaching, WatcherAction::Attach)
                } else {
                    (Watcher::Creating, WatcherAction::CreateRecord)
                }
            },
            (Watcher::Creating, WatcherInput::RecordCreated) => (
                Watcher::Attaching,
                WatcherAction::Attach,
            ),
            (Watcher::Creating, WatcherInput::CreationFailed(reason)) => (
                Watcher::Stopped,
                WatcherAction::ReportFailure(WatchError::CannotCreate(reason)),
            ),
            (Watcher::Attaching, WatcherInput::Attached) => (
                Watcher::Watching,
                WatcherAction::ReportStarted,
            ),
            (Watcher::Attaching, WatcherInput::AttachFailed(reason)) => (
                Watcher::Stopped,
                WatcherAction::ReportFailure(WatchError::CannotWatch(reason)),
            ),
            (Watcher::Watching, WatcherInput::FileEvent(kind)) => {
                if kind.is_write_completed() {
                    (Watcher::Reading, WatcherAction::ReadRecord)
                } else {
                    (Watcher::Watching, WatcherAction::Wait)
                }
            },
            (Watcher::Reading, WatcherInput::RecordRead(outcome)) => (
                Watcher::Watching,
                WatcherAction::Publish(outcome),
            ),
            (_, WatcherInput::ObserverFailed) => (Watcher::Stopped, WatcherAction::Abort),
            (_, WatcherInput::ConsumerGone) => (Watcher::Stopped, WatcherAction::Abort),
            (phase, _) => (phase, WatcherAction::Wait),
        }
    }
}

/// The phase reached from `w` after all of `inputs`, in order.
pub open spec fn watcher_run(w: Watcher, inputs: Seq<WatcherInput>) -> Watcher
    decreases inputs.len(),
{
    if inputs.len() == 0 {
        w
    } else {
        watcher_next(watcher_run(w, inputs.drop_last()), inputs.last())
    }
}

/// The notifications that a watcher starting in `w` publishes while it
/// takes `inputs`, in order.
pub open spec fn notifications(w: Watcher, inputs: Seq<WatcherInput>) -> Seq<
    Result<String, String>,
>
    decreases inputs.len(),
{
    if inputs.len() == 0 {
        Seq::empty()
    } else {
        let earlier = notifications(w, inputs.drop_last());
        match watcher_action(watcher_run(w, inputs.drop_last()), inputs.last()) {
            WatcherAction::Publish(outcome) => earlier.push(outcome),
            _ => earlier,
        }
    }
}

/// What a watcher meets when the record is written `reads.len()` times and
/// the reading that follows the write `k` gives `reads[k]`.
pub open spec fn writes(reads: Seq<Result<String, String>>) -> Seq<WatcherInput>
    decreases reads.len(),
{
    if reads.len() == 0 {
        Seq::empty()
    } else {
        writes(reads.drop_last()).push(
            WatcherInput::FileEvent(FileEventKind::Access(AccessKind::Close(AccessMode::Write))),
        ).push(WatcherInput::RecordRead(reads.last()))
    }
}

/// Each completed write is published once, with what was read after it,
/// whether or not it equals what was published before: the notifications
/// are the readings, one for one and in order.
pub proof fn lemma_every_write_is_published(reads: Seq<Result<String, String>>)
    ensures
        watcher_run(Watcher::Watching, writes(reads)) == Watcher::Watching,
        notifications(Watcher::Watching, writes(reads)) == reads,
    decreases reads.len(),
{
    if reads.len() > 0 {
        let front = reads.drop_last();
        lemma_every_write_is_published(front);
        let event = WatcherInput::FileEvent(
            FileEventKind::Access(AccessKind::Close(AccessMode::Write)),
        );
        let all = writes(reads);
        assert(all.drop_last() =~= writes(front).push(event));
        assert(all.drop_last().drop_last() =~= writes(front));
        assert(all.last() == WatcherInput::RecordRead(reads.last()));
        assert(all.drop_last().last() == event);
        assert(watcher_run(Watcher::Watching, all.drop_last()) == Watcher::Reading);
        assert(notifications(Watcher::Watching, all.drop_last()) == front);
        assert(front.push(reads.last()) =~= reads);
    }
}

} // verus!
