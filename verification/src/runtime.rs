//! The command runtime's cross-boundary surface: commands, the cloneable
//! submission handle, and poll-only navigation jobs.
//!
//! The background loop that owns the network state executes elsewhere; this
//! module pins down every decision made at the boundary: how a submission
//! turns into a command, how the loop must interpret each command, and how a
//! poll outcome resolves for the caller.

use vstd::prelude::*;

use std::sync::Arc;

use tokio::sync::mpsc::UnboundedReceiver;
use tokio::sync::mpsc::UnboundedSender;
use tokio::sync::oneshot::Receiver;
use tokio::sync::oneshot::Sender;

use crate::model::BrowserError;
use crate::model::PageRequest;
use crate::model::PageResponse;
use crate::model::SubmissionError;
use crate::model::TabId;
use crate::model::TabSnapshot;
use crate::shared::SharedRegistry;

verus! {

#[verifier::external_type_specification]
#[verifier::external_body]
#[verifier::reject_recursive_types(T)]
pub struct ExOneshotSender<T>(Sender<T>);

#[verifier::external_type_specification]
#[verifier::external_body]
#[verifier::reject_recursive_types(T)]
pub struct ExOneshotReceiver<T>(Receiver<T>);

#[verifier::external_type_specification]
#[verifier::external_body]
pub struct ExOneshotRecvError(tokio::sync::oneshot::error::RecvError);

#[verifier::external_type_specification]
#[verifier::external_body]
#[verifier::reject_recursive_types(T)]
pub struct ExUnboundedSender<T>(UnboundedSender<T>);

#[verifier::external_type_specification]
#[verifier::external_body]
#[verifier::reject_recursive_types(T)]
pub struct ExUnboundedReceiver<T>(UnboundedReceiver<T>);

/// Relies on tokio::sync::mpsc::UnboundedSender::clone: the copy is a sender
/// to the very same queue, indistinguishable from the one cloned.
#[verifier::external_body]
fn clone_sender(tx: &UnboundedSender<RuntimeCommand>) -> (res: UnboundedSender<RuntimeCommand>)
    ensures
        res == *tx,
{
    tx.clone()
}

/// Relies on alloc::sync::Arc::clone: the copy is a reference to the very
/// same shared value.
#[verifier::external_body]
fn clone_registry(v: &Arc<SharedRegistry>) -> (res: Arc<SharedRegistry>)
    ensures
        res == *v,
{
    Arc::clone(v)
}

/// One command for the runtime loop, consumed exactly once: either a
/// navigation to execute, paired with the single-use sender its result must
/// be delivered through, or the order to shut down.
pub enum RuntimeCommand {
    Navigate {
        request: PageRequest,
        respond_to: Sender<Result<PageResponse, BrowserError>>,
    },
    Shutdown,
}

/// What the runtime loop must do for one dequeued command: execute the fetch
/// and deliver its result through the paired sender, or exit without
/// draining anything further.
pub enum LoopDirective {
    ExecuteFetch {
        request: PageRequest,
        respond_to: Sender<Result<PageResponse, BrowserError>>,
    },
    Stop,
}

/// The loop's decision for one dequeued command.
pub open spec fn spec_interpret_command(command: RuntimeCommand) -> LoopDirective {
    match command {
        RuntimeCommand::Navigate { request, respond_to } => LoopDirective::ExecuteFetch {
            request,
            respond_to,
        },
        RuntimeCommand::Shutdown => LoopDirective::Stop,
    }
}

/// Decides what the runtime loop does with one dequeued command: a
/// navigation is executed with its reply channel kept paired, and a
/// shutdown stops the loop.
pub fn interpret_command(command: RuntimeCommand) -> (directive: LoopDirective)
    ensures
        directive == spec_interpret_command(command),
{
    match command {
        RuntimeCommand::Navigate { request, respond_to } => LoopDirective::ExecuteFetch {
            request,
            respond_to,
        },
        RuntimeCommand::Shutdown => LoopDirective::Stop,
    }
}

/// What one non-blocking poll of a job's reply channel observed.
pub enum PollOutcome {
    /// The runtime delivered the navigation's result.
    Received(Result<PageResponse, BrowserError>),
    /// No result has arrived yet and the sender is still alive.
    NotReady,
    /// The sender is gone without a result ever arriving, or the single
    /// delivered result was already taken by an earlier poll.
    SenderDropped,
}

/// How one poll outcome resolves for the caller: a delivered result is
/// handed over as is, a pending channel yields nothing, and a dropped
/// sender surfaces as a `Cancelled` error rather than a hang.
pub open spec fn spec_resolve_poll(outcome: PollOutcome) -> Option<
    Result<PageResponse, BrowserError>,
> {
    match outcome {
        PollOutcome::Received(result) => Some(result),
        PollOutcome::NotReady => None,
        PollOutcome::SenderDropped => Some(Err(BrowserError::Cancelled)),
    }
}

/// Resolves one poll outcome for the caller.
pub fn resolve_poll(outcome: PollOutcome) -> (r: Option<Result<PageResponse, BrowserError>>)
    ensures
        r == spec_resolve_poll(outcome),
{
    match outcome {
        PollOutcome::Received(result) => Some(result),
        PollOutcome::NotReady => None,
        PollOutcome::SenderDropped => Some(Err(BrowserError::Cancelled)),
    }
}

/// Relies on tokio::sync::oneshot::channel: returns the paired sender and
/// receiver of a fresh single-use channel.
#[verifier::external_body]
fn new_response_channel() -> (r: (
    Sender<Result<PageResponse, BrowserError>>,
    Receiver<Result<PageResponse, BrowserError>>,
)) {
    tokio::sync::oneshot::channel()
}

/// Relies on tokio::sync::mpsc::unbounded_channel: returns the paired sender
/// and receiver of a fresh unbounded queue.
#[verifier::external_body]
fn new_command_channel() -> (r: (
    UnboundedSender<RuntimeCommand>,
    UnboundedReceiver<RuntimeCommand>,
)) {
    tokio::sync::mpsc::unbounded_channel()
}

/// Relies on tokio::sync::mpsc::UnboundedSender::send: enqueueing succeeds
/// exactly when the receiving end is still open; nothing is promised here,
/// since that depends on the receiver's state.
#[verifier::external_body]
fn send_command(tx: &UnboundedSender<RuntimeCommand>, command: RuntimeCommand) -> (delivered:
    bool) {
    tx.send(command).is_ok()
}

/// Relies on tokio::sync::oneshot::Receiver::try_recv, telling its three
/// outcomes apart: a sent value is returned at most once; otherwise the
/// channel is reported still pending, or closed without a value.
#[verifier::external_body]
fn poll_receiver(receiver: &mut Receiver<Result<PageResponse, BrowserError>>) -> (outcome:
    PollOutcome) {
    match receiver.try_recv() {
        Ok(result) => PollOutcome::Received(result),
        Err(tokio::sync::oneshot::error::TryRecvError::Empty) => PollOutcome::NotReady,
        Err(tokio::sync::oneshot::error::TryRecvError::Closed) => PollOutcome::SenderDropped,
    }
}

/// Cheap, cloneable, thread-shareable capability for interacting with the
/// browser: direct pass-through to the shared tab registry, and command
/// submission to the runtime loop.
pub struct BrowserHandle {
    registry: Arc<SharedRegistry>,
    tx: UnboundedSender<RuntimeCommand>,
}

impl Clone for BrowserHandle {
    /// The copy goes through the same registry and feeds the same command
    /// queue as the handle it was cloned from.
    fn clone(&self) -> (res: Self)
        ensures
            res == *self,
    {
        BrowserHandle { registry: clone_registry(&self.registry), tx: clone_sender(&self.tx) }
    }
}

/// An in-flight navigation: the single-use receiving end of one result
/// channel. Exactly one resolution event ever occurs — success, failure, or
/// cancellation — and the job is not reusable after it.
pub struct NavigationJob {
    receiver: Receiver<Result<PageResponse, BrowserError>>,
}

/// Creates the command queue of a fresh runtime over the given shared
/// registry: the handle callers go through, and the receiving end the
/// runtime loop consumes, in submission order.
pub fn command_channel(registry: Arc<SharedRegistry>) -> (r: (
    BrowserHandle,
    UnboundedReceiver<RuntimeCommand>,
))
    ensures
        r.0.spec_registry() == registry,
{
    let (tx, rx) = new_command_channel();
    (BrowserHandle { registry, tx }, rx)
}

impl BrowserHandle {
    /// The shared registry this handle goes through.
    pub closed spec fn spec_registry(self) -> Arc<SharedRegistry> {
        self.registry
    }

    /// Creates a new logical tab and returns its snapshot; a direct,
    /// synchronous pass-through to the registry. `None` only when the tab id
    /// space is exhausted.
    pub fn create_tab(&self, title: String) -> (r: Option<TabSnapshot>)
        ensures
            r matches Some(snapshot) ==> {
                &&& snapshot.title == title
                &&& snapshot.url is None
                &&& snapshot.last_loaded is None
            },
    {
        self.registry.create_tab(title)
    }

    /// Returns a snapshot of all tabs; a direct, synchronous pass-through to
    /// the registry's read lock, well-formed whatever fetches run
    /// concurrently.
    pub fn tabs(&self) -> (r: Vec<TabSnapshot>)
        ensures
            forall|i: int| 0 <= i < r@.len() ==> (#[trigger] r@[i]).consistent(),
            forall|i: int|
                0 <= i && i + 1 < r@.len() ==> (#[trigger] r@[i]).id.0 < r@[i + 1].id.0,
    {
        self.registry.snapshot_tabs()
    }

    /// Enqueues a navigation of `url` for `tab` and returns the job to poll
    /// for its result. Fails synchronously, before any job exists and
    /// without touching registry or network, exactly when the runtime loop
    /// is no longer receiving; the only error is `RuntimeStopped`.
    pub fn request_navigation(&self, tab: TabId, url: String) -> (r: Result<
        NavigationJob,
        SubmissionError,
    >)
        ensures
            r matches Err(e) ==> e == SubmissionError::RuntimeStopped,
    {
        let (respond_to, receiver) = new_response_channel();
        let request = PageRequest { tab, url };
        let delivered = send_command(&self.tx, RuntimeCommand::Navigate { request, respond_to });
        if delivered {
            Ok(NavigationJob { receiver })
        } else {
            Err(SubmissionError::RuntimeStopped)
        }
    }

    /// Asks the runtime loop to shut down. Returns whether the order could
    /// still be enqueued; a loop that already stopped makes this `false`.
    pub fn request_shutdown(&self) -> (delivered: bool) {
        send_command(&self.tx, RuntimeCommand::Shutdown)
    }
}

impl NavigationJob {
    /// Polls the navigation without blocking. Yields `None` while
    /// unresolved; otherwise the delivered result, or `Err(Cancelled)` when
    /// the runtime dropped the sender without replying. Once the job has
    /// resolved it is consumed: a later poll finds the channel closed and so
    /// yields `Err(Cancelled)` again, never the result a second time.
    pub fn try_complete(&mut self) -> (r: Option<Result<PageResponse, BrowserError>>) {
        let outcome = poll_receiver(&mut self.receiver);
        resolve_poll(outcome)
    }
}

} // verus!
