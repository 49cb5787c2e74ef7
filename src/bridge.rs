use vstd::prelude::*;

use oneshot::{Receiver, RecvError};

use crate::error::Error;

verus! {

/// The targets the library knows of.
#[derive(Debug, Clone, Copy, PartialEq, Eq, Structural)]
pub enum Platform {
    /// Power notifications reach a hidden message-only window.
    Windows,
    /// Power notifications reach a run-loop source.
    Macos,
    /// A target whose power model is not implemented.
    Unsupported,
}

/// How a subscription receives the OS's power events.
#[derive(Debug, Clone, Copy, PartialEq, Eq, Structural)]
pub enum EventSinkKind {
    /// A thread of the subscription's own runs the native dispatch loop.
    ThreadOwnedLoop,
    /// The sink attaches to the caller's running loop; no thread is started.
    CallerRunLoop,
}

impl Platform {
    pub open spec fn spec_event_sink_kind(self) -> Result<EventSinkKind, Error> {
        match self {
            Platform::Windows => Ok(EventSinkKind::ThreadOwnedLoop),
            Platform::Macos => Ok(EventSinkKind::CallerRunLoop),
            Platform::Unsupported => Err(Error::UnsupportedPlatform),
        }
    }

    /// The kind of event sink a subscription uses here. On an unsupported
    /// target this is the error itself, before any thread is started.
    pub fn event_sink_kind(self) -> (r: Result<EventSinkKind, Error>)
        ensures
            r == self.spec_event_sink_kind(),
    {
        match self {
            Platform::Windows => Ok(EventSinkKind::ThreadOwnedLoop),
            Platform::Macos => Ok(EventSinkKind::CallerRunLoop),
            Platform::Unsupported => Err(Error::UnsupportedPlatform),
        }
    }

    /// Succeeds where the power model is implemented; a snapshot query on
    /// any other target fails with `UnsupportedPlatform`.
    pub fn check_supported(self) -> (r: Result<(), Error>)
        ensures
            r is Err <==> self == Platform::Unsupported,
            r is Err ==> r == Err::<(), Error>(Error::UnsupportedPlatform),
    {
        match self {
            Platform::Unsupported => Err(Error::UnsupportedPlatform),
            _ => Ok(()),
        }
    }
}

/// `oneshot::Receiver`, carried as an opaque value.
#[verifier::external_type_specification]
#[verifier::external_body]
#[verifier::reject_recursive_types(T)]
pub struct ExReceiver<T>(Receiver<T>);

/// `oneshot::RecvError`, carried as an opaque value.
#[verifier::external_type_specification]
#[verifier::external_body]
pub struct ExRecvError(RecvError);

/// Relies on `oneshot::Receiver::recv`: blocks until the one message arrives,
/// or fails once the sender is gone without sending.
#[verifier::external_body]
fn receive<T>(rx: Receiver<T>) -> (r: Result<T, RecvError>) {
    rx.recv()
}

/// What `subscribe` returns once the sink's thread has answered, or has gone
/// away without an answer.
pub fn handoff_result<G>(received: Result<Result<G, Error>, RecvError>) -> (r: Result<G, Error>)
    ensures
        match received {
            Ok(answer) => r == answer,
            Err(_) => r == Err::<G, Error>(Error::RegistrationChannelClosed),
        },
{
    match received {
        Ok(answer) => answer,
        Err(_) => Err(Error::RegistrationChannelClosed),
    }
}

/// Waits for the sink's thread to report how its setup went. `spawned` says
/// whether that thread could be started at all; if not, there is nobody to
/// wait for.
pub fn finish_registration<G>(spawned: bool, rx: Receiver<Result<G, Error>>) -> (r: Result<G, Error>)
    ensures
        !spawned ==> r == Err::<G, Error>(Error::CallbackThreadSpawnFailed),
{
    if !spawned {
        return Err(Error::CallbackThreadSpawnFailed);
    }
    handoff_result(receive(rx))
}

/// A message that the OS delivers to the event sink.
#[derive(Debug, Clone, Copy, PartialEq, Eq, Structural)]
pub enum SinkMessage {
    /// The sink was created and receives the callback context.
    Create,
    /// The power state changed.
    PowerEvent,
    /// The subscription is being torn down.
    Destroy,
    /// Anything else.
    Other,
}

/// Where the callback context stands, as the dispatch loop sees it.
#[derive(Debug, Clone, Copy, PartialEq, Eq, Structural)]
pub enum ContextSlot {
    /// Not handed over yet.
    Empty,
    /// Handed over and alive.
    Held,
    /// Reclaimed; nothing may reach it any more.
    Released,
}

/// What the dispatch loop does with a message.
#[derive(Debug, Clone, Copy, PartialEq, Eq, Structural)]
pub enum SinkAction {
    /// Keep the context that came with the sink's creation.
    StoreContext,
    /// Take a snapshot and hand it to the callback.
    Deliver,
    /// A power event came before any context: report it, deliver nothing.
    ReportMissingContext,
    /// Reclaim the context and leave the dispatch loop.
    ReleaseAndExit,
    /// Leave the dispatch loop; there is no context to reclaim.
    Exit,
    /// Nothing to do but the OS's default handling.
    Ignore,
}

/// One step of the dispatch loop: the slot after `msg`, and what to do.
pub open spec fn sink_step(slot: ContextSlot, msg: SinkMessage) -> (ContextSlot, SinkAction) {
    match msg {
        SinkMessage::Create => match slot {
            ContextSlot::Empty => (ContextSlot::Held, SinkAction::StoreContext),
            _ => (slot, SinkAction::Ignore),
        },
        SinkMessage::PowerEvent => match slot {
            ContextSlot::Empty => (slot, SinkAction::ReportMissingContext),
            ContextSlot::Held => (slot, SinkAction::Deliver),
            ContextSlot::Released => (slot, SinkAction::Ignore),
        },
        SinkMessage::Destroy => match slot {
            ContextSlot::Held => (ContextSlot::Released, SinkAction::ReleaseAndExit),
            ContextSlot::Empty => (ContextSlot::Released, SinkAction::Exit),
            ContextSlot::Released => (slot, SinkAction::Exit),
        },
        SinkMessage::Other => (slot, SinkAction::Ignore),
    }
}

/// The state of a subscription's dispatch loop.
#[derive(Debug, Clone, Copy, PartialEq, Eq, Structural)]
pub struct SinkState {
    pub slot: ContextSlot,
}

impl SinkState {
    /// A dispatch loop whose sink has not been created yet.
    pub fn new() -> (r: SinkState)
        ensures
            r.slot == ContextSlot::Empty,
    {
        SinkState { slot: ContextSlot::Empty }
    }

    /// Handles one message from the OS.
    pub fn on_message(&mut self, msg: SinkMessage) -> (r: SinkAction)
        ensures
            (final(self).slot, r) == sink_step(old(self).slot, msg),
    {
        let (slot, action) = match msg {
            SinkMessage::Create => match self.slot {
                ContextSlot::Empty => (ContextSlot::Held, SinkAction::StoreContext),
                _ => (self.slot, SinkAction::Ignore),
            },
            SinkMessage::PowerEvent => match self.slot {
                ContextSlot::Empty => (self.slot, SinkAction::ReportMissingContext),
                ContextSlot::Held => (self.slot, SinkAction::Deliver),
                ContextSlot::Released => (self.slot, SinkAction::Ignore),
            },
            SinkMessage::Destroy => match self.slot {
                ContextSlot::Held => (ContextSlot::Released, SinkAction::ReleaseAndExit),
                ContextSlot::Empty => (ContextSlot::Released, SinkAction::Exit),
                ContextSlot::Released => (self.slot, SinkAction::Exit),
            },
            SinkMessage::Other => (self.slot, SinkAction::Ignore),
        };
        self.slot = slot;
        action
    }
}

/// What disposing of a guard asks for, in this order.
#[derive(Debug, Clone, Copy, PartialEq, Eq, Structural)]
pub struct Teardown {
    /// Unregister the OS-level interest in power events.
    pub unregister: bool,
    /// Post the synthetic "destroy" message into the dispatch loop, which
    /// reclaims the callback context there.
    pub post_destroy: bool,
}

/// The bookkeeping of a subscription guard.
#[derive(Debug, Clone, Copy, PartialEq, Eq, Structural)]
pub struct GuardState {
    /// The OS registration has not been given up yet.
    pub registered: bool,
    /// The dispatch loop has not been told to stop yet.
    pub sink_live: bool,
}

impl GuardState {
    /// The teardown that disposing asks for, and the state after it.
    pub open spec fn spec_dispose(self) -> (GuardState, Teardown) {
        (
            GuardState { registered: false, sink_live: false },
            Teardown { unregister: self.registered, post_destroy: self.sink_live },
        )
    }

    /// A guard for a subscription whose sink is live and registered.
    pub fn active() -> (r: GuardState)
        ensures
            r.registered && r.sink_live,
    {
        GuardState { registered: true, sink_live: true }
    }

    /// A guard for a subscription that never finished its setup.
    pub fn uninitialized() -> (r: GuardState)
        ensures
            !r.registered && !r.sink_live,
    {
        GuardState { registered: false, sink_live: false }
    }

    /// Disposes of the guard: what is still held is given up, once.
    pub fn dispose(&mut self) -> (r: Teardown)
        ensures
            (*final(self), r) == old(self).spec_dispose(),
    {
        let r = Teardown { unregister: self.registered, post_destroy: self.sink_live };
        self.registered = false;
        self.sink_live = false;
        r
    }
}

/// The actions of the dispatch loop on `msgs`, from `slot`.
pub open spec fn sink_run(slot: ContextSlot, msgs: Seq<SinkMessage>) -> Seq<SinkAction>
    decreases msgs.len(),
{
    if msgs.len() == 0 {
        Seq::empty()
    } else {
        let (next, action) = sink_step(slot, msgs[0]);
        seq![action] + sink_run(next, msgs.drop_first())
    }
}

/// How many times `actions` reclaims the callback context.
pub open spec fn releases(actions: Seq<SinkAction>) -> nat
    decreases actions.len(),
{
    if actions.len() == 0 {
        0
    } else {
        (if actions[0] == SinkAction::ReleaseAndExit { 1nat } else { 0nat }) + releases(actions.drop_first())
    }
}

/// The dispatch loop answers each message with one action.
proof fn lemma_sink_run_len(slot: ContextSlot, msgs: Seq<SinkMessage>)
    ensures
        sink_run(slot, msgs).len() == msgs.len(),
    decreases msgs.len(),
{
    if msgs.len() > 0 {
        let (next, _) = sink_step(slot, msgs[0]);
        lemma_sink_run_len(next, msgs.drop_first());
    }
}

/// Once the context is reclaimed, no message reclaims it again or delivers.
proof fn lemma_released_is_final(msgs: Seq<SinkMessage>)
    ensures
        releases(sink_run(ContextSlot::Released, msgs)) == 0,
        forall|i: int| 0 <= i < msgs.len() ==> #[trigger] sink_run(ContextSlot::Released, msgs)[i] != SinkAction::Deliver,
    decreases msgs.len(),
{
    if msgs.len() > 0 {
        lemma_released_is_final(msgs.drop_first());
        lemma_sink_run_len(ContextSlot::Released, msgs.drop_first());
        let rest = sink_run(ContextSlot::Released, msgs.drop_first());
        let all = sink_run(ContextSlot::Released, msgs);
        assert(all.drop_first() == rest);
        assert forall|i: int| 0 <= i < msgs.len() implies #[trigger] all[i] != SinkAction::Deliver by {
            if i > 0 {
                assert(all[i] == rest[i - 1]);
            }
        }
    }
}

/// Whatever the OS delivers, and in whatever order, the dispatch loop reclaims
/// the callback context at most once, and no power event reaches the
/// callback after the context was reclaimed.
pub proof fn lemma_context_released_at_most_once(slot: ContextSlot, msgs: Seq<SinkMessage>)
    ensures
        releases(sink_run(slot, msgs)) <= 1,
        slot == ContextSlot::Released ==> releases(sink_run(slot, msgs)) == 0,
        forall|i: int, j: int|
            0 <= i < j < msgs.len() && #[trigger] sink_run(slot, msgs)[i] == SinkAction::ReleaseAndExit
                ==> #[trigger] sink_run(slot, msgs)[j] != SinkAction::Deliver,
    decreases msgs.len(),
{
    if msgs.len() > 0 {
        let (next, action) = sink_step(slot, msgs[0]);
        let rest = msgs.drop_first();
        let all = sink_run(slot, msgs);
        assert(all.drop_first() == sink_run(next, rest));
        lemma_context_released_at_most_once(next, rest);
        lemma_sink_run_len(next, rest);
        if action == SinkAction::ReleaseAndExit {
            lemma_released_is_final(rest);
        }
        if slot == ContextSlot::Released {
            lemma_released_is_final(msgs);
        }
        assert forall|i: int, j: int|
            0 <= i < j < msgs.len() && #[trigger] all[i] == SinkAction::ReleaseAndExit
                implies #[trigger] all[j] != SinkAction::Deliver by {
            assert(all[j] == sink_run(next, rest)[j - 1]);
            if i > 0 {
                assert(all[i] == sink_run(next, rest)[i - 1]);
            }
        }
    }
}

/// Disposing of a guard is idempotent: a second disposal, or a drop after a
/// completed teardown, asks for nothing and changes nothing, so nothing is
/// unregistered or reclaimed twice.
pub proof fn lemma_dispose_idempotent(g: GuardState)
    ensures
        ({
            let (once, first) = g.spec_dispose();
            let (twice, second) = once.spec_dispose();
            &&& twice == once
            &&& !second.unregister
            &&& !second.post_destroy
            &&& first.unregister == g.registered
            &&& first.post_destroy == g.sink_live
        }),
{
}

} // verus!
