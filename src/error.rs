use vstd::prelude::*;

verus! {

/// What can go wrong when reading the power state or subscribing to it.
#[derive(Debug, Clone, Copy, PartialEq, Eq, Structural)]
pub enum Error {
    /// This target has no implementation of the power model.
    UnsupportedPlatform,
    /// The native power query failed; holds the code the OS reported.
    NativeQueryFailed(i32),
    /// The thread that owns the event sink could not be started.
    CallbackThreadSpawnFailed,
    /// The event sink's thread went away before reporting how its setup went.
    RegistrationChannelClosed,
    /// The native event sink could not be created.
    SinkCreationFailed,
    /// The calling thread has no run loop to attach the event sink to.
    NoRunLoopAvailable,
}

} // verus!
