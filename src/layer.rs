//! What an exporter layer offers to the coordinator: whether it needs a
//! background runtime, and how to build it together with its shutdown action.

use vstd::prelude::*;

verus! {

/// Why an exporter layer could not be built (a file that cannot be opened, a
/// filter that does not parse, a malformed endpoint).
#[derive(Debug)]
pub struct LayerBuildError {
    pub message: String,
}

/// Why an exporter layer's shutdown action failed.
#[derive(Debug)]
pub struct LayerShutdownError {
    pub message: String,
}

/// The action that flushes and stops an exporter layer. It is run at most
/// once: it is consumed by the call.
pub trait ShutdownAction: Sized {
    fn shutdown(self) -> Result<(), LayerShutdownError>;
}

/// A built layer, already assembled over a subscriber registry and erased
/// into a dispatcher, with the action that later shuts it down.
pub struct LayerWithShutdown<S> {
    pub subscriber: tracing::Dispatch,
    pub shutdown: S,
}

/// An exporter layer's configuration, as the coordinator consumes it.
pub trait LayerConfig: Sized {
    type Shutdown: ShutdownAction;

    /// Whether the configuration describes a layer that needs an
    /// asynchronous runtime; it depends on the configuration alone.
    spec fn spec_requires_runtime(&self) -> bool;

    /// Whether the layer needs an asynchronous runtime to run, even when it
    /// forwards each span as it completes.
    fn requires_runtime(&self) -> (r: bool)
        ensures
            r == self.spec_requires_runtime(),
    ;

    /// Builds the layer. `batch` asks the exporter to buffer spans and flush
    /// them in bulk rather than forward each one immediately.
    fn build(&self, batch: bool) -> Result<LayerWithShutdown<Self::Shutdown>, LayerBuildError>;
}

} // verus!
