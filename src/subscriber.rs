//! Turning a layer into a subscriber, installing it globally or for the
//! current thread, and shutting it down in the right order.

use crate::layer::{
    LayerBuildError, LayerConfig, LayerShutdownError, LayerWithShutdown, ShutdownAction,
};
use tracing::dispatcher::{DefaultGuard, SetGlobalDefaultError};
use tracing::Dispatch;
use vstd::prelude::*;

verus! {

/// tracing's `Dispatch`: an installed subscriber, carried opaquely.
#[verifier::external_type_specification]
#[verifier::external_body]
pub struct ExDispatch(tracing::Dispatch);

/// tracing's `dispatcher::DefaultGuard`: dropping it restores the previous
/// thread default.
#[verifier::external_type_specification]
#[verifier::external_body]
pub struct ExDefaultGuard(tracing::dispatcher::DefaultGuard);

/// tracing's error for a second process-wide installation.
#[verifier::external_type_specification]
#[verifier::external_body]
pub struct ExSetGlobalDefaultError(tracing::dispatcher::SetGlobalDefaultError);

/// Relies on tracing's `dispatcher::set_global_default`: it installs the
/// dispatcher for the whole process, and fails when one was installed
/// before. Whether it fails depends on the process, so nothing is promised.
pub assume_specification[ tracing::dispatcher::set_global_default ](
    dispatcher: tracing::Dispatch,
) -> Result<(), tracing::dispatcher::SetGlobalDefaultError>;

/// Relies on tracing's `dispatcher::set_default`: it makes the dispatcher the
/// current thread's default until the returned guard is dropped, which
/// restores the previous default.
pub assume_specification[ tracing::dispatcher::set_default ](
    dispatcher: &tracing::Dispatch,
) -> tracing::dispatcher::DefaultGuard;

/// Building the subscriber failed.
#[derive(Debug)]
pub enum BuildError {
    LayerBuild(LayerBuildError),
}

/// Installing the subscriber failed.
#[derive(Debug)]
pub enum SetSubscriberError {
    /// A process-wide default subscriber was installed before.
    SetGlobalDefault(SetGlobalDefaultError),
}

/// The subscriber's shutdown action failed.
#[derive(Debug)]
pub enum ShutdownError {
    Layer(LayerShutdownError),
}

/// A subscriber built from an exporter layer's configuration.
pub struct SubscriberConfig<L> {
    pub layer_config: L,
}

/// A subscriber ready to be installed, with the action that shuts it down.
pub struct SubscriberWithShutdown<S> {
    pub subscriber: Dispatch,
    pub shutdown: S,
}

impl<L: LayerConfig> SubscriberConfig<L> {
    pub fn new(layer_config: L) -> (r: SubscriberConfig<L>)
        ensures
            r.layer_config == layer_config,
    {
        SubscriberConfig { layer_config }
    }

    /// Whether the layer needs a background runtime.
    pub fn requires_runtime(&self) -> (r: bool)
        ensures
            r == self.layer_config.spec_requires_runtime(),
    {
        self.layer_config.requires_runtime()
    }

    /// Builds the layer and wraps it as a subscriber; shutting the subscriber
    /// down shuts the layer down. A failure of the layer is passed on.
    pub fn build(&self, batch: bool) -> (r: Result<SubscriberWithShutdown<L::Shutdown>, BuildError>)
        ensures
            r is Err ==> r->Err_0 is LayerBuild,
    {
        subscriber_from_layer(self.layer_config.build(batch))
    }
}

/// The subscriber for what a layer's build returned: the layer's dispatcher
/// with its shutdown action kept as the subscriber's, or the layer's error.
pub fn subscriber_from_layer<S>(built: Result<LayerWithShutdown<S>, LayerBuildError>) -> (r: Result<
    SubscriberWithShutdown<S>,
    BuildError,
>)
    ensures
        r == match built {
            Ok(l) => Ok(SubscriberWithShutdown { subscriber: l.subscriber, shutdown: l.shutdown }),
            Err(e) => Err(BuildError::LayerBuild(e)),
        },
{
    match built {
        Ok(l) => Ok(SubscriberWithShutdown { subscriber: l.subscriber, shutdown: l.shutdown }),
        Err(e) => Err(BuildError::LayerBuild(e)),
    }
}

/// Holds what is needed to shut an installed subscriber down.
pub enum SubscriberManagerGuard<S> {
    /// Installed for the whole process; it cannot be uninstalled, only shut
    /// down.
    Global(S),
    /// Installed for the current thread; dropping the guard restores the
    /// previous default.
    CurrentThread((S, DefaultGuard)),
}

impl<S> SubscriberManagerGuard<S> {
    pub open spec fn is_global(&self) -> bool {
        self is Global
    }
}

/// The guard for an installation attempt, given what the process-wide
/// installation reported.
pub fn global_guard<S>(
    installed: Result<(), SetGlobalDefaultError>,
    shutdown: S,
) -> (r: Result<SubscriberManagerGuard<S>, SetSubscriberError>)
    ensures
        r is Ok <==> installed is Ok,
        r is Ok ==> r->Ok_0 == SubscriberManagerGuard::Global(shutdown),
        r is Err ==> r->Err_0 is SetGlobalDefault,
{
    match installed {
        Ok(()) => Ok(SubscriberManagerGuard::Global(shutdown)),
        Err(e) => Err(SetSubscriberError::SetGlobalDefault(e)),
    }
}

/// Installs the subscriber for the whole process when `global` holds, else
/// for the current thread only. Only a process-wide installation can fail:
/// there can be one per process.
pub fn set_subscriber<S>(
    subscriber: SubscriberWithShutdown<S>,
    global: bool,
) -> (r: Result<SubscriberManagerGuard<S>, SetSubscriberError>)
    ensures
        !global ==> r is Ok,
        r is Ok ==> r->Ok_0.is_global() == global,
        r is Ok ==> match r->Ok_0 {
            SubscriberManagerGuard::Global(s) => s == subscriber.shutdown,
            SubscriberManagerGuard::CurrentThread((s, _)) => s == subscriber.shutdown,
        },
        r is Err ==> global && r->Err_0 is SetGlobalDefault,
{
    let SubscriberWithShutdown { subscriber: dispatch, shutdown } = subscriber;
    if global {
        global_guard(tracing::dispatcher::set_global_default(dispatch), shutdown)
    } else {
        let guard = tracing::dispatcher::set_default(&dispatch);
        Ok(SubscriberManagerGuard::CurrentThread((shutdown, guard)))
    }
}

/// Drops the thread-scoped guard, which restores the default subscriber that
/// was active before the installation.
fn restore_previous_default(_guard: DefaultGuard) {
}

impl<S: ShutdownAction> SubscriberManagerGuard<S> {
    /// Runs the shutdown action. For a thread-scoped installation the
    /// previous default is restored only after the action has finished, so
    /// that whatever the action still records reaches this subscriber.
    /// The action runs once and is not retried; what it reports is passed on
    /// as `shutdown_result` gives it.
    pub fn shutdown(self) -> (r: Result<(), ShutdownError>)
        ensures
            r is Err ==> r->Err_0 is Layer,
    {
        match self {
            SubscriberManagerGuard::Global(shutdown) => shutdown_result(shutdown.shutdown()),
            SubscriberManagerGuard::CurrentThread((shutdown, guard)) => {
                let result = shutdown.shutdown();
                restore_previous_default(guard);
                shutdown_result(result)
            },
        }
    }
}

/// The subscriber's shutdown result for what its action reported: success
/// for success, and the action's own error otherwise.
pub fn shutdown_result(action: Result<(), LayerShutdownError>) -> (r: Result<(), ShutdownError>)
    ensures
        r == match action {
            Ok(()) => Ok(()),
            Err(e) => Err(ShutdownError::Layer(e)),
        },
{
    match action {
        Ok(()) => Ok(()),
        Err(e) => Err(ShutdownError::Layer(e)),
    }
}

} // verus!
