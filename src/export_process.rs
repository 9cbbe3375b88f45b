//! Deciding where an export process runs, starting it, and shutting it down.
//!
//! A batch exporter always needs a background driver; a simple exporter
//! needs one only when the layer says it does. A background process owns a
//! dedicated runtime, which `shutdown` hands back to the caller instead of
//! destroying it in place.

use crate::contextmanager::TracingConfig;
use crate::layer::LayerConfig;
use crate::worker_runtime::new_multi_thread_runtime;
use crate::subscriber::{
    set_subscriber, BuildError, SetSubscriberError, ShutdownError, SubscriberConfig,
    SubscriberManagerGuard, SubscriberWithShutdown,
};
use tokio::runtime::Runtime;
use vstd::prelude::*;

verus! {

/// Configuration of a batching export process.
pub struct BatchConfig<L> {
    pub subscriber: SubscriberConfig<L>,
}

/// Configuration of an export process that forwards each span as it ends.
pub struct SimpleConfig<L> {
    pub subscriber: SubscriberConfig<L>,
}

impl<L> BatchConfig<L> {
    pub fn new(subscriber: SubscriberConfig<L>) -> (r: BatchConfig<L>)
        ensures
            r.subscriber == subscriber,
    {
        BatchConfig { subscriber }
    }
}

impl<L> SimpleConfig<L> {
    pub fn new(subscriber: SubscriberConfig<L>) -> (r: SimpleConfig<L>)
        ensures
            r.subscriber == subscriber,
    {
        SimpleConfig { subscriber }
    }
}

/// The export mode, with the subscriber it exports through.
pub enum ExportProcessConfig<L> {
    Batch(BatchConfig<L>),
    Simple(SimpleConfig<L>),
}

impl<L> ExportProcessConfig<L> {
    pub open spec fn is_batch(&self) -> bool {
        self is Batch
    }

    pub open spec fn subscriber(&self) -> SubscriberConfig<L> {
        match self {
            ExportProcessConfig::Batch(c) => c.subscriber,
            ExportProcessConfig::Simple(c) => c.subscriber,
        }
    }

    /// Gives up the mode and returns the subscriber's configuration.
    pub fn into_subscriber(self) -> (r: SubscriberConfig<L>)
        ensures
            r == self.subscriber(),
    {
        match self {
            ExportProcessConfig::Batch(c) => c.subscriber,
            ExportProcessConfig::Simple(c) => c.subscriber,
        }
    }
}

/// Where and how a process is started.
#[derive(Debug)]
pub struct StartPlan {
    /// Run the exporter on a dedicated background runtime.
    pub background: bool,
    /// Ask the exporter to batch spans.
    pub batch: bool,
    /// Install the subscriber for the whole process rather than the current
    /// thread.
    pub global: bool,
}

/// A batch exporter always runs in the background and batches; a simple one
/// runs in the background exactly when its layer requires a runtime, and
/// never batches.
pub open spec fn start_plan(global: bool, batch_mode: bool, requires_runtime: bool) -> StartPlan {
    StartPlan { background: batch_mode || requires_runtime, batch: batch_mode, global }
}

/// Decides where a process is started, from the installation scope, the
/// export mode and whether the layer requires a runtime.
pub fn plan_start(global: bool, batch_mode: bool, requires_runtime: bool) -> (r: StartPlan)
    ensures
        r == start_plan(global, batch_mode, requires_runtime),
{
    if batch_mode {
        StartPlan { background: true, batch: true, global }
    } else if requires_runtime {
        StartPlan { background: true, batch: false, global }
    } else {
        StartPlan { background: false, batch: false, global }
    }
}

/// Starting a background process failed. Nothing that was made on the way
/// is kept.
#[derive(Debug)]
pub enum BackgroundStartError {
    SubscriberBuild(BuildError),
    SetSubscriber(SetSubscriberError),
    RuntimeInitialization(std::io::Error),
}

/// Starting an export process failed.
#[derive(Debug)]
pub enum StartError {
    Background(BackgroundStartError),
    BuildSubscriber(BuildError),
    SetSubscriber(SetSubscriberError),
}

/// An export process running on its own runtime.
pub struct BackgroundProcess<S> {
    runtime: Runtime,
    guard: SubscriberManagerGuard<S>,
}

impl<S> BackgroundProcess<S> {
    pub closed spec fn is_global(&self) -> bool {
        self.guard.is_global()
    }

    /// The runtime that the process runs on.
    pub closed spec fn runtime(&self) -> Runtime {
        self.runtime
    }

    /// Creates a dedicated runtime, builds the subscriber within it and
    /// installs the subscriber, globally when `global` holds. On failure the
    /// runtime is let go without waiting for its tasks, so that a failed
    /// start never blocks, even within another runtime.
    pub fn start<L: LayerConfig<Shutdown = S>>(
        config: &SubscriberConfig<L>,
        batch: bool,
        global: bool,
    ) -> (r: Result<BackgroundProcess<S>, BackgroundStartError>)
        ensures
            r is Ok ==> r->Ok_0.is_global() == global,
            r is Err && r->Err_0 is SetSubscriber ==> global,
    {
        Self::start_on(new_multi_thread_runtime(), config, batch, global)
    }

    /// Goes on with the runtime that was created for the process: a failure
    /// to create it is the error, else the subscriber is built within it and
    /// installed as `install` says.
    pub fn start_on<L: LayerConfig<Shutdown = S>>(
        created: Result<Runtime, std::io::Error>,
        config: &SubscriberConfig<L>,
        batch: bool,
        global: bool,
    ) -> (r: Result<BackgroundProcess<S>, BackgroundStartError>)
        ensures
            created is Err ==> (r matches Err(BackgroundStartError::RuntimeInitialization(e))
                && e == created->Err_0),
            created is Ok && r is Ok ==> r->Ok_0.runtime() == created->Ok_0,
            r is Ok ==> r->Ok_0.is_global() == global,
            r is Err && r->Err_0 is SetSubscriber ==> global,
    {
        let runtime = match created {
            Ok(rt) => rt,
            Err(e) => {
                return Err(BackgroundStartError::RuntimeInitialization(e));
            },
        };
        let built = {
            let _entered = runtime.enter();
            config.build(batch)
        };
        Self::install(runtime, built, global)
    }

    /// Installs a subscriber that was built within `runtime`, and keeps the
    /// runtime together with the installation's guard. Only a failed build or
    /// a second process-wide installation fails.
    pub fn install(
        runtime: Runtime,
        built: Result<SubscriberWithShutdown<S>, BuildError>,
        global: bool,
    ) -> (r: Result<BackgroundProcess<S>, BackgroundStartError>)
        ensures
            built is Err ==> r is Err && r->Err_0 is SubscriberBuild,
            built is Ok && !global ==> r is Ok,
            built is Err ==> (r matches Err(BackgroundStartError::SubscriberBuild(b))
                && b == built->Err_0),
            r is Ok ==> built is Ok && r->Ok_0.is_global() == global && r->Ok_0.runtime()
                == runtime,
            r is Err && built is Ok ==> global && r->Err_0 is SetSubscriber,
    {
        let subscriber = match built {
            Ok(s) => s,
            Err(e) => {
                runtime.shutdown_background();
                return Err(BackgroundStartError::SubscriberBuild(e));
            },
        };
        match set_subscriber(subscriber, global) {
            Ok(guard) => Ok(BackgroundProcess { runtime, guard }),
            Err(e) => {
                runtime.shutdown_background();
                Err(BackgroundStartError::SetSubscriber(e))
            },
        }
    }
}

impl<S: crate::layer::ShutdownAction> BackgroundProcess<S> {
    /// Shuts the subscriber down and hands the runtime back: it must not be
    /// destroyed from within a task that it runs. When the shutdown fails, the
    /// runtime is let go without waiting for its tasks.
    pub fn shutdown(self) -> (r: Result<Runtime, ShutdownError>)
        ensures
            r is Ok ==> r->Ok_0 == self.runtime(),
            r is Err ==> r->Err_0 is Layer,
    {
        let BackgroundProcess { runtime, guard } = self;
        hand_back(runtime, guard.shutdown())
    }
}

/// What a background process hands back after its subscriber's shutdown:
/// its own runtime when the shutdown succeeded, else the shutdown's error,
/// the runtime being let go without waiting for its tasks.
pub fn hand_back(runtime: Runtime, shut: Result<(), ShutdownError>) -> (r: Result<
    Runtime,
    ShutdownError,
>)
    ensures
        shut is Ok ==> r == Ok::<Runtime, ShutdownError>(runtime),
        shut is Err ==> r == Err::<Runtime, ShutdownError>(shut->Err_0),
{
    match shut {
        Ok(()) => Ok(runtime),
        Err(e) => {
            runtime.shutdown_background();
            Err(e)
        },
    }
}

/// A running export process: on a background runtime of its own, or on the
/// caller's thread.
pub enum ExportProcess<S> {
    Background(BackgroundProcess<S>),
    Foreground(SubscriberManagerGuard<S>),
}

impl<S> ExportProcess<S> {
    pub open spec fn is_background(&self) -> bool {
        self is Background
    }

    pub open spec fn is_global(&self) -> bool {
        match self {
            ExportProcess::Background(p) => p.is_global(),
            ExportProcess::Foreground(g) => g.is_global(),
        }
    }
}

/// Whether the outcome of a start is one that `plan` allows: a process of the
/// planned kind and scope, or an error of the planned path.
pub open spec fn fits_plan<S>(r: Result<ExportProcess<S>, StartError>, plan: StartPlan) -> bool {
    match r {
        Ok(p) => p.is_background() == plan.background && p.is_global() == plan.global,
        Err(e) => match e {
            StartError::Background(b) => plan.background && (b is SetSubscriber ==> plan.global),
            StartError::BuildSubscriber(_) => !plan.background,
            StartError::SetSubscriber(_) => !plan.background && plan.global,
        },
    }
}

/// What a shutdown hands back when it succeeds: the background process's
/// own runtime, and nothing for a foreground process. A failure is the
/// subscriber's shutdown action failing.
pub open spec fn shutdown_outcome<S>(
    process: ExportProcess<S>,
    r: Result<Option<Runtime>, ShutdownError>,
) -> bool {
    &&& r is Ok ==> r->Ok_0 == match process {
        ExportProcess::Background(p) => Some(p.runtime()),
        ExportProcess::Foreground(_) => None::<Runtime>,
    }
    &&& r is Err ==> r->Err_0 is Layer
}

impl<S: crate::layer::ShutdownAction> ExportProcess<S> {
    /// Starts a process as `plan` says: on a dedicated runtime, or by
    /// building and installing the subscriber on the caller's thread.
    pub fn start_planned<L: LayerConfig<Shutdown = S>>(
        plan: StartPlan,
        subscriber: SubscriberConfig<L>,
    ) -> (r: Result<ExportProcess<S>, StartError>)
        ensures
            fits_plan(r, plan),
    {
        if plan.background {
            match BackgroundProcess::start(&subscriber, plan.batch, plan.global) {
                Ok(p) => Ok(ExportProcess::Background(p)),
                Err(e) => Err(StartError::Background(e)),
            }
        } else {
            Self::install_foreground(subscriber.build(plan.batch), plan.global)
        }
    }

    /// Installs a subscriber that was built on the caller's thread. Only a
    /// failed build or a second process-wide installation fails.
    pub fn install_foreground(
        built: Result<SubscriberWithShutdown<S>, BuildError>,
        global: bool,
    ) -> (r: Result<ExportProcess<S>, StartError>)
        ensures
            built is Err ==> (r matches Err(StartError::BuildSubscriber(b)) && b == built->Err_0),
            built is Ok && !global ==> r is Ok,
            r is Ok ==> built is Ok && r->Ok_0 is Foreground && r->Ok_0.is_global() == global,
            r is Err && built is Ok ==> global && r->Err_0 is SetSubscriber,
    {
        let subscriber = match built {
            Ok(s) => s,
            Err(e) => {
                return Err(StartError::BuildSubscriber(e));
            },
        };
        match set_subscriber(subscriber, global) {
            Ok(guard) => Ok(ExportProcess::Foreground(guard)),
            Err(e) => Err(StartError::SetSubscriber(e)),
        }
    }

    /// Starts the process that `config` describes. The layer is asked
    /// whether it requires a runtime only in simple mode; the outcome fits
    /// the plan for the configuration.
    pub fn start<L: LayerConfig<Shutdown = S>>(config: TracingConfig<L>) -> (r: Result<
        ExportProcess<S>,
        StartError,
    >)
        ensures
            fits_plan(
                r,
                start_plan(
                    config.is_global(),
                    config.is_batch(),
                    !config.is_batch()
                        && config.export_process().subscriber().layer_config.spec_requires_runtime(),
                ),
            ),
    {
        let ghost cfg_global = config.is_global();
        let ghost cfg_batch = config.is_batch();
        let ghost cfg_runtime = config.export_process().subscriber().layer_config.spec_requires_runtime();
        let global = config.is_global_exec();
        let export_process = config.into_export_process();
        let batch_mode = match &export_process {
            ExportProcessConfig::Batch(_) => true,
            ExportProcessConfig::Simple(_) => false,
        };
        let subscriber = export_process.into_subscriber();
        let requires_runtime = if batch_mode {
            false
        } else {
            subscriber.requires_runtime()
        };
        let plan = plan_start(global, batch_mode, requires_runtime);
        let r = Self::start_planned(plan, subscriber);
        assert(batch_mode == cfg_batch && global == cfg_global);
        assert(requires_runtime == (!cfg_batch && cfg_runtime));
        r
    }

    /// Shuts the process down. A background process hands back its runtime
    /// for the caller to destroy outside of any task it runs; a foreground
    /// one has nothing to hand back.
    pub fn shutdown(self) -> (r: Result<Option<Runtime>, ShutdownError>)
        ensures
            shutdown_outcome(self, r),
    {
        match self {
            ExportProcess::Background(process) => match process.shutdown() {
                Ok(runtime) => Ok(Some(runtime)),
                Err(e) => Err(e),
            },
            ExportProcess::Foreground(guard) => match guard.shutdown() {
                Ok(()) => Ok(None),
                Err(e) => Err(e),
            },
        }
    }
}

/// A batch configuration runs in the background whatever its layer answers;
/// a simple one runs in the background exactly when its layer requires a
/// runtime, and on the caller's thread otherwise.
pub proof fn lemma_decision_table(global: bool, requires_runtime: bool)
    ensures
        start_plan(global, true, requires_runtime).background,
        start_plan(global, false, true).background,
        !start_plan(global, false, false).background,
{
}

/// A process started from a simple configuration whose layer requires no
/// runtime hands back no runtime when it shuts down.
pub proof fn lemma_foreground_shutdown_returns_nothing<S>(
    global: bool,
    process: ExportProcess<S>,
    r: Result<Option<Runtime>, ShutdownError>,
)
    requires
        fits_plan(Ok(process), start_plan(global, false, false)),
        shutdown_outcome(process, r),
        r is Ok,
    ensures
        r->Ok_0 is None,
{
}

/// A process started in the background hands its runtime back to the caller
/// when it shuts down, rather than destroying it in place.
pub proof fn lemma_background_shutdown_returns_runtime<S>(
    global: bool,
    batch_mode: bool,
    requires_runtime: bool,
    process: ExportProcess<S>,
    r: Result<Option<Runtime>, ShutdownError>,
)
    requires
        batch_mode || requires_runtime,
        fits_plan(Ok(process), start_plan(global, batch_mode, requires_runtime)),
        shutdown_outcome(process, r),
        r is Ok,
    ensures
        r->Ok_0 is Some,
{
}

} // verus!
