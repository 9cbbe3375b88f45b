//! The scoped acquisition that callers hold: `enter` starts the configured
//! export process, `exit` shuts it down. Each happens at most once.

use crate::export_process::{ExportProcess, ExportProcessConfig, StartError};
use crate::layer::LayerConfig;
use crate::subscriber::ShutdownError;
use tokio::runtime::Runtime;
use vstd::prelude::*;

verus! {

/// Install the subscriber as the process-wide default.
pub struct GlobalTracingConfig<L> {
    pub export_process: ExportProcessConfig<L>,
}

/// Install the subscriber as the current thread's default.
pub struct CurrentThreadTracingConfig<L> {
    pub export_process: ExportProcessConfig<L>,
}

impl<L> GlobalTracingConfig<L> {
    pub fn new(export_process: ExportProcessConfig<L>) -> (r: GlobalTracingConfig<L>)
        ensures
            r.export_process == export_process,
    {
        GlobalTracingConfig { export_process }
    }
}

impl<L> CurrentThreadTracingConfig<L> {
    pub fn new(export_process: ExportProcessConfig<L>) -> (r: CurrentThreadTracingConfig<L>)
        ensures
            r.export_process == export_process,
    {
        CurrentThreadTracingConfig { export_process }
    }
}

/// Where the subscriber is installed, and how it exports.
pub enum TracingConfig<L> {
    Global(GlobalTracingConfig<L>),
    CurrentThread(CurrentThreadTracingConfig<L>),
}

impl<L> TracingConfig<L> {
    pub open spec fn is_global(&self) -> bool {
        self is Global
    }

    pub open spec fn export_process(&self) -> ExportProcessConfig<L> {
        match self {
            TracingConfig::Global(c) => c.export_process,
            TracingConfig::CurrentThread(c) => c.export_process,
        }
    }

    pub open spec fn is_batch(&self) -> bool {
        self.export_process().is_batch()
    }

    pub fn is_global_exec(&self) -> (r: bool)
        ensures
            r == self.is_global(),
    {
        match self {
            TracingConfig::Global(_) => true,
            TracingConfig::CurrentThread(_) => false,
        }
    }

    /// Gives up the scope and returns the export configuration.
    pub fn into_export_process(self) -> (r: ExportProcessConfig<L>)
        ensures
            r == self.export_process(),
    {
        match self {
            TracingConfig::Global(c) => c.export_process,
            TracingConfig::CurrentThread(c) => c.export_process,
        }
    }
}

/// Where the context manager stands, as its contracts see it.
pub ghost enum Phase {
    /// Configured and not entered yet.
    Initialized { global: bool, batch: bool },
    /// Entering took the configuration, and no process was kept.
    Starting,
    /// Entered, with a running process.
    Entered { background: bool, global: bool },
    Exited,
}

/// The context manager used against its protocol.
#[derive(Debug)]
pub enum ContextManagerError {
    /// Entered without a configuration: entered twice, or after exiting.
    EnterWithoutConfiguration,
    /// Exited without a running process: before entering, or twice.
    ExitWithoutExportProcess,
}

/// What `enter` and `exit` report.
#[derive(Debug)]
pub enum TracingError {
    Start(StartError),
    Shutdown(ShutdownError),
    ContextManager(ContextManagerError),
}

/// What `enter` does: from the initial phase it starts a process of the
/// configured scope, in the background whenever it batches, or fails to
/// start and is left unusable; from any other phase it fails as a usage
/// error and changes nothing.
pub open spec fn enter_outcome(before: Phase, after: Phase, r: Result<(), TracingError>) -> bool {
    match before {
        Phase::Initialized { global, batch } => match after {
            Phase::Entered { background, global: g } => r is Ok && g == global && (batch
                ==> background),
            Phase::Starting => r is Err && r->Err_0 is Start,
            _ => false,
        },
        _ => after == before && r matches Err(
            TracingError::ContextManager(ContextManagerError::EnterWithoutConfiguration),
        ),
    }
}

/// What `exit` does: it always ends in the exited phase. From the entered
/// phase it shuts the process down, which may fail; from any other phase it
/// fails as a usage error.
pub open spec fn exit_outcome(before: Phase, after: Phase, r: Result<(), TracingError>) -> bool {
    &&& after == Phase::Exited
    &&& match before {
        Phase::Entered { .. } => r is Ok || r->Err_0 is Shutdown,
        _ => r matches Err(
            TracingError::ContextManager(ContextManagerError::ExitWithoutExportProcess),
        ),
    }
}

/// What `exit` reports for the process's shutdown: success when it shut
/// down, destroying a runtime that it handed back, and its error otherwise.
pub fn exit_result(shut: Result<Option<Runtime>, ShutdownError>) -> (r: Result<(), TracingError>)
    ensures
        shut is Ok ==> r is Ok,
        shut is Err ==> (r matches Err(TracingError::Shutdown(e)) && e == shut->Err_0),
{
    match shut {
        Ok(Some(rt)) => {
            rt.shutdown_background();
            Ok(())
        },
        Ok(None) => Ok(()),
        Err(e) => Err(TracingError::Shutdown(e)),
    }
}

enum ContextManagerState<L: LayerConfig> {
    Initialized(TracingConfig<L>),
    Entered(ExportProcess<L::Shutdown>),
    Starting,
    Exited,
}

/// A context manager that installs the configured subscriber on entry and
/// shuts it down on exit.
pub struct Tracing<L: LayerConfig> {
    state: ContextManagerState<L>,
}

impl<L: LayerConfig> Tracing<L> {
    pub closed spec fn phase(&self) -> Phase {
        match self.state {
            ContextManagerState::Initialized(c) => Phase::Initialized {
                global: c.is_global(),
                batch: c.is_batch(),
            },
            ContextManagerState::Entered(p) => Phase::Entered {
                background: p.is_background(),
                global: p.is_global(),
            },
            ContextManagerState::Starting => Phase::Starting,
            ContextManagerState::Exited => Phase::Exited,
        }
    }

    pub fn new(config: TracingConfig<L>) -> (r: Tracing<L>)
        ensures
            r.phase() == (Phase::Initialized { global: config.is_global(), batch: config.is_batch() }),
    {
        Tracing { state: ContextManagerState::Initialized(config) }
    }

    /// Starts the configured export process. Allowed once, before `exit`.
    pub fn enter(&mut self) -> (r: Result<(), TracingError>)
        ensures
            enter_outcome(old(self).phase(), final(self).phase(), r),
    {
        if !matches!(self.state, ContextManagerState::Initialized(_)) {
            return Err(TracingError::ContextManager(ContextManagerError::EnterWithoutConfiguration));
        }
        let mut state = ContextManagerState::Starting;
        std::mem::swap(&mut self.state, &mut state);
        match state {
            ContextManagerState::Initialized(config) => match ExportProcess::start(config) {
                Ok(process) => {
                    self.state = ContextManagerState::Entered(process);
                    Ok(())
                },
                Err(e) => Err(TracingError::Start(e)),
            },
            other => {
                self.state = other;
                Err(TracingError::ContextManager(ContextManagerError::EnterWithoutConfiguration))
            },
        }
    }

    /// Shuts the running export process down, at most once; a background
    /// runtime that it hands back is destroyed here, outside of any of its
    /// tasks, as `exit_result` says. The context manager is exited
    /// afterwards, whatever the outcome, also after a usage error.
    pub fn exit(&mut self) -> (r: Result<(), TracingError>)
        ensures
            exit_outcome(old(self).phase(), final(self).phase(), r),
    {
        let mut state = ContextManagerState::Exited;
        std::mem::swap(&mut self.state, &mut state);
        match state {
            ContextManagerState::Entered(process) => exit_result(process.shutdown()),
            _ => Err(TracingError::ContextManager(ContextManagerError::ExitWithoutExportProcess)),
        }
    }
}

/// Entering twice in a row fails the second time, whatever the first did.
pub proof fn lemma_enter_twice_fails(
    p0: Phase,
    p1: Phase,
    p2: Phase,
    r1: Result<(), TracingError>,
    r2: Result<(), TracingError>,
)
    requires
        enter_outcome(p0, p1, r1),
        enter_outcome(p1, p2, r2),
    ensures
        r2 matches Err(TracingError::ContextManager(ContextManagerError::EnterWithoutConfiguration)),
{
}

/// Exiting before entering fails.
pub proof fn lemma_exit_before_enter_fails(
    global: bool,
    batch: bool,
    p1: Phase,
    r: Result<(), TracingError>,
)
    requires
        exit_outcome(Phase::Initialized { global, batch }, p1, r),
    ensures
        r matches Err(TracingError::ContextManager(ContextManagerError::ExitWithoutExportProcess)),
{
}

/// Exiting twice in a row fails the second time, whatever the first did.
pub proof fn lemma_exit_twice_fails(
    p0: Phase,
    p1: Phase,
    p2: Phase,
    r1: Result<(), TracingError>,
    r2: Result<(), TracingError>,
)
    requires
        exit_outcome(p0, p1, r1),
        exit_outcome(p1, p2, r2),
    ensures
        r2 matches Err(TracingError::ContextManager(ContextManagerError::ExitWithoutExportProcess)),
{
}

} // verus!
