use std::io::{Read, Write};
use std::path::Path;
use std::sync::{Arc, Mutex, OnceLock};
use std::time::{Duration, Instant};

use tracing::callsite::{Callsite, Identifier};
use tracing::field::FieldSet;
use tracing::metadata::Kind;
use tracing::subscriber::Interest;
use tracing::{Dispatch, Level, Metadata, Span};
use tracing_subscriber::layer::{Context, Layered, SubscriberExt};
use tracing_subscriber::registry::LookupSpan;
use tracing_subscriber::{Layer, Registry};

use tracing_lifecycle::contextmanager::{GlobalTracingConfig, Tracing, TracingConfig};
use tracing_lifecycle::export_process::{
    BatchConfig, ExportProcess, ExportProcessConfig, SimpleConfig,
};
use tracing_lifecycle::layer::{
    LayerBuildError, LayerConfig, LayerShutdownError, LayerWithShutdown, ShutdownAction,
};
use tracing_lifecycle::subscriber::SubscriberConfig;

const N_SPANS: usize = 5;
const SPAN_DURATION: Duration = Duration::from_millis(100);
const SPAN_GRACE: Duration = Duration::from_millis(50);

struct ExampleCallsite {
    metadata: OnceLock<&'static Metadata<'static>>,
}

impl Callsite for ExampleCallsite {
    fn set_interest(&self, _interest: Interest) {}

    fn metadata(&self) -> &Metadata<'_> {
        self.metadata.get().expect("metadata is set when the callsite is made")
    }
}

fn example_metadata() -> &'static Metadata<'static> {
    let callsite: &'static ExampleCallsite =
        Box::leak(Box::new(ExampleCallsite { metadata: OnceLock::new() }));
    let metadata: &'static Metadata<'static> = Box::leak(Box::new(Metadata::new(
        "example",
        "lifecycle",
        Level::INFO,
        None,
        None,
        None,
        FieldSet::new(&[], Identifier(callsite)),
        Kind::SPAN,
    )));
    let _ = callsite.metadata.set(metadata);
    metadata
}

/// Opens a span named "example" and keeps it open for `SPAN_DURATION`.
fn example(metadata: &'static Metadata<'static>) {
    let span = Span::new(metadata, &metadata.fields().value_set_all(&[]));
    let _entered = span.enter();
    let start = Instant::now();
    while start.elapsed() < SPAN_DURATION {
        std::hint::spin_loop();
    }
}

struct Sink {
    file: Mutex<tempfile::NamedTempFile>,
    pending: Mutex<Vec<String>>,
    batch: bool,
}

impl Sink {
    fn record(&self, line: String) {
        if self.batch {
            self.pending.lock().unwrap().push(line);
        } else {
            let mut file = self.file.lock().unwrap();
            file.write_all(format!("{line}\n").as_bytes()).unwrap();
        }
    }

    fn flush(&self) -> std::io::Result<()> {
        let mut file = self.file.lock().unwrap();
        for line in self.pending.lock().unwrap().drain(..) {
            file.write_all(format!("{line}\n").as_bytes())?;
        }
        file.flush()
    }
}

struct Started(Instant);

/// Writes one line per closed span: its name and how long it was open.
struct Recording {
    sink: Arc<Sink>,
}

impl<S> Layer<S> for Recording
where
    S: tracing::Subscriber + for<'a> LookupSpan<'a>,
{
    fn on_new_span(
        &self,
        _attrs: &tracing::span::Attributes<'_>,
        id: &tracing::span::Id,
        ctx: Context<'_, S>,
    ) {
        if let Some(span) = ctx.span(id) {
            span.extensions_mut().insert(Started(Instant::now()));
        }
    }

    fn on_close(&self, id: tracing::span::Id, ctx: Context<'_, S>) {
        if let Some(span) = ctx.span(&id) {
            let elapsed = span.extensions().get::<Started>().map(|s| s.0.elapsed());
            if let Some(elapsed) = elapsed {
                self.sink.record(format!("{} {}", span.name(), elapsed.as_nanos()));
            }
        }
    }
}

type RecordingSubscriber = Layered<Recording, Registry>;

/// What a build saw.
#[derive(Default)]
struct BuildLog {
    batch: Option<bool>,
    within_runtime: Option<bool>,
}

/// Writes to a new file in `dir`, which must exist.
struct FileLayer {
    dir: std::path::PathBuf,
    written: Arc<Mutex<Option<Arc<Sink>>>>,
    requires_runtime: bool,
    log: Arc<Mutex<BuildLog>>,
    active_at_shutdown: Arc<Mutex<Option<bool>>>,
}

struct Flush {
    sink: Arc<Sink>,
    active_at_shutdown: Arc<Mutex<Option<bool>>>,
}

impl ShutdownAction for Flush {
    fn shutdown(self) -> Result<(), LayerShutdownError> {
        let active = tracing::dispatcher::get_default(|d| d.is::<RecordingSubscriber>());
        *self.active_at_shutdown.lock().unwrap() = Some(active);
        self.sink.flush().map_err(|e| LayerShutdownError { message: e.to_string() })
    }
}

impl LayerConfig for FileLayer {
    type Shutdown = Flush;

    fn spec_requires_runtime(&self) -> bool {
        self.requires_runtime
    }

    fn requires_runtime(&self) -> bool {
        self.requires_runtime
    }

    fn build(&self, batch: bool) -> Result<LayerWithShutdown<Flush>, LayerBuildError> {
        {
            let mut log = self.log.lock().unwrap();
            log.batch = Some(batch);
            log.within_runtime = Some(tokio::runtime::Handle::try_current().is_ok());
        }
        let file = tempfile::NamedTempFile::new_in(&self.dir)
            .map_err(|e| LayerBuildError { message: e.to_string() })?;
        let sink = Arc::new(Sink { file: Mutex::new(file), pending: Mutex::new(Vec::new()), batch });
        *self.written.lock().unwrap() = Some(Arc::clone(&sink));
        let subscriber = Dispatch::new(Registry::default().with(Recording { sink: Arc::clone(&sink) }));
        Ok(LayerWithShutdown {
            subscriber,
            shutdown: Flush { sink, active_at_shutdown: Arc::clone(&self.active_at_shutdown) },
        })
    }
}

fn file_layer(dir: &Path, requires_runtime: bool) -> FileLayer {
    FileLayer {
        dir: dir.to_owned(),
        written: Arc::new(Mutex::new(None)),
        requires_runtime,
        log: Arc::new(Mutex::new(BuildLog::default())),
        active_at_shutdown: Arc::new(Mutex::new(None)),
    }
}

fn global(export_process: ExportProcessConfig<FileLayer>) -> TracingConfig<FileLayer> {
    TracingConfig::Global(GlobalTracingConfig::new(export_process))
}

fn simple(layer: FileLayer) -> ExportProcessConfig<FileLayer> {
    ExportProcessConfig::Simple(SimpleConfig::new(SubscriberConfig::new(layer)))
}

fn batch(layer: FileLayer) -> ExportProcessConfig<FileLayer> {
    ExportProcessConfig::Batch(BatchConfig::new(SubscriberConfig::new(layer)))
}

type Written = Arc<Mutex<Option<Arc<Sink>>>>;

/// The spans in the file that the layer wrote, as (name, nanoseconds open).
fn recorded_spans(written: &Written) -> Vec<(String, u128)> {
    let sink = written.lock().unwrap().clone().expect("the layer was built");
    let mut file = sink.file.lock().unwrap().reopen().unwrap();
    let mut text = String::new();
    file.read_to_string(&mut text).unwrap();
    text.lines()
        .map(|line| {
            let (name, nanos) = line.split_once(' ').unwrap();
            (name.to_string(), nanos.parse::<u128>().unwrap())
        })
        .collect()
}

fn assert_example_spans(written: &Written) {
    let spans = recorded_spans(written);
    assert_eq!(spans.len(), N_SPANS);
    for (name, nanos) in spans {
        assert_eq!(name, "example");
        assert!(nanos >= SPAN_DURATION.as_nanos());
        assert!(nanos <= SPAN_DURATION.as_nanos() + SPAN_GRACE.as_nanos());
    }
}

fn is_recording_default() -> bool {
    tracing::dispatcher::get_default(|d| d.is::<RecordingSubscriber>())
}

#[test]
fn contextmanager_test_global_simple() {
    let dir = tempfile::tempdir().unwrap();
    let metadata = example_metadata();
    let layer = file_layer(dir.path(), false);
    let written = Arc::clone(&layer.written);
    let export_process = ExportProcess::start(global(simple(layer))).unwrap();
    assert!(matches!(export_process, ExportProcess::Foreground(_)));
    for _ in 0..N_SPANS {
        example(metadata);
    }
    let runtime = export_process.shutdown().unwrap();
    assert!(runtime.is_none());
    assert_example_spans(&written);
}
