use tracing::Dispatch;
use tracing_subscriber::layer::{Layered, SubscriberExt};
use tracing_subscriber::{Layer, Registry};

use tracing_lifecycle::layer::{LayerShutdownError, ShutdownAction};
use tracing_lifecycle::subscriber::{
    set_subscriber, SetSubscriberError, SubscriberManagerGuard, SubscriberWithShutdown,
};

struct First;
struct Second;

impl<S: tracing::Subscriber> Layer<S> for First {}
impl<S: tracing::Subscriber> Layer<S> for Second {}

struct Nothing;

impl ShutdownAction for Nothing {
    fn shutdown(self) -> Result<(), LayerShutdownError> {
        Ok(())
    }
}

fn first_is_default() -> bool {
    tracing::dispatcher::get_default(|d| d.is::<Layered<First, Registry>>())
}

#[test]
fn second_global_installation_fails_and_first_stays() {
    let first = SubscriberWithShutdown {
        subscriber: Dispatch::new(Registry::default().with(First)),
        shutdown: Nothing,
    };
    let guard = set_subscriber(first, true).unwrap();
    assert!(matches!(guard, SubscriberManagerGuard::Global(_)));
    assert!(first_is_default());

    let second = SubscriberWithShutdown {
        subscriber: Dispatch::new(Registry::default().with(Second)),
        shutdown: Nothing,
    };
    let result = set_subscriber(second, true);
    assert!(matches!(result, Err(SetSubscriberError::SetGlobalDefault(_))));
    assert!(first_is_default());

    guard.shutdown().unwrap();
    assert!(first_is_default());
}
