//! The dedicated multi-threaded runtime that a background export process
//! owns.

use vstd::prelude::*;

verus! {

/// tokio's `runtime::Runtime`, carried opaquely.
#[verifier::external_type_specification]
#[verifier::external_body]
pub struct ExRuntime(tokio::runtime::Runtime);

/// tokio's `runtime::EnterGuard`: while it lives the thread is in the
/// runtime's context.
#[verifier::external_type_specification]
#[verifier::external_body]
pub struct ExEnterGuard<'a>(tokio::runtime::EnterGuard<'a>);

/// std's `io::Error`, carried opaquely.
#[verifier::external_type_specification]
#[verifier::external_body]
pub struct ExIoError(std::io::Error);

/// Relies on tokio's `Builder::new_multi_thread`, `enable_all` and `build`:
/// a new multi-threaded runtime with its I/O and time drivers, or the error
/// that the system reported. Whether it succeeds depends on the machine.
#[verifier::external_body]
pub(crate) fn new_multi_thread_runtime() -> (r: Result<tokio::runtime::Runtime, std::io::Error>) {
    tokio::runtime::Builder::new_multi_thread().enable_all().build()
}

/// Relies on tokio's `Runtime::enter`: while the guard lives, the current
/// thread runs in this runtime's context, so that what is built there may
/// spawn tasks onto it.
pub assume_specification<'a>[ tokio::runtime::Runtime::enter ](
    rt: &'a tokio::runtime::Runtime,
) -> tokio::runtime::EnterGuard<'a>;

/// Relies on tokio's `Runtime::shutdown_background`: it drops the runtime
/// without waiting for its tasks, and may be called from within another
/// runtime.
pub assume_specification[ tokio::runtime::Runtime::shutdown_background ](
    rt: tokio::runtime::Runtime,
);

} // verus!
