use vstd::prelude::*;
use crate::listener::EventHandle;

verus! {

#[verifier::external_type_specification]
#[verifier::external_body]
pub struct ExCancellationToken(tokio_util::sync::CancellationToken);

#[verifier::external_type_specification]
#[verifier::external_body]
#[verifier::reject_recursive_types(T)]
pub struct ExJoinHandle<T>(tokio::task::JoinHandle<T>);

#[verifier::external_type_specification]
#[verifier::external_body]
pub struct ExJoinError(tokio::task::JoinError);

#[verifier::external_type_specification]
#[verifier::external_body]
#[verifier::reject_recursive_types(T)]
pub struct ExWatchReceiver<T>(tokio::sync::watch::Receiver<T>);

/// Relies on `CancellationToken::cancel`: wakes whoever waits on the token; nothing is returned.
pub assume_specification[ tokio_util::sync::CancellationToken::cancel ](token: &tokio_util::sync::CancellationToken);

/// Relies on `JoinHandle::abort`: asks the runtime to end the task; nothing is returned.
#[verifier::external_body]
fn abort_task(handle: &tokio::task::JoinHandle<()>) {
    handle.abort()
}

/// Relies on `watch::Receiver::borrow`: a copy of the latest status the task published.
#[verifier::external_body]
fn latest_info(watch: &tokio::sync::watch::Receiver<(String, String)>) -> (String, String) {
    watch.borrow().clone()
}

/// Control of one spawned mini-game task: its cancellation token, its task handle,
/// and the (short, long) status that the task keeps up to date.
pub struct GenericEventHandle {
    token: tokio_util::sync::CancellationToken,
    join_handle: tokio::task::JoinHandle<()>,
    info_watch: tokio::sync::watch::Receiver<(String, String)>,
}

impl GenericEventHandle {
    pub fn new(
        token: tokio_util::sync::CancellationToken,
        join_handle: tokio::task::JoinHandle<()>,
        info_watch: tokio::sync::watch::Receiver<(String, String)>,
    ) -> (r: GenericEventHandle) {
        GenericEventHandle { token, join_handle, info_watch }
    }
}

impl EventHandle for GenericEventHandle {
    fn stop(&self) {
        self.token.cancel();
    }

    fn abort(&self) {
        abort_task(&self.join_handle);
    }

    fn short_info(&self) -> String {
        latest_info(&self.info_watch).0
    }

    fn long_info(&self) -> String {
        latest_info(&self.info_watch).1
    }
}

} // verus!
