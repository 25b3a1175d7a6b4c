use hellvents::handle::GenericEventHandle;
use hellvents::listener::EventHandle;
use tokio::sync::watch;
use tokio_util::sync::CancellationToken;

#[test]
fn stop_cancels_and_status_reads_latest() {
    let runtime = tokio::runtime::Runtime::new().unwrap();
    runtime.block_on(async {
        let token = CancellationToken::new();
        let (tx, rx) = watch::channel(("idle".to_string(), "idle for now".to_string()));
        let waiter = token.clone();
        let task = tokio::spawn(async move {
            waiter.cancelled().await;
        });
        let handle = GenericEventHandle::new(token.clone(), task, rx);
        assert_eq!(handle.short_info(), "idle");
        tx.send(("busy".to_string(), "busy with work".to_string())).unwrap();
        assert_eq!(handle.short_info(), "busy");
        assert_eq!(handle.long_info(), "busy with work");
        assert!(!token.is_cancelled());
        handle.stop();
        assert!(token.is_cancelled());
    });
}

#[test]
fn abort_ends_task_without_cancelling() {
    let runtime = tokio::runtime::Runtime::new().unwrap();
    runtime.block_on(async {
        let token = CancellationToken::new();
        let (_tx, rx) = watch::channel((String::new(), String::new()));
        let (done_tx, mut done_rx) = tokio::sync::mpsc::channel::<()>(1);
        let task = tokio::spawn(async move {
            tokio::time::sleep(std::time::Duration::from_secs(3600)).await;
            _ = done_tx.send(()).await;
        });
        let handle = GenericEventHandle::new(token.clone(), task, rx);
        handle.abort();
        assert!(done_rx.recv().await.is_none());
        assert!(!token.is_cancelled());
    });
}
