use socket_gateway::socket::frame::Frame;
use socket_gateway::socket::{Flow, WebSocketServer};
use std::sync::Arc;

#[test]
fn registry_survives_concurrent_sweeps_inserts_and_removals() {
    let runtime = tokio::runtime::Builder::new_multi_thread()
        .worker_threads(4)
        .build()
        .unwrap();
    let server = Arc::new(WebSocketServer::new());
    let (keep_tx, keep_rx) = flume::bounded::<Frame>(4);
    let kept = server.open_session(keep_tx);
    kept.record_activity(0);

    runtime.block_on(async {
        let mut tasks = Vec::new();
        for _ in 0..4 {
            let server = server.clone();
            tasks.push(tokio::spawn(async move {
                for _ in 0..300 {
                    let (tx, rx) = flume::bounded::<Frame>(4);
                    let session = server.open_session(tx);
                    assert_eq!(
                        server.handle_frame(&session, Frame::Text("ping".to_string())),
                        Flow::Continue
                    );
                    assert_eq!(rx.try_recv().ok(), Some(Frame::Text("pong".to_string())));
                    server.backend().drop_session(session.id());
                    assert!(!server.backend().has_session(session.id()));
                }
            }));
        }
        for _ in 0..2 {
            let server = server.clone();
            tasks.push(tokio::spawn(async move {
                for _ in 0..300 {
                    let closed = server.backend().close_expired_sessions(120000);
                    assert!(closed >= 1);
                    tokio::task::yield_now().await;
                }
            }));
        }
        for task in tasks {
            task.await.unwrap();
        }
    });

    assert_eq!(server.backend().session_count(), 1);
    assert!(server.backend().has_session(kept.id()));
    assert_eq!(keep_rx.try_recv().ok(), Some(Frame::expiry_notice()));
}
