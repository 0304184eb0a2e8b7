use std::sync::Arc;

use asterix::command_channel;
use asterix::BrowserError;
use asterix::BrowserHandle;
use asterix::LoopDirective;
use asterix::RuntimeCommand;
use asterix::SharedRegistry;
use asterix::SubmissionError;
use asterix::TransportOutcome;
use tokio::sync::mpsc::UnboundedReceiver;

fn html_outcome(status: u16, body: &str) -> TransportOutcome {
    TransportOutcome::Delivered {
        status,
        mime_type: Some("text/html".to_string()),
        body: body.as_bytes().to_vec(),
    }
}

fn fresh_browser() -> (Arc<SharedRegistry>, BrowserHandle, UnboundedReceiver<RuntimeCommand>) {
    let registry = Arc::new(SharedRegistry::new());
    let (handle, rx) = command_channel(Arc::clone(&registry));
    (registry, handle, rx)
}

#[test]
fn end_to_end_success_scenario() {
    let (registry, handle, mut rx) = fresh_browser();
    let tab = handle.create_tab("New Tab".to_string()).expect("id space left");

    let mut job = handle
        .request_navigation(tab.id, "https://example.test/ok".to_string())
        .expect("runtime is running");
    assert!(job.try_complete().is_none());

    // Stand in for the runtime loop: dequeue, execute, reply.
    let command = rx.try_recv().expect("command was enqueued");
    match asterix::runtime::interpret_command(command) {
        LoopDirective::ExecuteFetch { request, respond_to } => {
            assert_eq!(request.url, "https://example.test/ok");
            assert_eq!(request.tab, tab.id);
            let result = registry.fetch_page(&request, html_outcome(200, "<title>Hi</title>"), 7);
            respond_to.send(result).expect("job is still held");
        }
        LoopDirective::Stop => panic!("a navigation must not stop the loop"),
    }

    let page = job
        .try_complete()
        .expect("job resolved")
        .expect("fetch succeeded");
    assert_eq!(page.status, 200);

    let snaps = handle.tabs();
    assert_eq!(snaps[0].title, "Hi");
    assert_eq!(snaps[0].url.as_deref(), Some("https://example.test/ok"));
}

#[test]
fn end_to_end_failure_scenario() {
    let (registry, handle, mut rx) = fresh_browser();
    let tab = handle.create_tab("New Tab".to_string()).expect("id space left");
    let before = handle.tabs();

    let mut job = handle
        .request_navigation(tab.id, "https://unreachable.test/".to_string())
        .expect("runtime is running");

    let command = rx.try_recv().expect("command was enqueued");
    match asterix::runtime::interpret_command(command) {
        LoopDirective::ExecuteFetch { request, respond_to } => {
            let outcome = TransportOutcome::TransportFailed {
                message: "connection refused".to_string(),
            };
            let result = registry.fetch_page(&request, outcome, 7);
            respond_to.send(result).expect("job is still held");
        }
        LoopDirective::Stop => panic!("a navigation must not stop the loop"),
    }

    match job.try_complete() {
        Some(Err(BrowserError::Network(message))) => {
            assert_eq!(message, "connection refused")
        }
        other => panic!("expected a network error, got {other:?}"),
    }
    let after = handle.tabs();
    assert_eq!(after[0].url, before[0].url);
    assert_eq!(after[0].last_loaded, before[0].last_loaded);
    assert_eq!(after[0].title, before[0].title);
}

#[test]
fn cloned_handle_shares_registry_and_queue() {
    let (_registry, handle, mut rx) = fresh_browser();
    let copy = handle.clone();
    let tab = copy.create_tab("from copy".to_string()).expect("id space left");
    assert_eq!(handle.tabs()[0].title, "from copy");
    copy.request_navigation(tab.id, "https://example.test/".to_string())
        .expect("runtime is running");
    assert!(rx.try_recv().is_ok());
}

#[test]
fn resolved_job_yields_cancelled_on_later_polls() {
    let (registry, handle, mut rx) = fresh_browser();
    let tab = handle.create_tab("New Tab".to_string()).expect("id space left");
    let mut job = handle
        .request_navigation(tab.id, "https://example.test/".to_string())
        .expect("runtime is running");

    let command = rx.try_recv().expect("command was enqueued");
    if let LoopDirective::ExecuteFetch { request, respond_to } =
        asterix::runtime::interpret_command(command)
    {
        let result = registry.fetch_page(&request, html_outcome(200, "<title>T</title>"), 7);
        respond_to.send(result).expect("job is still held");
    }

    assert!(matches!(job.try_complete(), Some(Ok(_))));
    assert!(matches!(
        job.try_complete(),
        Some(Err(BrowserError::Cancelled))
    ));
    assert!(matches!(
        job.try_complete(),
        Some(Err(BrowserError::Cancelled))
    ));
}

#[test]
fn dropped_reply_channel_resolves_to_cancelled() {
    let (_registry, handle, mut rx) = fresh_browser();
    let tab = handle.create_tab("New Tab".to_string()).expect("id space left");
    let mut job = handle
        .request_navigation(tab.id, "https://example.test/".to_string())
        .expect("runtime is running");
    assert!(job.try_complete().is_none());

    // The runtime shuts down mid-flight: the command, and with it the reply
    // sender, is dropped without an answer.
    drop(rx.try_recv().expect("command was enqueued"));
    assert!(matches!(
        job.try_complete(),
        Some(Err(BrowserError::Cancelled))
    ));
}

#[test]
fn submission_after_shutdown_always_fails_fast() {
    let (_registry, handle, rx) = fresh_browser();
    drop(rx);
    for _ in 0..3 {
        let result =
            handle.request_navigation(asterix::TabId(0), "https://example.test/".to_string());
        match result {
            Err(error) => {
                assert_eq!(error, SubmissionError::RuntimeStopped);
                assert_eq!(error.message(), "browser runtime is no longer running");
            }
            Ok(_) => panic!("submission must fail once the runtime stopped"),
        }
    }
}

#[test]
fn commands_dequeue_in_submission_order() {
    let (_registry, handle, mut rx) = fresh_browser();
    handle
        .request_navigation(asterix::TabId(0), "https://first.test/".to_string())
        .expect("runtime is running");
    handle
        .request_navigation(asterix::TabId(1), "https://second.test/".to_string())
        .expect("runtime is running");
    let first = rx.try_recv().expect("first command");
    let second = rx.try_recv().expect("second command");
    match (first, second) {
        (
            RuntimeCommand::Navigate { request: r1, .. },
            RuntimeCommand::Navigate { request: r2, .. },
        ) => {
            assert_eq!(r1.url, "https://first.test/");
            assert_eq!(r2.url, "https://second.test/");
        }
        _ => panic!("both commands must be navigations"),
    }
}

#[test]
fn shutdown_command_stops_the_loop() {
    let (_registry, handle, mut rx) = fresh_browser();
    assert!(handle.request_shutdown());
    let command = rx.try_recv().expect("shutdown was enqueued");
    assert!(matches!(
        asterix::runtime::interpret_command(command),
        LoopDirective::Stop
    ));
    drop(rx);
    assert!(!handle.request_shutdown());
}
