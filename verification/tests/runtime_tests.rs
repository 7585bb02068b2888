use turtl_core::events::{Emitter, EventKind};
use turtl_core::runtime::{init, push_job, run, stop, Job};
use turtl_core::config::process_config;
use turtl_core::json::JsonVal;

#[test]
fn stop_drains_jobs_pushed_before_it() {
    let mut core = init();
    push_job(&mut core, Job::Process(r#"["1","ping"]"#.to_string()));
    push_job(&mut core, Job::Process(r#"["2","ping"]"#.to_string()));
    stop(&mut core);
    assert!(!core.running);
    let (executed, responses) = run(&mut core);
    assert_eq!(executed.len(), 3);
    assert!(matches!(executed[0], Job::Process(_)));
    assert!(matches!(executed[1], Job::Process(_)));
    assert!(matches!(executed[2], Job::NoOp));
    assert_eq!(responses.len(), 2);
    assert_eq!(responses[0].request_id, "1");
    assert_eq!(responses[1].request_id, "2");
    assert!(core.jobs.is_empty());

    push_job(&mut core, Job::Process(r#"["3","ping"]"#.to_string()));
    assert_eq!(core.jobs.len(), 1);
    assert_eq!(executed.len(), 3);
}

#[test]
fn app_shutdown_message_lowers_the_run_flag() {
    let mut core = init();
    push_job(&mut core, Job::Process(r#"["1","app:shutdown"]"#.to_string()));
    let (executed, responses) = run(&mut core);
    assert!(!core.running);
    assert_eq!(responses.len(), 1);
    assert!(responses[0].body.is_ok());
    assert!(matches!(executed.last(), Some(Job::NoOp)));
    assert!(core.jobs.is_empty());
}

#[test]
fn malformed_message_produces_no_response_but_loop_goes_on() {
    let mut core = init();
    push_job(&mut core, Job::Process("not json at all".to_string()));
    push_job(&mut core, Job::Process(r#"["2","ping"]"#.to_string()));
    let (executed, responses) = run(&mut core);
    assert_eq!(executed.len(), 2);
    assert_eq!(responses.len(), 1);
    assert_eq!(responses[0].request_id, "2");
}

#[test]
fn emitter_triggers_in_binding_order_and_unbind_removes() {
    let mut e = Emitter::new();
    let t1 = e.bind(EventKind::AppShutdown);
    let t2 = e.bind(EventKind::AppShutdown);
    let t3 = e.bind(EventKind::SyncOutgoingFailure);
    assert_eq!(e.trigger(EventKind::AppShutdown), vec![t1, t2]);
    assert_eq!(e.trigger(EventKind::SyncOutgoingFailure), vec![t3]);
    assert!(e.unbind(EventKind::AppShutdown, t1));
    assert_eq!(e.trigger(EventKind::AppShutdown), vec![t2]);
    assert!(!e.unbind(EventKind::AppShutdown, t1));
    let snapshot = e.trigger(EventKind::AppShutdown);
    let t4 = e.bind(EventKind::AppShutdown);
    assert_eq!(snapshot, vec![t2]);
    assert_eq!(e.trigger(EventKind::AppShutdown), vec![t2, t4]);
}

#[test]
fn config_reads_values_and_falls_back() {
    let cfg = process_config(
        r#"{"data_folder":"/data/turtl","api":{"endpoint":"https://api.example.test"},"schema":{"notes":{}}}"#,
        None,
    );
    assert_eq!(cfg.data_folder, "/data/turtl");
    assert_eq!(cfg.api_endpoint, "https://api.example.test");
    assert!(matches!(cfg.schema, JsonVal::Object(_)));

    let cfg = process_config("not json", None);
    assert_eq!(cfg.data_folder, "/tmp/turtl.sql");
    assert_eq!(cfg.api_endpoint, "https://api.turtlapp.com/v2");

    let saved = "https://saved.example.test".to_string();
    let cfg = process_config("{}", Some(&saved));
    assert_eq!(cfg.api_endpoint, "https://saved.example.test");
}
