use anime_downloader::download::Downloader;
use anime_downloader::errors::AnimeDownloaderError;
use anime_downloader::orchestrator::{
    progress_line, report_from_fields, EngineTaskState, Orchestrator, TaskReport,
};

fn report(state: EngineTaskState) -> TaskReport {
    TaskReport { state, total: 100, completed: 40, rate: 10 }
}

#[test]
fn poll_loop_exits_on_the_first_fully_terminal_tick() {
    let mut orch = Orchestrator::new();
    orch.add_url_link("https://cdn/a".to_string()).unwrap();
    orch.add_url_link("https://cdn/b".to_string()).unwrap();
    orch.add_url_link("https://cdn/c".to_string()).unwrap();
    assert_eq!(orch.links.len(), 3);

    orch.record_task("gid-1".to_string(), "https://cdn/a".to_string());
    orch.record_task("gid-2".to_string(), "https://cdn/b".to_string());
    orch.record_task("gid-3".to_string(), "https://cdn/c".to_string());
    assert!(!orch.all_done());

    // First tick: tasks 1 and 2 finish, task 3 is still active.
    let tick1 = vec![
        report(EngineTaskState::Complete),
        report(EngineTaskState::Complete),
        report(EngineTaskState::Active),
    ];
    orch.apply_tick(&tick1);
    assert!(!orch.all_done());
    assert!(orch.tasks[0].done);
    assert!(orch.tasks[1].done);
    assert!(!orch.tasks[2].done);

    // Second tick: task 3 reaches a terminal state; the loop may now
    // exit, and not before.
    let tick2 = vec![
        report(EngineTaskState::Complete),
        report(EngineTaskState::Complete),
        report(EngineTaskState::Complete),
    ];
    orch.apply_tick(&tick2);
    assert!(orch.all_done());
}

#[test]
fn an_errored_task_counts_as_done() {
    let mut orch = Orchestrator::new();
    orch.record_task("gid-1".to_string(), "https://cdn/a".to_string());
    orch.apply_tick(&vec![report(EngineTaskState::Error)]);
    assert!(orch.all_done());
    assert_eq!(orch.tasks[0].gid, "gid-1");
}

#[test]
fn a_waiting_task_keeps_the_loop_running() {
    let mut orch = Orchestrator::new();
    orch.record_task("gid-1".to_string(), "https://cdn/a".to_string());
    orch.apply_tick(&vec![report(EngineTaskState::Waiting)]);
    assert!(!orch.all_done());
    assert_eq!(orch.tasks[0].total, 100);
    assert_eq!(orch.tasks[0].completed, 40);
}

#[test]
fn done_is_sticky_across_ticks() {
    let mut orch = Orchestrator::new();
    orch.record_task("gid-1".to_string(), "https://cdn/a".to_string());
    orch.apply_tick(&vec![report(EngineTaskState::Complete)]);
    orch.apply_tick(&vec![report(EngineTaskState::Active)]);
    assert!(orch.all_done());
}

#[test]
fn tasks_keep_their_last_reported_state() {
    let mut orch = Orchestrator::new();
    orch.record_task("gid-1".to_string(), "u".to_string());
    orch.record_task("gid-2".to_string(), "v".to_string());
    assert!(matches!(orch.tasks[0].state, EngineTaskState::Waiting));
    orch.apply_tick(&vec![report(EngineTaskState::Complete), report(EngineTaskState::Error)]);
    // Both count as done, but completion and failure stay apart.
    assert!(orch.all_done());
    assert!(matches!(orch.tasks[0].state, EngineTaskState::Complete));
    assert!(matches!(orch.tasks[1].state, EngineTaskState::Error));
}

#[test]
fn incomplete_status_replies_are_typed_errors() {
    let err = report_from_fields(None, Some(1), Some(0), Some(0)).unwrap_err();
    assert!(matches!(err, AnimeDownloaderError::Aria2Error(_)));
    let err =
        report_from_fields(Some(EngineTaskState::Active), Some(1), Some(0), None).unwrap_err();
    assert!(matches!(err, AnimeDownloaderError::Aria2Error(_)));

    let ok = report_from_fields(Some(EngineTaskState::Complete), None, None, None).unwrap();
    assert!(matches!(ok.state, EngineTaskState::Complete));
    assert_eq!(ok.total, 1);
    assert_eq!(ok.completed, 0);
    assert_eq!(ok.rate, 0);

    let ok =
        report_from_fields(Some(EngineTaskState::Active), Some(100), Some(40), Some(10)).unwrap();
    assert_eq!(ok.total, 100);
    assert_eq!(ok.completed, 40);
    assert_eq!(ok.rate, 10);
}

#[test]
fn downloader_name_is_the_engine() {
    let orch = Orchestrator::new();
    assert_eq!(orch.name(), "aria2c");
}

#[test]
fn progress_lines_render_exactly() {
    assert_eq!(
        progress_line("active", 2048, 50, 200),
        "Download progress: active : 2.00 KB/sec : 25.00%"
    );
    assert_eq!(progress_line("active", 0, 0, 0), "Download progress: active : 0%");
    assert_eq!(
        progress_line("waiting", 512, 1, 3),
        "Download progress: waiting : 512.00 B/sec : 33.33%"
    );
}

#[test]
fn state_names_match_the_engine() {
    assert_eq!(EngineTaskState::Active.state_name(), "active");
    assert_eq!(EngineTaskState::Complete.state_name(), "complete");
    assert_eq!(EngineTaskState::Error.state_name(), "error");
}
