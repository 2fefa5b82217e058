use youwee::session::{
    Action, ProgressStatus, Session, SessionEvent, SessionKind, SessionState,
    metadata_progress_of,
};

fn fresh_download() -> Session {
    Session::new_download(
        "id-1".to_string(),
        "https://example.test/v".to_string(),
        "/out".to_string(),
        "mp4".to_string(),
    )
}

fn fresh_metadata() -> Session {
    Session::new_metadata(
        "id-2".to_string(),
        "https://example.test/v".to_string(),
        "/out".to_string(),
        "info.json, thumbnail.jpg".to_string(),
    )
}

fn start(s: &mut Session) -> Vec<Action> {
    let mut acts = s.step(SessionEvent::SpawnStarted);
    acts.extend(s.step(SessionEvent::SpawnOk));
    acts
}

fn terminal_count(acts: &[Action]) -> usize {
    acts.iter()
        .filter(|a| matches!(a, Action::EmitTerminal(_)))
        .count()
}

fn history_count(acts: &[Action]) -> usize {
    acts.iter()
        .filter(|a| matches!(a, Action::AppendHistory(_)))
        .count()
}

#[test]
fn unmatched_line_changes_nothing() {
    let mut s = fresh_download();
    start(&mut s);
    let title_before = s.title.clone();
    let acts = s.step(SessionEvent::StdoutLine("[youtube] extracting URL".to_string()));
    assert!(acts.is_empty());
    assert_eq!(s.state, SessionState::Running);
    assert_eq!(s.title, title_before);
    assert_eq!(s.playlist_index, None);
    assert_eq!(s.last_percent, 0);
}

#[test]
fn progress_line_emits_event() {
    let mut s = fresh_download();
    start(&mut s);
    let acts = s.step(SessionEvent::StdoutLine(
        "[download]  42.0% of 10MiB at 1.2MiB/s ETA 00:05".to_string(),
    ));
    assert_eq!(acts.len(), 1);
    match &acts[0] {
        Action::EmitProgress(e) => {
            assert_eq!(e.id, "id-1");
            assert_eq!(e.percent, 4200);
            assert_eq!(e.speed, "1.2MiB/s");
            assert_eq!(e.eta, "00:05");
            assert_eq!(e.status, ProgressStatus::Downloading);
            assert_eq!(e.error_message, None);
        }
        other => panic!("progress event expected, got {:?}", other),
    }
}

#[test]
fn playlist_marker_is_reused_by_later_progress() {
    let mut s = fresh_download();
    start(&mut s);
    let acts = s.step(SessionEvent::StdoutLine(
        "[download] Downloading item 3 of 10".to_string(),
    ));
    assert!(acts.is_empty());
    assert_eq!(s.playlist_index, Some(3));
    assert_eq!(s.playlist_count, Some(10));
    let acts = s.step(SessionEvent::StdoutLine("[download] 10.0% of 5MiB".to_string()));
    match &acts[0] {
        Action::EmitProgress(e) => {
            assert_eq!(e.playlist_index, Some(3));
            assert_eq!(e.playlist_count, Some(10));
        }
        other => panic!("progress event expected, got {:?}", other),
    }
    // A newer marker replaces the position.
    s.step(SessionEvent::StdoutLine("[download] Downloading item 4 of 10".to_string()));
    let acts = s.step(SessionEvent::StdoutLine("[download] 1.0% of 5MiB".to_string()));
    match &acts[0] {
        Action::EmitProgress(e) => assert_eq!(e.playlist_index, Some(4)),
        other => panic!("progress event expected, got {:?}", other),
    }
}

#[test]
fn emitted_percent_is_monotone() {
    let mut s = fresh_download();
    start(&mut s);
    s.step(SessionEvent::StdoutLine("[download] 42.0% of 1MiB".to_string()));
    let acts = s.step(SessionEvent::StdoutLine("[download] 17.0% of 1MiB".to_string()));
    match &acts[0] {
        Action::EmitProgress(e) => assert_eq!(e.percent, 4200),
        other => panic!("progress event expected, got {:?}", other),
    }
}

#[test]
fn title_from_destination_reaches_events() {
    let mut s = fresh_download();
    start(&mut s);
    s.step(SessionEvent::StdoutLine(
        "[download] Destination: /out/My Clip.mp4".to_string(),
    ));
    assert_eq!(s.title.as_deref(), Some("My Clip"));
    let acts = s.step(SessionEvent::StdoutLine("[download] 50.0% of 1MiB".to_string()));
    match &acts[0] {
        Action::EmitProgress(e) => assert_eq!(e.title.as_deref(), Some("My Clip")),
        other => panic!("progress event expected, got {:?}", other),
    }
}

#[test]
fn successful_exit_emits_finished_and_history() {
    let mut s = fresh_download();
    start(&mut s);
    s.step(SessionEvent::StdoutLine(
        "[download] Destination: /out/My Clip.mp4".to_string(),
    ));
    let acts = s.step(SessionEvent::Exited(true));
    assert_eq!(s.state, SessionState::Succeeded);
    assert_eq!(acts.len(), 3);
    assert!(matches!(acts[0], Action::LogLine(_)));
    match &acts[1] {
        Action::AppendHistory(h) => {
            assert_eq!(h.url, "https://example.test/v");
            assert_eq!(h.title, "My Clip");
            assert_eq!(h.destination, "/out");
            assert_eq!(h.kind, SessionKind::Download);
            assert_eq!(h.detail, "mp4");
            assert_eq!(h.source, "download");
        }
        other => panic!("history record expected, got {:?}", other),
    }
    match &acts[2] {
        Action::EmitTerminal(e) => {
            assert_eq!(e.percent, 10000);
            assert_eq!(e.status, ProgressStatus::Finished);
            assert_eq!(e.error_message, None);
        }
        other => panic!("terminal event expected, got {:?}", other),
    }
}

#[test]
fn failed_exit_carries_captured_error() {
    let mut s = fresh_download();
    start(&mut s);
    let acts = s.step(SessionEvent::StderrLine("ERROR: Video unavailable".to_string()));
    assert!(matches!(acts[0], Action::LogLine(_)));
    // A later error line does not overwrite the first.
    s.step(SessionEvent::StderrLine("ERROR: something else".to_string()));
    let acts = s.step(SessionEvent::Exited(false));
    assert_eq!(s.state, SessionState::Failed);
    assert_eq!(history_count(&acts), 0);
    match &acts[1] {
        Action::EmitTerminal(e) => {
            assert_eq!(e.status, ProgressStatus::Error);
            assert_eq!(e.error_message.as_deref(), Some("ERROR: Video unavailable"));
        }
        other => panic!("terminal event expected, got {:?}", other),
    }
}

#[test]
fn failed_exit_without_error_uses_default() {
    let mut s = fresh_download();
    start(&mut s);
    let acts = s.step(SessionEvent::Exited(false));
    match &acts[1] {
        Action::EmitTerminal(e) => {
            assert_eq!(e.error_message.as_deref(), Some("Download failed"));
        }
        other => panic!("terminal event expected, got {:?}", other),
    }
}

#[test]
fn cancellation_kills_and_emits_cancelled() {
    let mut s = fresh_download();
    start(&mut s);
    s.step(SessionEvent::StderrLine("ERROR: will be ignored".to_string()));
    let acts = s.step(SessionEvent::CancelRequested);
    assert_eq!(s.state, SessionState::Cancelled);
    assert!(matches!(acts[0], Action::KillChild));
    assert!(matches!(acts[1], Action::KillSweep));
    assert_eq!(history_count(&acts), 0);
    match &acts[3] {
        Action::EmitTerminal(e) => {
            assert_eq!(e.status, ProgressStatus::Cancelled);
            // Cancellation is never conflated with failure.
            assert_eq!(e.error_message, None);
        }
        other => panic!("terminal event expected, got {:?}", other),
    }
    // The process exiting afterwards changes nothing and emits nothing.
    let acts = s.step(SessionEvent::Exited(false));
    assert!(acts.is_empty());
    assert_eq!(s.state, SessionState::Cancelled);
}

#[test]
fn exactly_one_terminal_event_per_session() {
    let mut s = fresh_download();
    let mut all: Vec<Action> = start(&mut s);
    for i in 1..=50 {
        let line = format!("[download] {}.0% of 10MiB at 1.2MiB/s ETA 00:05", i);
        all.extend(s.step(SessionEvent::StdoutLine(line)));
    }
    all.extend(s.step(SessionEvent::Exited(true)));
    assert_eq!(terminal_count(&all), 1);
    // Idempotent cancel requests after the terminal state add no events.
    let late = s.step(SessionEvent::CancelRequested);
    assert_eq!(terminal_count(&late), 0);
    assert!(late.iter().all(|a| matches!(a, Action::KillSweep)));
    let later = s.step(SessionEvent::CancelRequested);
    assert_eq!(terminal_count(&later), 0);
    assert_eq!(s.state, SessionState::Succeeded);
}

#[test]
fn spawn_failure_is_terminal_with_message() {
    let mut s = fresh_download();
    s.step(SessionEvent::SpawnStarted);
    let acts = s.step(SessionEvent::SpawnFailed("yt-dlp not found".to_string()));
    assert_eq!(s.state, SessionState::Failed);
    assert_eq!(terminal_count(&acts), 1);
    match &acts[1] {
        Action::EmitTerminal(e) => {
            assert_eq!(e.status, ProgressStatus::Error);
            assert_eq!(e.error_message.as_deref(), Some("yt-dlp not found"));
        }
        other => panic!("terminal event expected, got {:?}", other),
    }
}

#[test]
fn cancel_before_spawn_has_no_effect() {
    let mut s = fresh_download();
    let acts = s.step(SessionEvent::CancelRequested);
    assert!(acts.is_empty());
    assert_eq!(s.state, SessionState::Idle);
}

#[test]
fn metadata_session_discovers_fields_once() {
    let mut s = fresh_metadata();
    let acts = s.step(SessionEvent::SpawnStarted);
    // A metadata session announces itself as fetching when spawning begins.
    assert_eq!(acts.len(), 1);
    match &acts[0] {
        Action::EmitProgress(e) => assert_eq!(e.status, ProgressStatus::Fetching),
        other => panic!("progress event expected, got {:?}", other),
    }
    s.step(SessionEvent::SpawnOk);
    let acts = s.step(SessionEvent::StdoutLine(
        "My Video|||https://img.example/t.jpg|||213".to_string(),
    ));
    assert_eq!(s.title.as_deref(), Some("My Video"));
    assert_eq!(s.thumbnail.as_deref(), Some("https://img.example/t.jpg"));
    assert_eq!(s.duration, Some(213));
    assert_eq!(acts.len(), 1);
    // A second print does not overwrite the discovery.
    let acts = s.step(SessionEvent::StdoutLine("Other|||NA|||5".to_string()));
    assert!(acts.is_empty());
    assert_eq!(s.title.as_deref(), Some("My Video"));
}

#[test]
fn metadata_success_records_history_with_metadata_kind() {
    let mut s = fresh_metadata();
    start(&mut s);
    s.step(SessionEvent::StdoutLine("My Video|||NA|||213".to_string()));
    let acts = s.step(SessionEvent::Exited(true));
    match &acts[1] {
        Action::AppendHistory(h) => {
            assert_eq!(h.kind, SessionKind::Metadata);
            assert_eq!(h.title, "My Video");
            assert_eq!(h.duration, Some(213));
            assert_eq!(h.detail, "info.json, thumbnail.jpg");
            assert_eq!(h.source, "metadata");
        }
        other => panic!("history record expected, got {:?}", other),
    }
}

#[test]
fn metadata_failure_uses_default_message() {
    let mut s = fresh_metadata();
    start(&mut s);
    let acts = s.step(SessionEvent::Exited(false));
    match &acts[1] {
        Action::EmitTerminal(e) => {
            assert_eq!(e.error_message.as_deref(), Some("Failed to fetch metadata"));
        }
        other => panic!("terminal event expected, got {:?}", other),
    }
}

#[test]
fn metadata_progress_projection() {
    let mut s = fresh_metadata();
    start(&mut s);
    s.step(SessionEvent::StdoutLine("My Video|||https://t.example/i.jpg|||9".to_string()));
    let acts = s.step(SessionEvent::Exited(true));
    match &acts[2] {
        Action::EmitTerminal(e) => {
            let m = metadata_progress_of(e, &s.thumbnail);
            assert_eq!(m.id, "id-2");
            assert_eq!(m.status, ProgressStatus::Finished);
            assert_eq!(m.title.as_deref(), Some("My Video"));
            assert_eq!(m.thumbnail.as_deref(), Some("https://t.example/i.jpg"));
            assert_eq!(m.error_message, None);
        }
        other => panic!("terminal event expected, got {:?}", other),
    }
}
