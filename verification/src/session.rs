//! Per-session supervision state machine. A session folds the events of one
//! supervised external-process run — spawn outcome, output lines, the cancel
//! request, the exit status — into its state, and answers each event with the
//! actions the runtime must perform: events to emit, lines to log, processes
//! to kill, and the history record of a successful run. Terminal states are
//! absorbing, and exactly one terminal event is emitted per session.

use vstd::prelude::*;
use crate::parse::{
    spec_playlist_pos, spec_playlist_index, spec_playlist_count, spec_title,
    spec_has_progress, spec_progress_percent, spec_progress_speed, spec_progress_eta,
    spec_metadata, MetaView, MetadataLine, parse_playlist_marker, parse_progress,
    extract_title, parse_metadata_line,
};
use crate::strutil::contains_sub;

verus! {

/// What a session supervises: a download or a metadata fetch.
#[derive(Clone, Copy, PartialEq, Eq, Structural, Debug)]
pub enum SessionKind {
    Download,
    Metadata,
}

/// Lifecycle of a session. The last three states are terminal and absorbing.
#[derive(Clone, Copy, PartialEq, Eq, Structural, Debug)]
pub enum SessionState {
    Idle,
    Spawning,
    Running,
    Succeeded,
    Failed,
    Cancelled,
}

/// Status carried by an emitted event.
#[derive(Clone, Copy, PartialEq, Eq, Structural, Debug)]
pub enum ProgressStatus {
    Fetching,
    Downloading,
    Finished,
    Error,
    Cancelled,
}

/// The state is terminal: no later event changes it.
pub open spec fn spec_is_terminal(st: SessionState) -> bool {
    st == SessionState::Succeeded || st == SessionState::Failed || st
        == SessionState::Cancelled
}

/// Immutable snapshot emitted to the caller. Percent is in hundredths of a
/// percent. The error message is set exactly when the status is `Error`.
#[derive(Clone, Debug)]
pub struct ProgressEvent {
    pub id: String,
    pub percent: u64,
    pub speed: String,
    pub eta: String,
    pub status: ProgressStatus,
    pub title: Option<String>,
    pub playlist_index: Option<u32>,
    pub playlist_count: Option<u32>,
    pub error_message: Option<String>,
}

/// Record of one successful run, handed to the history sink.
#[derive(Clone, Debug)]
pub struct HistoryRecord {
    pub url: String,
    pub title: String,
    pub thumbnail: Option<String>,
    pub destination: String,
    pub file_size: Option<u64>,
    pub duration: Option<u64>,
    pub kind: SessionKind,
    pub detail: String,
    pub source: String,
}

/// Snapshot of a metadata fetch for the caller, shaped for the metadata
/// event channel.
#[derive(Clone, Debug)]
pub struct MetadataProgress {
    pub id: String,
    pub status: ProgressStatus,
    pub title: Option<String>,
    pub thumbnail: Option<String>,
    pub error_message: Option<String>,
}

/// One event observed by the supervision loop.
#[derive(Debug)]
pub enum SessionEvent {
    /// The argument vector is assembled and the spawn is being attempted.
    SpawnStarted,
    /// The external process started.
    SpawnOk,
    /// The executable was not found or the process could not start.
    SpawnFailed(String),
    /// One line of the process's standard output.
    StdoutLine(String),
    /// One line of the process's standard error.
    StderrLine(String),
    /// The cancel flag was observed set.
    CancelRequested,
    /// The process exited on its own; the payload tells whether successfully.
    Exited(bool),
}

/// One action the runtime must perform in answer to an event.
#[derive(Clone, Debug)]
pub enum Action {
    /// Emit a progress event to the caller.
    EmitProgress(ProgressEvent),
    /// Emit the terminal event of the session to the caller.
    EmitTerminal(ProgressEvent),
    /// Append a line to the log sink.
    LogLine(String),
    /// Kill the direct child process.
    KillChild,
    /// Sweep-kill helper processes matching the known tool names.
    KillSweep,
    /// Append a record to the history sink.
    AppendHistory(HistoryRecord),
}

/// One in-flight supervised operation.
#[derive(Debug)]
pub struct Session {
    /// Caller-supplied correlation token.
    pub id: String,
    /// Source address, immutable for the session's lifetime.
    pub url: String,
    /// Whether this run downloads media or fetches metadata.
    pub kind: SessionKind,
    /// Lifecycle state.
    pub state: SessionState,
    /// Title discovered from process output; never cleared once set.
    pub title: Option<String>,
    /// Thumbnail address discovered from process output.
    pub thumbnail: Option<String>,
    /// Duration in whole seconds discovered from process output.
    pub duration: Option<u64>,
    /// Playlist position reported by the newest marker.
    pub playlist_index: Option<u32>,
    /// Playlist size reported by the newest marker.
    pub playlist_count: Option<u32>,
    /// First captured error line; set at most once.
    pub last_error: Option<String>,
    /// Highest percent emitted so far, in hundredths.
    pub last_percent: u64,
    /// Directory the run writes into; the history record's destination.
    pub output_dir: String,
    /// Format name of a download, or the list of artifact kinds of a
    /// metadata fetch.
    pub detail: String,
}

/// View of an optional owned string.
pub open spec fn ov(o: Option<String>) -> Option<Seq<char>> {
    match o {
        Some(s) => Some(s@),
        None => None,
    }
}

/// The session's well-formedness: the emitted percent never passes one
/// hundred percent.
pub open spec fn session_wf(s: Session) -> bool {
    s.last_percent <= 10000
}

/// The fields that identify a session never change.
pub open spec fn same_identity(a: Session, b: Session) -> bool {
    &&& a.id@ == b.id@
    &&& a.url@ == b.url@
    &&& a.kind == b.kind
    &&& a.output_dir@ == b.output_dir@
    &&& a.detail@ == b.detail@
}

/// The aggregated fields are unchanged between two session values.
pub open spec fn same_aggregate(a: Session, b: Session) -> bool {
    &&& ov(a.title) == ov(b.title)
    &&& ov(a.thumbnail) == ov(b.thumbnail)
    &&& a.duration == b.duration
    &&& a.playlist_index == b.playlist_index
    &&& a.playlist_count == b.playlist_count
    &&& ov(a.last_error) == ov(b.last_error)
    &&& a.last_percent == b.last_percent
}

/// The event neither changed the session nor demanded any action.
pub open spec fn no_effect(pre: Session, post: Session, acts: Seq<Action>) -> bool {
    post.state == pre.state && same_aggregate(pre, post) && acts.len() == 0
}

/// The event's fields match the given values.
pub open spec fn ev_matches(
    e: ProgressEvent,
    id: Seq<char>,
    percent: int,
    speed: Seq<char>,
    eta: Seq<char>,
    status: ProgressStatus,
    title: Option<Seq<char>>,
    pi: Option<u32>,
    pc: Option<u32>,
    err: Option<Seq<char>>,
) -> bool {
    &&& e.id@ == id
    &&& e.percent == percent
    &&& e.speed@ == speed
    &&& e.eta@ == eta
    &&& e.status == status
    &&& ov(e.title) == title
    &&& e.playlist_index == pi
    &&& e.playlist_count == pc
    &&& ov(e.error_message) == err
}

/// An event's error message stands exactly when its status is `Error`.
pub open spec fn event_wf(e: ProgressEvent) -> bool {
    (e.error_message is Some) <==> (e.status == ProgressStatus::Error)
}

/// Every event among the actions is well-formed.
pub open spec fn acts_events_wf(acts: Seq<Action>) -> bool {
    forall|i: int| 0 <= i < acts.len() ==> match #[trigger] acts[i] {
        Action::EmitProgress(e) => event_wf(e),
        Action::EmitTerminal(e) => event_wf(e),
        _ => true,
    }
}

/// Number of terminal events among the actions.
pub open spec fn terminal_emits(acts: Seq<Action>) -> int
    decreases acts.len(),
{
    if acts.len() == 0 {
        0
    } else {
        terminal_emits(acts.drop_last()) + if acts.last() is EmitTerminal {
            1int
        } else {
            0int
        }
    }
}

/// Log line of a cancelled session.
pub open spec fn cancel_msg(k: SessionKind) -> Seq<char> {
    if k == SessionKind::Download {
        "Download cancelled"@
    } else {
        "Metadata fetch cancelled"@
    }
}

/// Failure message used when no error line was captured.
pub open spec fn default_failure_msg(k: SessionKind) -> Seq<char> {
    if k == SessionKind::Download {
        "Download failed"@
    } else {
        "Failed to fetch metadata"@
    }
}

/// Message of a failed session: the first captured error line, or a default.
pub open spec fn failure_msg(pre: Session) -> Seq<char> {
    match ov(pre.last_error) {
        Some(m) => m,
        None => default_failure_msg(pre.kind),
    }
}

/// The discovered title, or a placeholder where none was discovered.
pub open spec fn spec_title_or_unknown(t: Option<Seq<char>>) -> Seq<char> {
    match t {
        Some(x) => x,
        None => "Unknown"@,
    }
}

/// Name of a session kind, as recorded in history.
pub open spec fn kind_name(k: SessionKind) -> Seq<char> {
    if k == SessionKind::Download {
        "download"@
    } else {
        "metadata"@
    }
}

/// Log line of a successful session.
pub open spec fn success_msg(pre: Session) -> Seq<char> {
    if pre.kind == SessionKind::Download {
        "Download finished: "@ + spec_title_or_unknown(ov(pre.title))
    } else {
        "Metadata fetched: "@ + spec_title_or_unknown(ov(pre.title)) + " ("@
            + pre.detail@ + ")"@
    }
}

/// The history record of a successful run, built from the session.
pub open spec fn hist_matches(h: HistoryRecord, pre: Session) -> bool {
    &&& h.url@ == pre.url@
    &&& h.title@ == spec_title_or_unknown(ov(pre.title))
    &&& ov(h.thumbnail) == ov(pre.thumbnail)
    &&& h.destination@ == pre.output_dir@
    &&& h.file_size is None
    &&& h.duration == pre.duration
    &&& h.kind == pre.kind
    &&& h.detail@ == pre.detail@
    &&& h.source@ == kind_name(pre.kind)
}

/// How a running session folds one line of standard output, and what it
/// emits for it. A line without any recognized marker leaves the session
/// unchanged and emits nothing.
pub open spec fn stdout_case(
    pre: Session,
    post: Session,
    lv: Seq<char>,
    acts: Seq<Action>,
) -> bool {
    if pre.kind == SessionKind::Download {
        let pi2 = if spec_playlist_pos(lv) is Some {
            spec_playlist_index(lv)
        } else {
            pre.playlist_index
        };
        let pc2 = if spec_playlist_pos(lv) is Some {
            spec_playlist_count(lv)
        } else {
            pre.playlist_count
        };
        let t2 = match spec_title(lv) {
            Some(t) => Some(t),
            None => ov(pre.title),
        };
        &&& post.state == SessionState::Running
        &&& post.playlist_index == pi2
        &&& post.playlist_count == pc2
        &&& ov(post.title) == t2
        &&& ov(post.thumbnail) == ov(pre.thumbnail)
        &&& post.duration == pre.duration
        &&& ov(post.last_error) == ov(pre.last_error)
        &&& if spec_has_progress(lv) {
            let pm = if spec_progress_percent(lv) > pre.last_percent {
                spec_progress_percent(lv) as int
            } else {
                pre.last_percent as int
            };
            &&& post.last_percent == pm
            &&& acts.len() == 1
            &&& acts[0] matches Action::EmitProgress(e) && ev_matches(
                e,
                pre.id@,
                pm,
                spec_progress_speed(lv),
                spec_progress_eta(lv),
                ProgressStatus::Downloading,
                t2,
                pi2,
                pc2,
                None,
            )
        } else {
            post.last_percent == pre.last_percent && acts.len() == 0
        }
    } else {
        match spec_metadata(lv) {
            MetaView::Structured(f) => if pre.title is None {
                &&& post.state == SessionState::Running
                &&& ov(post.title) == Some(f.title)
                &&& ov(post.thumbnail) == f.thumbnail
                &&& post.duration == f.duration
                &&& post.playlist_index == pre.playlist_index
                &&& post.playlist_count == pre.playlist_count
                &&& ov(post.last_error) == ov(pre.last_error)
                &&& post.last_percent == pre.last_percent
                &&& acts.len() == 1
                &&& acts[0] matches Action::EmitProgress(e) && ev_matches(
                    e,
                    pre.id@,
                    pre.last_percent as int,
                    Seq::empty(),
                    Seq::empty(),
                    ProgressStatus::Fetching,
                    Some(f.title),
                    pre.playlist_index,
                    pre.playlist_count,
                    None,
                )
            } else {
                no_effect(pre, post, acts)
            },
            MetaView::Plain(t) => if pre.title is None {
                &&& post.state == SessionState::Running
                &&& ov(post.title) == Some(t)
                &&& ov(post.thumbnail) == ov(pre.thumbnail)
                &&& post.duration == pre.duration
                &&& post.playlist_index == pre.playlist_index
                &&& post.playlist_count == pre.playlist_count
                &&& ov(post.last_error) == ov(pre.last_error)
                &&& post.last_percent == pre.last_percent
                &&& acts.len() == 1
                &&& acts[0] matches Action::EmitProgress(e) && ev_matches(
                    e,
                    pre.id@,
                    pre.last_percent as int,
                    Seq::empty(),
                    Seq::empty(),
                    ProgressStatus::Fetching,
                    Some(t),
                    pre.playlist_index,
                    pre.playlist_count,
                    None,
                )
            } else {
                no_effect(pre, post, acts)
            },
            MetaView::NoInfo => no_effect(pre, post, acts),
        }
    }
}

/// The whole transition relation of a non-terminal session: for each event,
/// the exact next state and the exact actions.
pub open spec fn step_case(
    pre: Session,
    post: Session,
    event: SessionEvent,
    acts: Seq<Action>,
) -> bool {
    match event {
        SessionEvent::SpawnStarted => if pre.state == SessionState::Idle {
            &&& post.state == SessionState::Spawning
            &&& same_aggregate(pre, post)
            &&& if pre.kind == SessionKind::Metadata {
                &&& acts.len() == 1
                &&& acts[0] matches Action::EmitProgress(e) && ev_matches(
                    e,
                    pre.id@,
                    pre.last_percent as int,
                    Seq::empty(),
                    Seq::empty(),
                    ProgressStatus::Fetching,
                    ov(pre.title),
                    pre.playlist_index,
                    pre.playlist_count,
                    None,
                )
            } else {
                acts.len() == 0
            }
        } else {
            no_effect(pre, post, acts)
        },
        SessionEvent::SpawnOk => if pre.state == SessionState::Spawning {
            post.state == SessionState::Running && same_aggregate(pre, post)
                && acts.len() == 0
        } else {
            no_effect(pre, post, acts)
        },
        SessionEvent::SpawnFailed(msg) => if pre.state == SessionState::Spawning {
            &&& post.state == SessionState::Failed
            &&& ov(post.title) == ov(pre.title)
            &&& ov(post.thumbnail) == ov(pre.thumbnail)
            &&& post.duration == pre.duration
            &&& post.playlist_index == pre.playlist_index
            &&& post.playlist_count == pre.playlist_count
            &&& post.last_percent == pre.last_percent
            &&& ov(post.last_error) == (if pre.last_error is Some {
                ov(pre.last_error)
            } else {
                Some(msg@)
            })
            &&& acts.len() == 2
            &&& acts[0] matches Action::LogLine(m) && m@ == msg@
            &&& acts[1] matches Action::EmitTerminal(e) && ev_matches(
                e,
                pre.id@,
                pre.last_percent as int,
                Seq::empty(),
                Seq::empty(),
                ProgressStatus::Error,
                ov(pre.title),
                pre.playlist_index,
                pre.playlist_count,
                Some(msg@),
            )
        } else {
            no_effect(pre, post, acts)
        },
        SessionEvent::StdoutLine(l) => if pre.state == SessionState::Running {
            stdout_case(pre, post, l@, acts)
        } else {
            no_effect(pre, post, acts)
        },
        SessionEvent::StderrLine(l) => if pre.state == SessionState::Running {
            &&& post.state == SessionState::Running
            &&& ov(post.title) == ov(pre.title)
            &&& ov(post.thumbnail) == ov(pre.thumbnail)
            &&& post.duration == pre.duration
            &&& post.playlist_index == pre.playlist_index
            &&& post.playlist_count == pre.playlist_count
            &&& post.last_percent == pre.last_percent
            &&& ov(post.last_error) == (if pre.last_error is Some || !contains_sub(
                l@,
                "ERROR"@,
            ) {
                ov(pre.last_error)
            } else {
                Some(l@)
            })
            &&& acts.len() == 1
            &&& acts[0] matches Action::LogLine(m) && m@ == l@
        } else {
            no_effect(pre, post, acts)
        },
        SessionEvent::CancelRequested => if pre.state == SessionState::Running {
            &&& post.state == SessionState::Cancelled
            &&& same_aggregate(pre, post)
            &&& acts.len() == 4
            &&& acts[0] == Action::KillChild
            &&& acts[1] == Action::KillSweep
            &&& acts[2] matches Action::LogLine(m) && m@ == cancel_msg(pre.kind)
            &&& acts[3] matches Action::EmitTerminal(e) && ev_matches(
                e,
                pre.id@,
                pre.last_percent as int,
                Seq::empty(),
                Seq::empty(),
                ProgressStatus::Cancelled,
                ov(pre.title),
                pre.playlist_index,
                pre.playlist_count,
                None,
            )
        } else {
            no_effect(pre, post, acts)
        },
        SessionEvent::Exited(ok) => if pre.state == SessionState::Running {
            if ok {
                &&& post.state == SessionState::Succeeded
                &&& ov(post.title) == ov(pre.title)
                &&& ov(post.thumbnail) == ov(pre.thumbnail)
                &&& post.duration == pre.duration
                &&& post.playlist_index == pre.playlist_index
                &&& post.playlist_count == pre.playlist_count
                &&& ov(post.last_error) == ov(pre.last_error)
                &&& post.last_percent == 10000
                &&& acts.len() == 3
                &&& acts[0] matches Action::LogLine(m) && m@ == success_msg(pre)
                &&& acts[1] matches Action::AppendHistory(h) && hist_matches(h, pre)
                &&& acts[2] matches Action::EmitTerminal(e) && ev_matches(
                    e,
                    pre.id@,
                    10000,
                    Seq::empty(),
                    Seq::empty(),
                    ProgressStatus::Finished,
                    ov(pre.title),
                    pre.playlist_index,
                    pre.playlist_count,
                    None,
                )
            } else {
                &&& post.state == SessionState::Failed
                &&& ov(post.title) == ov(pre.title)
                &&& ov(post.thumbnail) == ov(pre.thumbnail)
                &&& post.duration == pre.duration
                &&& post.playlist_index == pre.playlist_index
                &&& post.playlist_count == pre.playlist_count
                &&& post.last_percent == pre.last_percent
                &&& ov(post.last_error) == Some(failure_msg(pre))
                &&& acts.len() == 2
                &&& acts[0] matches Action::LogLine(m) && m@ == failure_msg(pre)
                &&& acts[1] matches Action::EmitTerminal(e) && ev_matches(
                    e,
                    pre.id@,
                    pre.last_percent as int,
                    Seq::empty(),
                    Seq::empty(),
                    ProgressStatus::Error,
                    ov(pre.title),
                    pre.playlist_index,
                    pre.playlist_count,
                    Some(failure_msg(pre)),
                )
            }
        } else {
            no_effect(pre, post, acts)
        },
    }
}

/// Clones an owned string.
pub fn clone_str(s: &String) -> (r: String)
    ensures
        r@ == s@,
{
    String::from_str(s.as_str())
}

/// Clones an optional owned string.
pub fn clone_opt(o: &Option<String>) -> (r: Option<String>)
    ensures
        ov(r) == ov(*o),
{
    match o {
        Some(s) => Some(clone_str(s)),
        None => None,
    }
}

impl Session {
    /// A fresh download session in its idle state.
    pub fn new_download(id: String, url: String, output_dir: String, format_name: String) -> (s: Session)
        ensures
            s.id@ == id@,
            s.url@ == url@,
            s.kind == SessionKind::Download,
            s.state == SessionState::Idle,
            s.title is None,
            s.thumbnail is None,
            s.duration is None,
            s.playlist_index is None,
            s.playlist_count is None,
            s.last_error is None,
            s.last_percent == 0,
            s.output_dir@ == output_dir@,
            s.detail@ == format_name@,
            session_wf(s),
    {
        Session {
            id,
            url,
            kind: SessionKind::Download,
            state: SessionState::Idle,
            title: None,
            thumbnail: None,
            duration: None,
            playlist_index: None,
            playlist_count: None,
            last_error: None,
            last_percent: 0,
            output_dir,
            detail: format_name,
        }
    }

    /// A fresh metadata session in its idle state; `detail` names the
    /// artifact kinds the fetch will save.
    pub fn new_metadata(id: String, url: String, output_dir: String, detail: String) -> (s: Session)
        ensures
            s.id@ == id@,
            s.url@ == url@,
            s.kind == SessionKind::Metadata,
            s.state == SessionState::Idle,
            s.title is None,
            s.thumbnail is None,
            s.duration is None,
            s.playlist_index is None,
            s.playlist_count is None,
            s.last_error is None,
            s.last_percent == 0,
            s.output_dir@ == output_dir@,
            s.detail@ == detail@,
            session_wf(s),
    {
        Session {
            id,
            url,
            kind: SessionKind::Metadata,
            state: SessionState::Idle,
            title: None,
            thumbnail: None,
            duration: None,
            playlist_index: None,
            playlist_count: None,
            last_error: None,
            last_percent: 0,
            output_dir,
            detail,
        }
    }

    /// The session reached a terminal state.
    pub fn is_terminal(&self) -> (r: bool)
        ensures
            r == spec_is_terminal(self.state),
    {
        match self.state {
            SessionState::Succeeded => true,
            SessionState::Failed => true,
            SessionState::Cancelled => true,
            _ => false,
        }
    }
}

/// Terminal-event count of an action list of at most four entries, spelled
/// out per position.
proof fn lemma_terminal_emits_upto4(a: Seq<Action>)
    requires
        a.len() <= 4,
    ensures
        terminal_emits(a) == (if a.len() >= 1 && a[0] is EmitTerminal {
            1int
        } else {
            0int
        }) + (if a.len() >= 2 && a[1] is EmitTerminal {
            1int
        } else {
            0int
        }) + (if a.len() >= 3 && a[2] is EmitTerminal {
            1int
        } else {
            0int
        }) + (if a.len() >= 4 && a[3] is EmitTerminal {
            1int
        } else {
            0int
        }),
    decreases a.len(),
{
    if a.len() > 0 {
        lemma_terminal_emits_upto4(a.drop_last());
    }
}

/// Renders the cancellation log line for a session kind.
fn cancel_message(k: SessionKind) -> (r: String)
    ensures
        r@ == cancel_msg(k),
{
    if k == SessionKind::Download {
        String::from_str("Download cancelled")
    } else {
        String::from_str("Metadata fetch cancelled")
    }
}

/// Renders the default failure message for a session kind.
fn default_failure_message(k: SessionKind) -> (r: String)
    ensures
        r@ == default_failure_msg(k),
{
    if k == SessionKind::Download {
        String::from_str("Download failed")
    } else {
        String::from_str("Failed to fetch metadata")
    }
}

/// The discovered title, or a placeholder.
pub fn title_or_unknown(t: &Option<String>) -> (r: String)
    ensures
        r@ == spec_title_or_unknown(ov(*t)),
{
    match t {
        Some(x) => clone_str(x),
        None => String::from_str("Unknown"),
    }
}

/// Renders the name of a session kind.
fn kind_label(k: SessionKind) -> (r: String)
    ensures
        r@ == kind_name(k),
{
    if k == SessionKind::Download {
        String::from_str("download")
    } else {
        String::from_str("metadata")
    }
}

/// Renders the success log line.
fn success_message(kind: SessionKind, title: &Option<String>, detail: &String) -> (r: String)
    ensures
        r@ == (if kind == SessionKind::Download {
            "Download finished: "@ + spec_title_or_unknown(ov(*title))
        } else {
            "Metadata fetched: "@ + spec_title_or_unknown(ov(*title)) + " ("@ + detail@
                + ")"@
        }),
{
    let t = title_or_unknown(title);
    if kind == SessionKind::Download {
        let mut s = String::from_str("Download finished: ");
        s.append(t.as_str());
        s
    } else {
        let mut s = String::from_str("Metadata fetched: ");
        s.append(t.as_str());
        s.append(" (");
        s.append(detail.as_str());
        s.append(")");
        s
    }
}

impl Session {
    /// Folds one observed event into the session and answers with the exact
    /// actions the runtime must perform. Terminal states are absorbing: a
    /// terminal session changes no more, emits no further event, and only a
    /// repeated cancel request may harmlessly sweep again. A non-terminal
    /// session follows the transition relation `step_case`, and the count of
    /// emitted terminal events is one exactly on the transition into a
    /// terminal state.
    pub fn step(&mut self, event: SessionEvent) -> (acts: Vec<Action>)
        requires
            session_wf(*old(self)),
        ensures
            session_wf(*final(self)),
            same_identity(*old(self), *final(self)),
            spec_is_terminal(old(self).state) ==> final(self).state == old(self).state
                && same_aggregate(*old(self), *final(self)) && terminal_emits(acts@)
                == 0 && (forall|i: int|
                0 <= i < acts@.len() ==> #[trigger] acts@[i] == Action::KillSweep),
            !spec_is_terminal(old(self).state) ==> step_case(
                *old(self),
                *final(self),
                event,
                acts@,
            ),
            terminal_emits(acts@) == (if !spec_is_terminal(old(self).state)
                && spec_is_terminal(final(self).state) {
                1int
            } else {
                0int
            }),
            acts_events_wf(acts@),
            final(self).last_percent >= old(self).last_percent,
            old(self).title is Some ==> final(self).title is Some,
            old(self).last_error is Some ==> ov(final(self).last_error) == ov(
                old(self).last_error,
            ),
    {
        if self.is_terminal() {
            let acts: Vec<Action> = match event {
                SessionEvent::CancelRequested => vec![Action::KillSweep],
                _ => Vec::new(),
            };
            proof {
                lemma_terminal_emits_upto4(acts@);
            }
            return acts;
        }
        match event {
            SessionEvent::SpawnStarted => {
                if !matches!(self.state, SessionState::Idle) {
                    let acts: Vec<Action> = Vec::new();
                    proof {
                        lemma_terminal_emits_upto4(acts@);
                    }
                    return acts;
                }
                self.state = SessionState::Spawning;
                let acts: Vec<Action> = if self.kind == SessionKind::Metadata {
                    let e = ProgressEvent {
                        id: clone_str(&self.id),
                        percent: self.last_percent,
                        speed: String::new(),
                        eta: String::new(),
                        status: ProgressStatus::Fetching,
                        title: clone_opt(&self.title),
                        playlist_index: self.playlist_index,
                        playlist_count: self.playlist_count,
                        error_message: None,
                    };
                    vec![Action::EmitProgress(e)]
                } else {
                    Vec::new()
                };
                proof {
                    lemma_terminal_emits_upto4(acts@);
                }
                acts
            },
            SessionEvent::SpawnOk => {
                if matches!(self.state, SessionState::Spawning) {
                    self.state = SessionState::Running;
                }
                let acts: Vec<Action> = Vec::new();
                proof {
                    lemma_terminal_emits_upto4(acts@);
                }
                acts
            },
            SessionEvent::SpawnFailed(msg) => {
                if !matches!(self.state, SessionState::Spawning) {
                    let acts: Vec<Action> = Vec::new();
                    proof {
                        lemma_terminal_emits_upto4(acts@);
                    }
                    return acts;
                }
                self.state = SessionState::Failed;
                let e = ProgressEvent {
                    id: clone_str(&self.id),
                    percent: self.last_percent,
                    speed: String::new(),
                    eta: String::new(),
                    status: ProgressStatus::Error,
                    title: clone_opt(&self.title),
                    playlist_index: self.playlist_index,
                    playlist_count: self.playlist_count,
                    error_message: Some(clone_str(&msg)),
                };
                if self.last_error.is_none() {
                    self.last_error = Some(clone_str(&msg));
                }
                let acts: Vec<Action> = vec![
                    Action::LogLine(msg),
                    Action::EmitTerminal(e),
                ];
                proof {
                    lemma_terminal_emits_upto4(acts@);
                }
                acts
            },
            SessionEvent::StdoutLine(l) => {
                if !matches!(self.state, SessionState::Running) {
                    let acts: Vec<Action> = Vec::new();
                    proof {
                        lemma_terminal_emits_upto4(acts@);
                    }
                    return acts;
                }
                let acts = self.fold_stdout(&l);
                proof {
                    lemma_terminal_emits_upto4(acts@);
                }
                acts
            },
            SessionEvent::StderrLine(l) => {
                if !matches!(self.state, SessionState::Running) {
                    let acts: Vec<Action> = Vec::new();
                    proof {
                        lemma_terminal_emits_upto4(acts@);
                    }
                    return acts;
                }
                if self.last_error.is_none() && crate::strutil::find_sub(
                    l.as_str(),
                    "ERROR",
                ).is_some() {
                    self.last_error = Some(clone_str(&l));
                }
                let acts: Vec<Action> = vec![Action::LogLine(l)];
                proof {
                    lemma_terminal_emits_upto4(acts@);
                }
                acts
            },
            SessionEvent::CancelRequested => {
                if !matches!(self.state, SessionState::Running) {
                    let acts: Vec<Action> = Vec::new();
                    proof {
                        lemma_terminal_emits_upto4(acts@);
                    }
                    return acts;
                }
                self.state = SessionState::Cancelled;
                let e = ProgressEvent {
                    id: clone_str(&self.id),
                    percent: self.last_percent,
                    speed: String::new(),
                    eta: String::new(),
                    status: ProgressStatus::Cancelled,
                    title: clone_opt(&self.title),
                    playlist_index: self.playlist_index,
                    playlist_count: self.playlist_count,
                    error_message: None,
                };
                let acts: Vec<Action> = vec![
                    Action::KillChild,
                    Action::KillSweep,
                    Action::LogLine(cancel_message(self.kind)),
                    Action::EmitTerminal(e),
                ];
                proof {
                    lemma_terminal_emits_upto4(acts@);
                }
                acts
            },
            SessionEvent::Exited(ok) => {
                if !matches!(self.state, SessionState::Running) {
                    let acts: Vec<Action> = Vec::new();
                    proof {
                        lemma_terminal_emits_upto4(acts@);
                    }
                    return acts;
                }
                if ok {
                    self.state = SessionState::Succeeded;
                    let smsg = success_message(self.kind, &self.title, &self.detail);
                    let h = HistoryRecord {
                        url: clone_str(&self.url),
                        title: title_or_unknown(&self.title),
                        thumbnail: clone_opt(&self.thumbnail),
                        destination: clone_str(&self.output_dir),
                        file_size: None,
                        duration: self.duration,
                        kind: self.kind,
                        detail: clone_str(&self.detail),
                        source: kind_label(self.kind),
                    };
                    let e = ProgressEvent {
                        id: clone_str(&self.id),
                        percent: 10000,
                        speed: String::new(),
                        eta: String::new(),
                        status: ProgressStatus::Finished,
                        title: clone_opt(&self.title),
                        playlist_index: self.playlist_index,
                        playlist_count: self.playlist_count,
                        error_message: None,
                    };
                    self.last_percent = 10000;
                    let acts: Vec<Action> = vec![
                        Action::LogLine(smsg),
                        Action::AppendHistory(h),
                        Action::EmitTerminal(e),
                    ];
                    proof {
                        lemma_terminal_emits_upto4(acts@);
                    }
                    acts
                } else {
                    self.state = SessionState::Failed;
                    let msg: String = match &self.last_error {
                        Some(m) => clone_str(m),
                        None => default_failure_message(self.kind),
                    };
                    let e = ProgressEvent {
                        id: clone_str(&self.id),
                        percent: self.last_percent,
                        speed: String::new(),
                        eta: String::new(),
                        status: ProgressStatus::Error,
                        title: clone_opt(&self.title),
                        playlist_index: self.playlist_index,
                        playlist_count: self.playlist_count,
                        error_message: Some(clone_str(&msg)),
                    };
                    if self.last_error.is_none() {
                        self.last_error = Some(clone_str(&msg));
                    }
                    let acts: Vec<Action> = vec![
                        Action::LogLine(msg),
                        Action::EmitTerminal(e),
                    ];
                    proof {
                        lemma_terminal_emits_upto4(acts@);
                    }
                    acts
                }
            },
        }
    }

    /// Folds one line of standard output into a running session.
    fn fold_stdout(&mut self, l: &String) -> (acts: Vec<Action>)
        requires
            session_wf(*old(self)),
            old(self).state == SessionState::Running,
        ensures
            session_wf(*final(self)),
            same_identity(*old(self), *final(self)),
            stdout_case(*old(self), *final(self), l@, acts@),
            acts@.len() <= 1,
            forall|i: int| 0 <= i < acts@.len() ==> #[trigger] acts@[i] is EmitProgress,
            acts_events_wf(acts@),
            final(self).last_percent >= old(self).last_percent,
            old(self).title is Some ==> final(self).title is Some,
            old(self).last_error is Some ==> ov(final(self).last_error) == ov(
                old(self).last_error,
            ),
    {
        let lstr = l.as_str();
        if self.kind == SessionKind::Download {
            match parse_playlist_marker(lstr) {
                Some((idx, cnt)) => {
                    self.playlist_index = idx;
                    self.playlist_count = cnt;
                },
                None => {},
            }
            match extract_title(lstr) {
                Some(t) => {
                    self.title = Some(t);
                },
                None => {},
            }
            match parse_progress(lstr) {
                Some((p, sp, et, _i, _c)) => {
                    let pm = if p > self.last_percent {
                        p
                    } else {
                        self.last_percent
                    };
                    self.last_percent = pm;
                    let e = ProgressEvent {
                        id: clone_str(&self.id),
                        percent: pm,
                        speed: sp,
                        eta: et,
                        status: ProgressStatus::Downloading,
                        title: clone_opt(&self.title),
                        playlist_index: self.playlist_index,
                        playlist_count: self.playlist_count,
                        error_message: None,
                    };
                    vec![Action::EmitProgress(e)]
                },
                None => Vec::new(),
            }
        } else {
            if self.title.is_some() {
                return Vec::new();
            }
            match parse_metadata_line(lstr) {
                MetadataLine::Structured { title, thumbnail, duration } => {
                    self.title = Some(title);
                    self.thumbnail = thumbnail;
                    self.duration = duration;
                    let e = ProgressEvent {
                        id: clone_str(&self.id),
                        percent: self.last_percent,
                        speed: String::new(),
                        eta: String::new(),
                        status: ProgressStatus::Fetching,
                        title: clone_opt(&self.title),
                        playlist_index: self.playlist_index,
                        playlist_count: self.playlist_count,
                        error_message: None,
                    };
                    vec![Action::EmitProgress(e)]
                },
                MetadataLine::Plain { title } => {
                    self.title = Some(title);
                    let e = ProgressEvent {
                        id: clone_str(&self.id),
                        percent: self.last_percent,
                        speed: String::new(),
                        eta: String::new(),
                        status: ProgressStatus::Fetching,
                        title: clone_opt(&self.title),
                        playlist_index: self.playlist_index,
                        playlist_count: self.playlist_count,
                        error_message: None,
                    };
                    vec![Action::EmitProgress(e)]
                },
                MetadataLine::NoInfo => Vec::new(),
            }
        }
    }
}

/// Shapes a progress event as a metadata snapshot, adding the session's
/// discovered thumbnail.
pub fn metadata_progress_of(event: &ProgressEvent, thumbnail: &Option<String>) -> (m: MetadataProgress)
    ensures
        m.id@ == event.id@,
        m.status == event.status,
        ov(m.title) == ov(event.title),
        ov(m.thumbnail) == ov(*thumbnail),
        ov(m.error_message) == ov(event.error_message),
{
    MetadataProgress {
        id: clone_str(&event.id),
        status: event.status,
        title: clone_opt(&event.title),
        thumbnail: clone_opt(thumbnail),
        error_message: clone_opt(&event.error_message),
    }
}

/// Sum of a sequence of step emission counts.
pub open spec fn sum_ints(s: Seq<int>) -> int
    decreases s.len(),
{
    if s.len() == 0 {
        0
    } else {
        s[0] + sum_ints(s.drop_first())
    }
}

/// A line of standard output without any recognized marker leaves a running
/// session unchanged and demands no action.
pub proof fn lemma_no_marker_no_update(
    pre: Session,
    post: Session,
    l: Seq<char>,
    acts: Seq<Action>,
)
    requires
        pre.state == SessionState::Running,
        stdout_case(pre, post, l, acts),
        pre.kind == SessionKind::Download ==> spec_playlist_pos(l) is None && spec_title(
            l,
        ) is None && !spec_has_progress(l),
        pre.kind == SessionKind::Metadata ==> spec_metadata(l) is NoInfo,
    ensures
        no_effect(pre, post, acts),
{
}

/// Over any run of a session — a sequence of state transitions each of which
/// follows `step`'s contract on terminal emission and on the absorption of
/// terminal states — at most one terminal event is emitted in total: none
/// from a run that starts terminal, and exactly one from a run that starts
/// non-terminal and ends terminal, however many steps and progress lines
/// stand in between.
pub proof fn lemma_single_terminal_emission(states: Seq<SessionState>, emits: Seq<int>)
    requires
        states.len() == emits.len() + 1,
        forall|i: int| 0 <= i < emits.len() ==> #[trigger] emits[i] == (
        if !spec_is_terminal(states[i]) && spec_is_terminal(states[i + 1]) {
            1int
        } else {
            0int
        }),
        forall|i: int| 0 <= i < emits.len() && spec_is_terminal(#[trigger] states[i])
            ==> states[i + 1] == states[i],
    ensures
        sum_ints(emits) <= 1,
        spec_is_terminal(states[0]) ==> sum_ints(emits) == 0,
        !spec_is_terminal(states[0]) && spec_is_terminal(states.last()) ==> sum_ints(
            emits,
        ) == 1,
    decreases emits.len(),
{
    if emits.len() == 0 {
    } else {
        let st2 = states.drop_first();
        let em2 = emits.drop_first();
        assert(st2.len() == em2.len() + 1);
        assert forall|i: int| 0 <= i < em2.len() implies #[trigger] em2[i] == (
        if !spec_is_terminal(st2[i]) && spec_is_terminal(st2[i + 1]) {
            1int
        } else {
            0int
        }) by {
            assert(em2[i] == emits[i + 1]);
            assert(st2[i] == states[i + 1]);
            assert(st2[i + 1] == states[i + 2]);
        }
        assert forall|i: int|
            0 <= i < em2.len() && spec_is_terminal(#[trigger] st2[i]) implies st2[i + 1]
            == st2[i] by {
            assert(st2[i] == states[i + 1]);
            assert(st2[i + 1] == states[i + 2]);
            assert(spec_is_terminal(states[i + 1]));
        }
        lemma_single_terminal_emission(st2, em2);
        assert(emits[0] == (if !spec_is_terminal(states[0]) && spec_is_terminal(
            states[1],
        ) {
            1int
        } else {
            0int
        }));
        assert(st2[0] == states[1]);
        assert(st2.last() == states.last());
        assert(sum_ints(emits) == emits[0] + sum_ints(em2));
    }
}

} // verus!
