use vstd::prelude::*;
use vstd::string::StringExecFns;

use crate::errors::AnimeDownloaderError;
use crate::utils::{human_rate, percent_spec};

verus! {

/// The state the engine reports for one task.
#[derive(Debug, Clone, Copy)]
pub enum EngineTaskState {
    Active,
    Waiting,
    Paused,
    Error,
    Complete,
    Removed,
}

/// Whether a reported state ends the task's life for the poll loop.
/// Completion and failure both count as done, but the last reported
/// state stays on the task so a caller can tell the two apart.
pub open spec fn is_terminal(s: EngineTaskState) -> bool {
    s is Error || s is Complete
}

impl EngineTaskState {
    /// Executable terminal-state test.
    pub fn terminal(&self) -> (r: bool)
        ensures
            r == is_terminal(*self),
    {
        match self {
            EngineTaskState::Error => true,
            EngineTaskState::Complete => true,
            _ => false,
        }
    }

    /// The engine's name for this state.
    pub fn state_name(&self) -> (r: String)
        ensures
            r@ == match self {
                EngineTaskState::Active => "active"@,
                EngineTaskState::Waiting => "waiting"@,
                EngineTaskState::Paused => "paused"@,
                EngineTaskState::Error => "error"@,
                EngineTaskState::Complete => "complete"@,
                EngineTaskState::Removed => "removed"@,
            },
    {
        match self {
            EngineTaskState::Active => "active".to_owned(),
            EngineTaskState::Waiting => "waiting".to_owned(),
            EngineTaskState::Paused => "paused".to_owned(),
            EngineTaskState::Error => "error".to_owned(),
            EngineTaskState::Complete => "complete".to_owned(),
            EngineTaskState::Removed => "removed".to_owned(),
        }
    }
}

/// One status record read back from the engine for one task.
#[derive(Debug, Clone)]
pub struct TaskReport {
    pub state: EngineTaskState,
    pub total: u64,
    pub completed: u64,
    pub rate: u64,
}

/// One submitted download: its engine handle, source URL, the last
/// reported state and byte totals, and whether it has reached a
/// terminal state.
#[derive(Debug, Clone)]
pub struct DownloadTask {
    pub gid: String,
    pub url: String,
    pub state: EngineTaskState,
    pub total: u64,
    pub completed: u64,
    pub done: bool,
}

/// The task list after one polling tick: state and byte totals take the
/// reported values, and a task is done once it has ever been reported
/// terminal.
pub open spec fn ticked(tasks: Seq<DownloadTask>, reports: Seq<TaskReport>) -> Seq<DownloadTask> {
    Seq::new(
        tasks.len(),
        |i: int|
            DownloadTask {
                gid: tasks[i].gid,
                url: tasks[i].url,
                state: reports[i].state,
                total: reports[i].total,
                completed: reports[i].completed,
                done: tasks[i].done || is_terminal(reports[i].state),
            },
    )
}

/// The poll loop's exit law: after applying one tick, every task is done
/// exactly when every task either was already done or is reported
/// terminal on this tick — so the loop exits on the first such tick and
/// no earlier.
pub proof fn lemma_poll_exit(tasks: Seq<DownloadTask>, reports: Seq<TaskReport>)
    requires
        reports.len() == tasks.len(),
    ensures
        (forall|i: int| 0 <= i < tasks.len() ==> ticked(tasks, reports)[i].done) <==> (forall|
            i: int,
        |
            0 <= i < tasks.len() ==> (tasks[i].done || is_terminal(reports[i].state))),
{
    assert forall|i: int| 0 <= i < tasks.len() implies ticked(tasks, reports)[i].done == (
    tasks[i].done || is_terminal(reports[i].state)) by {}
}

/// Drives a set of download tasks: URLs queue up with no network effect
/// until a run submits them to the engine, and the poll loop marks each
/// task done when the engine reports it terminal.
pub struct Orchestrator {
    pub links: Vec<String>,
    pub tasks: Vec<DownloadTask>,
    pub download_path: Option<String>,
}

impl Orchestrator {
    /// A fresh orchestrator with nothing queued.
    pub fn new() -> (r: Self)
        ensures
            r.links@.len() == 0,
            r.tasks@.len() == 0,
            r.download_path is None,
    {
        Orchestrator { links: Vec::new(), tasks: Vec::new(), download_path: None }
    }

    /// Records the handle the engine returned for one submitted URL; the
    /// task starts out waiting, with nothing transferred.
    pub fn record_task(&mut self, gid: String, url: String) -> (r: ())
        ensures
            final(self).tasks@ == old(self).tasks@.push(
                DownloadTask {
                    gid,
                    url,
                    state: EngineTaskState::Waiting,
                    total: 0,
                    completed: 0,
                    done: false,
                },
            ),
            final(self).links@ == old(self).links@,
            final(self).download_path == old(self).download_path,
    {
        self.tasks.push(
            DownloadTask {
                gid,
                url,
                state: EngineTaskState::Waiting,
                total: 0,
                completed: 0,
                done: false,
            },
        );
    }

    /// Applies one polling tick's reports, one per outstanding task, in
    /// order.
    pub fn apply_tick(&mut self, reports: &Vec<TaskReport>)
        requires
            reports@.len() == old(self).tasks@.len(),
        ensures
            final(self).tasks@ == ticked(old(self).tasks@, reports@),
            final(self).links@ == old(self).links@,
            final(self).download_path == old(self).download_path,
    {
        let n = self.tasks.len();
        let mut i: usize = 0;
        while i < n
            invariant
                n == self.tasks@.len(),
                reports@.len() == n,
                i <= n,
                self.tasks@.len() == old(self).tasks@.len(),
                forall|j: int| 0 <= j < i ==> self.tasks@[j] == ticked(old(self).tasks@, reports@)[j],
                forall|j: int| i <= j < n ==> self.tasks@[j] == old(self).tasks@[j],
                self.links@ == old(self).links@,
                self.download_path == old(self).download_path,
            decreases n - i,
        {
            let done = self.tasks[i].done || reports[i].state.terminal();
            let gid = self.tasks[i].gid.clone();
            let url = self.tasks[i].url.clone();
            let updated = DownloadTask {
                gid,
                url,
                state: reports[i].state,
                total: reports[i].total,
                completed: reports[i].completed,
                done,
            };
            self.tasks.set(i, updated);
            i += 1;
        }
        proof {
            assert(self.tasks@ =~= ticked(old(self).tasks@, reports@));
        }
    }

    /// Whether every outstanding task has been reported terminal: the
    /// poll loop's exit condition, true exactly when nothing is left
    /// running.
    pub fn all_done(&self) -> (r: bool)
        ensures
            r == (forall|i: int| 0 <= i < self.tasks@.len() ==> self.tasks@[i].done),
    {
        let n = self.tasks.len();
        let mut i: usize = 0;
        while i < n
            invariant
                n == self.tasks@.len(),
                i <= n,
                forall|j: int| 0 <= j < i ==> self.tasks@[j].done,
            decreases n - i,
        {
            if !self.tasks[i].done {
                return false;
            }
            i += 1;
        }
        true
    }
}

/// One status record built from the engine's optional reply fields: the
/// state must be present, and the rate must be present while the task
/// still runs; a reply without them is malformed and is a typed engine
/// error, never a crash.  A missing size reads 1 and missing progress
/// reads 0, as the progress display expects.
pub fn report_from_fields(
    state: Option<EngineTaskState>,
    total: Option<u64>,
    completed: Option<u64>,
    rate: Option<u64>,
) -> (r: Result<TaskReport, AnimeDownloaderError>)
    ensures
        match state {
            None => r is Err && r->Err_0 is Aria2Error,
            Some(s) => {
                if !is_terminal(s) && rate is None {
                    r is Err && r->Err_0 is Aria2Error
                } else {
                    &&& r is Ok
                    &&& r->Ok_0.state == s
                    &&& r->Ok_0.rate == rate.unwrap_or(0)
                    &&& r->Ok_0.total == total.unwrap_or(1)
                    &&& r->Ok_0.completed == completed.unwrap_or(0)
                }
            },
        },
{
    let s = match state {
        Some(s) => s,
        None => {
            return Err(
                AnimeDownloaderError::Aria2Error("status reply carries no state".to_owned()),
            );
        },
    };
    let rate_val: u64 = match rate {
        Some(rt) => rt,
        None => {
            if s.terminal() {
                0
            } else {
                return Err(
                    AnimeDownloaderError::Aria2Error(
                        "status reply carries no download speed".to_owned(),
                    ),
                );
            }
        },
    };
    let total_val: u64 = match total {
        Some(t) => t,
        None => 1,
    };
    let completed_val: u64 = match completed {
        Some(c) => c,
        None => 0,
    };
    Ok(TaskReport { state: s, total: total_val, completed: completed_val, rate: rate_val })
}

/// One task's progress report line: its state, its rate and its
/// completed share; a task whose reported size is zero shows no share.
pub open spec fn progress_line_spec(
    state_name: Seq<char>,
    rate: nat,
    completed: nat,
    total: nat,
) -> Seq<char> {
    if total == 0 {
        "Download progress: "@ + state_name + " : 0%"@
    } else {
        "Download progress: "@ + state_name + " : "@ + human_rate(rate) + " : "@ + percent_spec(
            completed,
            total,
        ) + "%"@
    }
}

/// Renders one task's progress line.
pub fn progress_line(state_name: &str, rate: u64, completed: u64, total: u64) -> (r: String)
    ensures
        r@ == progress_line_spec(state_name@, rate as nat, completed as nat, total as nat),
{
    if total == 0 {
        "Download progress: ".to_owned().concat(state_name).concat(" : 0%")
    } else {
        let rate_str = crate::utils::bytes_to_human_readable(rate);
        let pct = crate::utils::format_percent(completed, total);
        "Download progress: ".to_owned().concat(state_name).concat(" : ").concat(
            rate_str.as_str(),
        ).concat(" : ").concat(pct.as_str()).concat("%")
    }
}

/// The orchestrator is the pipeline's download backend.
impl crate::download::Downloader for Orchestrator {
    open spec fn queued(&self) -> Seq<Seq<char>> {
        self.links@.map_values(|s: String| s@)
    }

    fn name(&self) -> (r: &'static str) {
        "aria2c"
    }

    fn add_url_link(&mut self, url: String) -> (r: Result<(), AnimeDownloaderError>)
        ensures
            r is Ok,
    {
        self.links.push(url);
        proof {
            assert(self.queued() =~= old(self).queued().push(url@));
        }
        Ok(())
    }
}

} // verus!
