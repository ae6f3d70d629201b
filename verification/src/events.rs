//! Outcomes of background work that come back to the organiser: whether the
//! generator's files are present, what the generator or the download gave,
//! and what is known of a newer release.

use vstd::prelude::*;
use vstd::string::StringExecFns;

use crate::app::{App, AppView, Command, CommandView, InputMode, UpdateStatus, UpdateStatusView};
use crate::clock::current_timestamp;
use crate::keys::new_task;
use crate::priority::Priority;
use crate::task::{bar_free, task_views, Task};

verus! {

/// The value of the outcome of background work.
pub open spec fn outcome_view(r: Result<Vec<String>, String>) -> Result<Seq<Seq<char>>, Seq<char>> {
    match r {
        Ok(v) => Ok(v@.map_values(|s: String| s@)),
        Err(e) => Err(e@),
    }
}

impl AppView {
    /// The generator's files were looked for: when present, the request line
    /// opens; when missing, their download starts.
    pub open spec fn ai_checked(self, present: bool) -> (AppView, CommandView) {
        if present {
            (AppView { input_mode: InputMode::AiPrompt, input: Seq::empty(), ..self }, CommandView::Nothing)
        } else {
            (AppView { ai_downloading: true, ai_error: None, ..self }, CommandView::StartDownload)
        }
    }

    /// Background work finished with outcome `r` at time `now`. A finished
    /// download opens the request line or shows its error; a finished
    /// generation appends one open task of priority `Medium` per title and
    /// selects the last task, or shows its error. An outcome that nothing
    /// waits for changes nothing.
    pub open spec fn ai_finished(self, r: Result<Seq<Seq<char>>, Seq<char>>, now: Seq<char>) -> (AppView, CommandView) {
        if self.ai_downloading {
            let s = AppView { ai_downloading: false, ..self };
            match r {
                Ok(_) => (AppView { input_mode: InputMode::AiPrompt, input: Seq::empty(), ..s }, CommandView::Nothing),
                Err(e) => (AppView { ai_error: Some(e), ..s }, CommandView::Nothing),
            }
        } else if self.ai_generating {
            let s = AppView { ai_generating: false, ..self };
            match r {
                Ok(titles) => {
                    let tasks = self.tasks + titles.map_values(|t: Seq<char>| new_task(t, Priority::Medium, now));
                    (
                        AppView {
                            tasks,
                            selected: if tasks.len() > 0 {
                                Some((tasks.len() - 1) as usize)
                            } else {
                                self.selected
                            },
                            ..s
                        },
                        CommandView::SaveTasks,
                    )
                },
                Err(e) => (AppView { ai_error: Some(e), ..s }, CommandView::Nothing),
            }
        } else {
            (self, CommandView::Nothing)
        }
    }

    /// A release check reported `status`; only the first report counts.
    pub open spec fn update_received(self, status: UpdateStatusView) -> AppView {
        if self.update_status == UpdateStatusView::Checking {
            AppView { update_status: status, ..self }
        } else {
            self
        }
    }
}

impl App {
    /// Reports whether the generator's files are present (after
    /// `Command::CheckAiFiles`).
    pub fn ai_files_checked(&mut self, present: bool) -> (cmd: Command)
        ensures
            (final(self)@, cmd@) == old(self)@.ai_checked(present),
    {
        if present {
            self.input_mode = InputMode::AiPrompt;
            self.input = String::new();
            Command::Nothing
        } else {
            self.ai_downloading = true;
            self.ai_error = None;
            Command::StartDownload
        }
    }

    /// Reports the outcome of a download or a generation, at time `now`.
    pub fn ai_finished_at(&mut self, r: Result<Vec<String>, String>, now: &str) -> (cmd: Command)
        ensures
            (final(self)@, cmd@) == old(self)@.ai_finished(outcome_view(r), now@),
    {
        let ghost before = self@;
        let ghost rv = outcome_view(r);
        if self.ai_downloading {
            self.ai_downloading = false;
            match r {
                Ok(_) => {
                    self.input_mode = InputMode::AiPrompt;
                    self.input = String::new();
                },
                Err(e) => {
                    self.ai_error = Some(e);
                },
            }
            Command::Nothing
        } else if self.ai_generating {
            self.ai_generating = false;
            match r {
                Ok(titles) => {
                    let ghost tv = titles@.map_values(|s: String| s@);
                    let mut rest = titles;
                    let ghost mut i: int = 0;
                    while rest.len() > 0
                        invariant
                            0 <= i <= tv.len(),
                            self@ == (AppView { tasks: self@.tasks, ai_generating: false, ..before }),
                            rest@.map_values(|s: String| s@) == tv.skip(i),
                            task_views(self.tasks@) == before.tasks + tv.take(i).map_values(
                                |t: Seq<char>| new_task(t, Priority::Medium, now@),
                            ),
                        decreases rest.len(),
                    {
                        let ghost old_rest = rest@;
                        let ghost old_tasks = task_views(self.tasks@);
                        assert(old_rest.map_values(|s: String| s@).len() == old_rest.len());
                        let title = rest.remove(0);
                        proof {
                            assert(old_rest.map_values(|s: String| s@)[0] == tv.skip(i)[0]);
                            assert(rest@ =~= old_rest.subrange(1, old_rest.len() as int));
                            assert forall|k: int| 0 <= k < rest@.len() implies (#[trigger] rest@[k])@ == tv.skip(i + 1)[k] by {
                                assert(old_rest.map_values(|s: String| s@)[k + 1] == tv.skip(i)[k + 1]);
                                assert(rest@[k] == old_rest[k + 1]);
                            }
                            assert(rest@.map_values(|s: String| s@) =~= tv.skip(i + 1));
                            assert(title@ == tv[i]);
                        }
                        self.tasks.push(
                            Task {
                                title,
                                completed: false,
                                priority: Priority::Medium,
                                created_at: String::from_str(now),
                                modified_at: String::from_str(now),
                            },
                        );
                        proof {
                            assert(tv.take(i + 1) =~= tv.take(i).push(tv[i]));
                            assert(task_views(self.tasks@) =~= old_tasks.push(new_task(tv[i], Priority::Medium, now@)));
                            assert(task_views(self.tasks@) =~= before.tasks + tv.take(i + 1).map_values(
                                |t: Seq<char>| new_task(t, Priority::Medium, now@),
                            ));
                            i = i + 1;
                        }
                    }
                    assert(tv.take(i) =~= tv);
                    if self.tasks.len() > 0 {
                        self.selected = Some(self.tasks.len() - 1);
                    }
                    assert(rv == Ok::<Seq<Seq<char>>, Seq<char>>(tv));
                    assert(self@ =~= before.ai_finished(rv, now@).0);
                    Command::SaveTasks
                },
                Err(e) => {
                    self.ai_error = Some(e);
                    Command::Nothing
                },
            }
        } else {
            Command::Nothing
        }
    }

    /// Reports the outcome of a download or a generation, at the current time.
    pub fn ai_finished(&mut self, r: Result<Vec<String>, String>) -> (cmd: Command)
        ensures
            exists|now: Seq<char>|
                crate::task::is_timestamp(now) && bar_free(now)
                    && (final(self)@, cmd@) == #[trigger] old(self)@.ai_finished(
                    outcome_view(r),
                    now,
                ),
    {
        let now = current_timestamp();
        self.ai_finished_at(r, now.as_str())
    }

    /// Reports what a release check found; only the first report counts.
    pub fn update_received(&mut self, status: UpdateStatus)
        ensures
            final(self)@ == old(self)@.update_received(status@),
    {
        if let UpdateStatus::Checking = self.update_status {
            self.update_status = status;
        }
    }
}

} // verus!
