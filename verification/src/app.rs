//! The session state: current view, cached snapshots, selection cursors,
//! the wizard and search box, a transient status message and the refresh
//! clock, together with every mutation the event loop can apply.

use vstd::prelude::*;
use crate::api::Asset;
use crate::api::CreateJobRequest;
use crate::api::Job;
use crate::numbers::parse_i32;
use crate::numbers::parse_i32_spec;
use crate::rank::lemma_insert_ranked_at;
use crate::rank::lemma_rank_sorted_len;
use crate::rank::rank_sorted;
use crate::search::SearchBox;
use crate::search::matches_spec;
use crate::search::score_spec;
use crate::search::search_backspace_rel;
use crate::search::search_char_rel;
use crate::wizard::wizard_backspace_rel;
use crate::wizard::wizard_char_rel;
use crate::wizard::wizard_next_rel;
use crate::wizard::wizard_prev_rel;
use crate::wizard::JobWizard;
use crate::wizard::WizardStep;
use crate::wizard::wizard_initial;
use crate::wizard::wizard_valid_spec;

verus! {

/// The views: three ring views, the help overlay and the wizard.
#[derive(Debug, Copy, Clone, PartialEq, Eq, Structural)]
pub enum AppState {
    Dashboard,
    Assets,
    Jobs,
    Help,
    CreateJob,
}

/// The view after one forward step: the `Dashboard -> Jobs -> Assets` ring,
/// with `Help` falling back to `Dashboard` and the wizard holding.
pub open spec fn view_after(v: AppState) -> AppState {
    match v {
        AppState::Dashboard => AppState::Jobs,
        AppState::Jobs => AppState::Assets,
        AppState::Assets => AppState::Dashboard,
        AppState::Help => AppState::Dashboard,
        AppState::CreateJob => AppState::CreateJob,
    }
}

/// The view after one backward step: the mirror ring.
pub open spec fn view_before(v: AppState) -> AppState {
    match v {
        AppState::Dashboard => AppState::Assets,
        AppState::Assets => AppState::Jobs,
        AppState::Jobs => AppState::Dashboard,
        AppState::Help => AppState::Dashboard,
        AppState::CreateJob => AppState::CreateJob,
    }
}

/// A selection moved down by one, clamped to the list.
pub open spec fn down_index(idx: int, len: int) -> int {
    if idx + 1 < len {
        idx + 1
    } else {
        idx
    }
}

/// A selection moved up by one, stopping at the start.
pub open spec fn up_index(idx: int) -> int {
    if idx > 0 {
        idx - 1
    } else {
        0
    }
}

/// A selection index forced back inside a list: unchanged while it fits,
/// moved to the last entry when the list shrank, zero when the list is
/// empty.
pub open spec fn clamped_index(idx: int, len: int) -> int {
    if len == 0 {
        0
    } else if idx < len {
        idx
    } else {
        len - 1
    }
}

/// Whether the query keeps a job: it matches the name or the status.
pub open spec fn job_keep(q: Seq<char>, j: Job) -> bool {
    matches_spec(q, j.name@) || matches_spec(q, j.status@)
}

/// Whether the query keeps an asset: it matches the name or the file type.
pub open spec fn asset_keep(q: Seq<char>, a: Asset) -> bool {
    matches_spec(q, a.name@) || matches_spec(q, a.file_type@)
}

/// The jobs the query keeps, in input order.
pub open spec fn jobs_filtered(q: Seq<char>, jobs: Seq<Job>) -> Seq<Job>
    decreases jobs.len(),
{
    if jobs.len() == 0 {
        Seq::<Job>::empty()
    } else {
        jobs_filtered(q, jobs.drop_last()) + if job_keep(q, jobs.last()) {
            seq![jobs.last()]
        } else {
            Seq::<Job>::empty()
        }
    }
}

/// The assets the query keeps, in input order.
pub open spec fn assets_filtered(q: Seq<char>, assets: Seq<Asset>) -> Seq<Asset>
    decreases assets.len(),
{
    if assets.len() == 0 {
        Seq::<Asset>::empty()
    } else {
        assets_filtered(q, assets.drop_last()) + if asset_keep(q, assets.last()) {
            seq![assets.last()]
        } else {
            Seq::<Asset>::empty()
        }
    }
}

/// A job's rank: its name scored against the query.
pub open spec fn job_score_fn(q: Seq<char>) -> spec_fn(Job) -> int {
    |j: Job| score_spec(q, j.name@)
}

/// An asset's rank: its name scored against the query.
pub open spec fn asset_score_fn(q: Seq<char>) -> spec_fn(Asset) -> int {
    |a: Asset| score_spec(q, a.name@)
}

/// Counts the jobs whose status is exactly the given word.
pub open spec fn count_with_status(jobs: Seq<Job>, st: Seq<char>) -> int
    decreases jobs.len(),
{
    if jobs.len() == 0 {
        0
    } else {
        count_with_status(jobs.drop_last(), st) + if jobs.last().status@ == st {
            1int
        } else {
            0int
        }
    }
}

/// A single key press, as the event loop hands it to the session.
#[derive(Debug, Copy, Clone, PartialEq, Eq, Structural)]
pub enum KeyInput {
    Char(char),
    Enter,
    Escape,
    Tab,
    BackTab,
    Backspace,
    Up,
    Down,
}

/// What the caller must do after a key is dispatched: nothing further,
/// quit the loop, refresh the snapshots, or submit the wizard draft.
#[derive(Debug, Copy, Clone, PartialEq, Eq, Structural)]
pub enum Action {
    Nothing,
    Quit,
    Refresh,
    SubmitJob,
}

/// The aggregate the event loop owns and mutates.
pub struct App {
    pub state: AppState,
    pub jobs: Vec<Job>,
    pub assets: Vec<Asset>,
    pub selected_job_index: usize,
    pub selected_asset_index: usize,
    pub show_help: bool,
    pub job_wizard: JobWizard,
    pub search_box: SearchBox,
    pub status_message: Option<String>,
    pub last_refresh_ms: u64,
}

/// What the job list shows: everything when the query is empty, otherwise
/// the kept jobs ranked by descending score, ties in input order.
pub open spec fn filtered_jobs_spec(app: App) -> Seq<Job> {
    let q = app.search_box.query@;
    if q.len() == 0 {
        app.jobs@
    } else {
        rank_sorted(jobs_filtered(q, app.jobs@), job_score_fn(q))
    }
}

/// What the asset list shows, mirroring the job list.
pub open spec fn filtered_assets_spec(app: App) -> Seq<Asset> {
    let q = app.search_box.query@;
    if q.len() == 0 {
        app.assets@
    } else {
        rank_sorted(assets_filtered(q, app.assets@), asset_score_fn(q))
    }
}

/// The data-model invariant on the two selection cursors: each lies inside
/// its snapshot, and sits at zero when that snapshot is empty.
pub open spec fn selections_in_bounds(s: App) -> bool {
    &&& if s.jobs@.len() == 0 {
        s.selected_job_index == 0
    } else {
        s.selected_job_index < s.jobs@.len()
    }
    &&& if s.assets@.len() == 0 {
        s.selected_asset_index == 0
    } else {
        s.selected_asset_index < s.assets@.len()
    }
}

/// The filtered job list never outgrows the snapshot it was drawn from.
proof fn lemma_jobs_filtered_le(q: Seq<char>, jobs: Seq<Job>)
    ensures
        jobs_filtered(q, jobs).len() <= jobs.len(),
    decreases jobs.len(),
{
    if jobs.len() > 0 {
        lemma_jobs_filtered_le(q, jobs.drop_last());
    }
}

/// The filtered asset list never outgrows the snapshot it was drawn from.
proof fn lemma_assets_filtered_le(q: Seq<char>, assets: Seq<Asset>)
    ensures
        assets_filtered(q, assets).len() <= assets.len(),
    decreases assets.len(),
{
    if assets.len() > 0 {
        lemma_assets_filtered_le(q, assets.drop_last());
    }
}

/// What the job list shows is never longer than the job snapshot.
pub proof fn lemma_filtered_jobs_le(app: App)
    ensures
        filtered_jobs_spec(app).len() <= app.jobs@.len(),
{
    let q = app.search_box.query@;
    if q.len() > 0 {
        lemma_jobs_filtered_le(q, app.jobs@);
        lemma_rank_sorted_len(jobs_filtered(q, app.jobs@), job_score_fn(q));
    }
}

/// What the asset list shows is never longer than the asset snapshot.
pub proof fn lemma_filtered_assets_le(app: App)
    ensures
        filtered_assets_spec(app).len() <= app.assets@.len(),
{
    let q = app.search_box.query@;
    if q.len() > 0 {
        lemma_assets_filtered_le(q, app.assets@);
        lemma_rank_sorted_len(assets_filtered(q, app.assets@), asset_score_fn(q));
    }
}

/// Input is routed to the wizard while the wizard view is open.
pub open spec fn in_wizard_mode(s: App) -> bool {
    s.state is CreateJob
}

/// Input is routed to the search box while it is active (and no wizard).
pub open spec fn in_search_mode(s: App) -> bool {
    !(s.state is CreateJob) && s.search_box.active
}

/// A pending status message swallows the next key (after the sub-modes).
pub open spec fn in_status_mode(s: App) -> bool {
    !(s.state is CreateJob) && !s.search_box.active && s.status_message is Some
}

/// How `start_create_job` changes the session.
pub open spec fn start_create_rel(o: App, n: App) -> bool {
    &&& n == (App { state: AppState::CreateJob, job_wizard: n.job_wizard, ..o })
    &&& wizard_initial(n.job_wizard)
}

/// How `cancel_create_job` changes the session.
pub open spec fn cancel_create_rel(o: App, n: App) -> bool {
    &&& n == (App { state: AppState::Jobs, job_wizard: n.job_wizard, ..o })
    &&& wizard_initial(n.job_wizard)
}

/// How `clear_search` changes the session.
pub open spec fn clear_search_rel(o: App, n: App) -> bool {
    &&& n == (App { search_box: n.search_box, ..o })
    &&& n.search_box.query@.len() == 0
    &&& n.search_box.cursor_position == 0
    &&& !n.search_box.active
}

/// How `toggle_search` changes the session.
pub open spec fn toggle_search_rel(o: App, n: App) -> bool {
    n == (App {
        search_box: (SearchBox { active: !o.search_box.active, ..o.search_box }),
        ..o
    })
}

/// How `toggle_help` changes the session.
pub open spec fn toggle_help_rel(o: App, n: App) -> bool {
    n == (App {
        show_help: !o.show_help,
        state: if !o.show_help {
            AppState::Help
        } else {
            AppState::Dashboard
        },
        ..o
    })
}

/// How `on_up` changes the session.
pub open spec fn on_up_rel(o: App, n: App) -> bool {
    &&& (o.state is Jobs ==> n == (App { selected_job_index: n.selected_job_index, ..o })
        && n.selected_job_index as int == up_index(o.selected_job_index as int))
    &&& (o.state is Assets ==> n == (App { selected_asset_index: n.selected_asset_index, ..o })
        && n.selected_asset_index as int == up_index(o.selected_asset_index as int))
    &&& (!(o.state is Jobs || o.state is Assets) ==> n == o)
}

/// How `on_down` changes the session: the move is clamped to the filtered
/// list shown at the time of the action.
pub open spec fn on_down_rel(o: App, n: App) -> bool {
    &&& (o.state is Jobs ==> n == (App { selected_job_index: n.selected_job_index, ..o })
        && n.selected_job_index as int == down_index(
        o.selected_job_index as int,
        filtered_jobs_spec(o).len() as int,
    ))
    &&& (o.state is Assets ==> n == (App { selected_asset_index: n.selected_asset_index, ..o })
        && n.selected_asset_index as int == down_index(
        o.selected_asset_index as int,
        filtered_assets_spec(o).len() as int,
    ))
    &&& (!(o.state is Jobs || o.state is Assets) ==> n == o)
}

impl App {
    /// The sub-components keep their cursors inside their buffers.
    pub open spec fn wf(&self) -> bool {
        self.search_box.wf() && self.job_wizard.wf()
    }

    /// Whether the cursors of both sub-components sit inside their
    /// buffers; callers outside the library test this before key dispatch.
    pub fn is_well_formed(&self) -> (r: bool)
        ensures
            r == self.wf(),
    {
        let search_ok = self.search_box.cursor_position
            <= self.search_box.query.as_str().unicode_len();
        let wizard_ok = match self.job_wizard.step {
            WizardStep::JobName => self.job_wizard.cursor_position
                <= self.job_wizard.job_name.as_str().unicode_len(),
            WizardStep::NumScenes => self.job_wizard.cursor_position
                <= self.job_wizard.num_scenes.as_str().unicode_len(),
            WizardStep::ConfigFile => self.job_wizard.cursor_position
                <= self.job_wizard.config_file.as_str().unicode_len(),
            WizardStep::Confirm => true,
        };
        search_ok && wizard_ok
    }

    /// A fresh session at the dashboard with empty snapshots, taking the
    /// current time in milliseconds for the refresh clock.
    pub fn new(now_ms: u64) -> (r: App)
        ensures
            r.state is Dashboard,
            r.jobs@.len() == 0,
            r.assets@.len() == 0,
            r.selected_job_index == 0,
            r.selected_asset_index == 0,
            !r.show_help,
            wizard_initial(r.job_wizard),
            r.search_box.query@.len() == 0,
            r.search_box.cursor_position == 0,
            !r.search_box.active,
            r.status_message is None,
            r.last_refresh_ms == now_ms,
            r.wf(),
            selections_in_bounds(r),
    {
        App {
            state: AppState::Dashboard,
            jobs: Vec::new(),
            assets: Vec::new(),
            selected_job_index: 0,
            selected_asset_index: 0,
            show_help: false,
            job_wizard: JobWizard::new(),
            search_box: SearchBox::new(),
            status_message: None,
            last_refresh_ms: now_ms,
        }
    }

    /// Installs whatever the two refresh calls produced: each snapshot is
    /// replaced only on success and kept on failure, the selection cursors
    /// are clamped back into the (possibly smaller) snapshots, and the
    /// refresh clock records the attempt either way.
    pub fn apply_refresh(&mut self, jobs: Option<Vec<Job>>, assets: Option<Vec<Asset>>, now_ms: u64)
        ensures
            *final(self) == (App {
                jobs: final(self).jobs,
                assets: final(self).assets,
                selected_job_index: final(self).selected_job_index,
                selected_asset_index: final(self).selected_asset_index,
                last_refresh_ms: now_ms,
                ..*old(self)
            }),
            final(self).jobs@ == (match jobs {
                Some(j) => j@,
                None => old(self).jobs@,
            }),
            final(self).assets@ == (match assets {
                Some(a) => a@,
                None => old(self).assets@,
            }),
            final(self).selected_job_index as int == clamped_index(
                old(self).selected_job_index as int,
                final(self).jobs@.len() as int,
            ),
            final(self).selected_asset_index as int == clamped_index(
                old(self).selected_asset_index as int,
                final(self).assets@.len() as int,
            ),
            selections_in_bounds(*final(self)),
    {
        match jobs {
            Some(j) => {
                self.jobs = j;
            },
            None => {},
        }
        match assets {
            Some(a) => {
                self.assets = a;
            },
            None => {},
        }
        let jobs_len = self.jobs.len();
        if jobs_len == 0 {
            self.selected_job_index = 0;
        } else if self.selected_job_index >= jobs_len {
            self.selected_job_index = jobs_len - 1;
        }
        let assets_len = self.assets.len();
        if assets_len == 0 {
            self.selected_asset_index = 0;
        } else if self.selected_asset_index >= assets_len {
            self.selected_asset_index = assets_len - 1;
        }
        self.last_refresh_ms = now_ms;
    }

    /// Whether more than five seconds have passed since the last refresh.
    pub fn should_refresh(&self, now_ms: u64) -> (r: bool)
        ensures
            r == (now_ms as int - self.last_refresh_ms as int > 5000),
    {
        now_ms > self.last_refresh_ms && now_ms - self.last_refresh_ms > 5000
    }

    /// Steps the ring forward; a no-op inside the wizard.
    pub fn next_view(&mut self)
        ensures
            *final(self) == (App { state: view_after(old(self).state), ..*old(self) }),
    {
        self.state = match self.state {
            AppState::Dashboard => AppState::Jobs,
            AppState::Jobs => AppState::Assets,
            AppState::Assets => AppState::Dashboard,
            AppState::Help => AppState::Dashboard,
            AppState::CreateJob => AppState::CreateJob,
        };
    }

    /// Steps the ring backward; a no-op inside the wizard.
    pub fn previous_view(&mut self)
        ensures
            *final(self) == (App { state: view_before(old(self).state), ..*old(self) }),
    {
        self.state = match self.state {
            AppState::Dashboard => AppState::Assets,
            AppState::Assets => AppState::Jobs,
            AppState::Jobs => AppState::Dashboard,
            AppState::Help => AppState::Dashboard,
            AppState::CreateJob => AppState::CreateJob,
        };
    }

    /// Moves the selection of the active list up by one, stopping at the
    /// top; does nothing outside the two list views.
    pub fn on_up(&mut self)
        ensures
            old(self).state is Jobs ==> *final(self) == (App {
                selected_job_index: final(self).selected_job_index,
                ..*old(self)
            }) && final(self).selected_job_index as int == up_index(
                old(self).selected_job_index as int,
            ),
            old(self).state is Assets ==> *final(self) == (App {
                selected_asset_index: final(self).selected_asset_index,
                ..*old(self)
            }) && final(self).selected_asset_index as int == up_index(
                old(self).selected_asset_index as int,
            ),
            !(old(self).state is Jobs || old(self).state is Assets) ==> *final(self) == *old(
                self,
            ),
            on_up_rel(*old(self), *final(self)),
            selections_in_bounds(*old(self)) ==> selections_in_bounds(*final(self)),
    {
        match self.state {
            AppState::Jobs => {
                if self.selected_job_index > 0 {
                    self.selected_job_index = self.selected_job_index - 1;
                }
            },
            AppState::Assets => {
                if self.selected_asset_index > 0 {
                    self.selected_asset_index = self.selected_asset_index - 1;
                }
            },
            _ => {},
        }
    }

    /// Moves the selection of the active list down by one, clamped to the
    /// filtered list shown at the time of the action; does nothing outside
    /// the two list views.
    pub fn on_down(&mut self)
        ensures
            old(self).state is Jobs ==> *final(self) == (App {
                selected_job_index: final(self).selected_job_index,
                ..*old(self)
            }) && final(self).selected_job_index as int == down_index(
                old(self).selected_job_index as int,
                filtered_jobs_spec(*old(self)).len() as int,
            ),
            old(self).state is Assets ==> *final(self) == (App {
                selected_asset_index: final(self).selected_asset_index,
                ..*old(self)
            }) && final(self).selected_asset_index as int == down_index(
                old(self).selected_asset_index as int,
                filtered_assets_spec(*old(self)).len() as int,
            ),
            !(old(self).state is Jobs || old(self).state is Assets) ==> *final(self) == *old(
                self,
            ),
            on_down_rel(*old(self), *final(self)),
            selections_in_bounds(*old(self)) ==> selections_in_bounds(*final(self)),
    {
        match self.state {
            AppState::Jobs => {
                let len = self.filtered_jobs().len();
                proof {
                    lemma_filtered_jobs_le(*self);
                }
                if len > 0 && self.selected_job_index < len - 1 {
                    self.selected_job_index = self.selected_job_index + 1;
                }
            },
            AppState::Assets => {
                let len = self.filtered_assets().len();
                proof {
                    lemma_filtered_assets_le(*self);
                }
                if len > 0 && self.selected_asset_index < len - 1 {
                    self.selected_asset_index = self.selected_asset_index + 1;
                }
            },
            _ => {},
        }
    }

    /// Selection is not bound to anything yet; the state is untouched.
    pub fn on_select(&mut self)
        ensures
            *final(self) == *old(self),
    {
    }

    /// Toggles the help overlay: on shows `Help`, off always returns to the
    /// dashboard.
    pub fn toggle_help(&mut self)
        ensures
            *final(self) == (App {
                show_help: !old(self).show_help,
                state: if !old(self).show_help {
                    AppState::Help
                } else {
                    AppState::Dashboard
                },
                ..*old(self)
            }),
            toggle_help_rel(*old(self), *final(self)),
    {
        self.show_help = !self.show_help;
        if self.show_help {
            self.state = AppState::Help;
        } else {
            self.state = AppState::Dashboard;
        }
    }

    /// How many cached jobs are running.
    pub fn running_jobs_count(&self) -> (r: usize)
        ensures
            r as int == count_with_status(self.jobs@, "running"@),
    {
        self.count_status("running")
    }

    /// How many cached jobs have completed.
    pub fn completed_jobs_count(&self) -> (r: usize)
        ensures
            r as int == count_with_status(self.jobs@, "completed"@),
    {
        self.count_status("completed")
    }

    /// How many cached jobs are queued.
    pub fn queued_jobs_count(&self) -> (r: usize)
        ensures
            r as int == count_with_status(self.jobs@, "queued"@),
    {
        self.count_status("queued")
    }

    /// Counts the cached jobs whose status equals the given word.
    fn count_status(&self, word: &str) -> (r: usize)
        ensures
            r as int == count_with_status(self.jobs@, word@),
    {
        let target = String::from_str(word);
        let mut c: usize = 0;
        let mut i: usize = 0;
        while i < self.jobs.len()
            invariant
                i <= self.jobs@.len(),
                c <= i,
                target@ == word@,
                c as int == count_with_status(self.jobs@.subrange(0, i as int), word@),
            decreases self.jobs@.len() - i,
        {
            proof {
                let pre = self.jobs@.subrange(0, i as int);
                let cur = self.jobs@.subrange(0, i + 1);
                assert(cur.drop_last() =~= pre);
                assert(cur.last() == self.jobs@[i as int]);
            }
            if self.jobs[i].status.eq(&target) {
                c = c + 1;
            }
            i = i + 1;
        }
        proof {
            assert(self.jobs@.subrange(0, self.jobs@.len() as int) =~= self.jobs@);
        }
        c
    }

    /// Enters the wizard, starting it from scratch.
    pub fn start_create_job(&mut self)
        ensures
            *final(self) == (App {
                state: AppState::CreateJob,
                job_wizard: final(self).job_wizard,
                ..*old(self)
            }),
            wizard_initial(final(self).job_wizard),
            start_create_rel(*old(self), *final(self)),
    {
        self.state = AppState::CreateJob;
        self.job_wizard.reset();
    }

    /// Leaves the wizard for the job list, discarding the draft.
    pub fn cancel_create_job(&mut self)
        ensures
            *final(self) == (App {
                state: AppState::Jobs,
                job_wizard: final(self).job_wizard,
                ..*old(self)
            }),
            wizard_initial(final(self).job_wizard),
            cancel_create_rel(*old(self), *final(self)),
    {
        self.state = AppState::Jobs;
        self.job_wizard.reset();
    }

    /// Validates the wizard draft. An invalid draft sets the status message
    /// and yields nothing; a valid one yields the request to send, leaving
    /// the session untouched. The request carries the config path text for
    /// the caller to read at submit time.
    pub fn prepare_submit(&mut self) -> (r: Option<CreateJobRequest>)
        ensures
            !wizard_valid_spec(old(self).job_wizard) ==> r is None && *final(self) == (App {
                status_message: final(self).status_message,
                ..*old(self)
            }) && (final(self).status_message matches Some(m) && m@ == "Invalid job parameters"@),
            wizard_valid_spec(old(self).job_wizard) ==> *final(self) == *old(self) && (
            r matches Some(req)
                && req.name@ == old(self).job_wizard.job_name@
                && Some(req.num_scenes) == parse_i32_spec(old(self).job_wizard.num_scenes@)
                && (old(self).job_wizard.config_file@.len() == 0 ==> req.config_yaml is None)
                && (old(self).job_wizard.config_file@.len() > 0 ==> (
                req.config_yaml matches Some(cy) && cy@ == old(self).job_wizard.config_file@))),
    {
        if !self.job_wizard.is_valid() {
            self.status_message = Some(String::from_str("Invalid job parameters"));
            return None;
        }
        let num_scenes = match parse_i32(self.job_wizard.num_scenes.as_str()) {
            Some(v) => v,
            None => 100,
        };
        let config_yaml = if self.job_wizard.config_file.as_str().is_empty() {
            None
        } else {
            Some(self.job_wizard.config_file.clone())
        };
        Some(
            CreateJobRequest {
                name: self.job_wizard.job_name.clone(),
                num_scenes,
                config_yaml,
            },
        )
    }

    /// Records a successful submission: success message, back to the job
    /// list, wizard restarted.
    pub fn apply_submit_success(&mut self)
        ensures
            *final(self) == (App {
                state: AppState::Jobs,
                job_wizard: final(self).job_wizard,
                status_message: final(self).status_message,
                ..*old(self)
            }),
            wizard_initial(final(self).job_wizard),
            final(self).status_message matches Some(m) && m@ == "Job created successfully!"@,
    {
        self.status_message = Some(String::from_str("Job created successfully!"));
        self.state = AppState::Jobs;
        self.job_wizard.reset();
    }

    /// Records a failed submission: a failure message naming the error, the
    /// wizard left where it was.
    pub fn apply_submit_failure(&mut self, error: &str)
        ensures
            *final(self) == (App {
                status_message: final(self).status_message,
                ..*old(self)
            }),
            final(self).status_message matches Some(m) && m@ == "Failed to create job: "@
                + error@,
    {
        self.status_message = Some(String::from_str("Failed to create job: ").concat(error));
    }

    /// Flips the search box between active and inactive.
    pub fn toggle_search(&mut self)
        ensures
            *final(self) == (App {
                search_box: (SearchBox {
                    active: !old(self).search_box.active,
                    ..old(self).search_box
                }),
                ..*old(self)
            }),
            toggle_search_rel(*old(self), *final(self)),
    {
        if self.search_box.active {
            self.search_box.deactivate();
        } else {
            self.search_box.activate();
        }
    }

    /// Empties and deactivates the search box.
    pub fn clear_search(&mut self)
        ensures
            *final(self) == (App { search_box: final(self).search_box, ..*old(self) }),
            final(self).search_box.query@.len() == 0,
            final(self).search_box.cursor_position == 0,
            !final(self).search_box.active,
            clear_search_rel(*old(self), *final(self)),
    {
        self.search_box.clear();
        self.search_box.deactivate();
    }

    /// Drops the transient status message.
    pub fn clear_status_message(&mut self)
        ensures
            *final(self) == (App { status_message: None, ..*old(self) }),
    {
        self.status_message = None;
    }

    /// The job list as displayed: filtered by the live query and ranked by
    /// descending score, ties keeping input order.
    pub fn filtered_jobs(&self) -> (r: Vec<Job>)
        ensures
            r@ == filtered_jobs_spec(*self),
    {
        let ghost q = self.search_box.query@;
        if self.search_box.query.as_str().is_empty() {
            let mut out: Vec<Job> = Vec::new();
            let mut i: usize = 0;
            while i < self.jobs.len()
                invariant
                    i <= self.jobs@.len(),
                    out@ == self.jobs@.subrange(0, i as int),
                decreases self.jobs@.len() - i,
            {
                out.push(self.jobs[i].duplicate());
                i = i + 1;
                proof {
                    assert(out@ =~= self.jobs@.subrange(0, i as int));
                }
            }
            proof {
                assert(self.jobs@.subrange(0, self.jobs@.len() as int) =~= self.jobs@);
            }
            return out;
        }
        let mut kept: Vec<Job> = Vec::new();
        let mut i: usize = 0;
        while i < self.jobs.len()
            invariant
                i <= self.jobs@.len(),
                q == self.search_box.query@,
                q.len() > 0,
                kept@ == jobs_filtered(q, self.jobs@.subrange(0, i as int)),
            decreases self.jobs@.len() - i,
        {
            proof {
                let pre = self.jobs@.subrange(0, i as int);
                let cur = self.jobs@.subrange(0, i + 1);
                assert(cur.drop_last() =~= pre);
                assert(cur.last() == self.jobs@[i as int]);
            }
            let keep = self.search_box.matches(self.jobs[i].name.as_str())
                || self.search_box.matches(self.jobs[i].status.as_str());
            if keep {
                kept.push(self.jobs[i].duplicate());
            }
            i = i + 1;
        }
        proof {
            assert(self.jobs@.subrange(0, self.jobs@.len() as int) =~= self.jobs@);
        }
        let mut out: Vec<Job> = Vec::new();
        let mut k: usize = 0;
        while k < kept.len()
            invariant
                k <= kept@.len(),
                q == self.search_box.query@,
                q.len() > 0,
                kept@ == jobs_filtered(q, self.jobs@),
                out@ == rank_sorted(kept@.subrange(0, k as int), job_score_fn(q)),
            decreases kept@.len() - k,
        {
            let item = kept[k].duplicate();
            let sx = self.search_box.match_score(item.name.as_str());
            let ghost pre_out = out@;
            let mut p: usize = 0;
            loop
                invariant_except_break
                    p <= out@.len(),
                    out@ == pre_out,
                    q == self.search_box.query@,
                    forall|t: int| 0 <= t < p ==> job_score_fn(q)(#[trigger] out@[t]) >= sx as int,
                ensures
                    p <= out@.len(),
                    out@ == pre_out,
                    forall|t: int| 0 <= t < p ==> job_score_fn(q)(#[trigger] out@[t]) >= sx as int,
                    p < out@.len() ==> job_score_fn(q)(out@[p as int]) < sx as int,
                decreases out@.len() - p,
            {
                if p == out.len() {
                    break;
                }
                let sp = self.search_box.match_score(out[p].name.as_str());
                if sp < sx {
                    break;
                }
                p = p + 1;
            }
            proof {
                lemma_insert_ranked_at(pre_out, item, job_score_fn(q), p as int);
                assert(pre_out.insert(p as int, item) =~= pre_out.subrange(0, p as int)
                    + seq![item] + pre_out.subrange(p as int, pre_out.len() as int));
            }
            out.insert(p, item);
            k = k + 1;
            proof {
                let pre = kept@.subrange(0, k - 1);
                let cur = kept@.subrange(0, k as int);
                assert(cur.drop_last() =~= pre);
                assert(cur.last() == kept@[k - 1]);
            }
        }
        proof {
            assert(kept@.subrange(0, kept@.len() as int) =~= kept@);
        }
        out
    }

    /// The asset list as displayed, mirroring the job list.
    pub fn filtered_assets(&self) -> (r: Vec<Asset>)
        ensures
            r@ == filtered_assets_spec(*self),
    {
        let ghost q = self.search_box.query@;
        if self.search_box.query.as_str().is_empty() {
            let mut out: Vec<Asset> = Vec::new();
            let mut i: usize = 0;
            while i < self.assets.len()
                invariant
                    i <= self.assets@.len(),
                    out@ == self.assets@.subrange(0, i as int),
                decreases self.assets@.len() - i,
            {
                out.push(self.assets[i].duplicate());
                i = i + 1;
                proof {
                    assert(out@ =~= self.assets@.subrange(0, i as int));
                }
            }
            proof {
                assert(self.assets@.subrange(0, self.assets@.len() as int) =~= self.assets@);
            }
            return out;
        }
        let mut kept: Vec<Asset> = Vec::new();
        let mut i: usize = 0;
        while i < self.assets.len()
            invariant
                i <= self.assets@.len(),
                q == self.search_box.query@,
                q.len() > 0,
                kept@ == assets_filtered(q, self.assets@.subrange(0, i as int)),
            decreases self.assets@.len() - i,
        {
            proof {
                let pre = self.assets@.subrange(0, i as int);
                let cur = self.assets@.subrange(0, i + 1);
                assert(cur.drop_last() =~= pre);
                assert(cur.last() == self.assets@[i as int]);
            }
            let keep = self.search_box.matches(self.assets[i].name.as_str())
                || self.search_box.matches(self.assets[i].file_type.as_str());
            if keep {
                kept.push(self.assets[i].duplicate());
            }
            i = i + 1;
        }
        proof {
            assert(self.assets@.subrange(0, self.assets@.len() as int) =~= self.assets@);
        }
        let mut out: Vec<Asset> = Vec::new();
        let mut k: usize = 0;
        while k < kept.len()
            invariant
                k <= kept@.len(),
                q == self.search_box.query@,
                q.len() > 0,
                kept@ == assets_filtered(q, self.assets@),
                out@ == rank_sorted(kept@.subrange(0, k as int), asset_score_fn(q)),
            decreases kept@.len() - k,
        {
            let item = kept[k].duplicate();
            let sx = self.search_box.match_score(item.name.as_str());
            let ghost pre_out = out@;
            let mut p: usize = 0;
            loop
                invariant_except_break
                    p <= out@.len(),
                    out@ == pre_out,
                    q == self.search_box.query@,
                    forall|t: int| 0 <= t < p ==> asset_score_fn(q)(#[trigger] out@[t]) >= sx as int,
                ensures
                    p <= out@.len(),
                    out@ == pre_out,
                    forall|t: int| 0 <= t < p ==> asset_score_fn(q)(#[trigger] out@[t]) >= sx as int,
                    p < out@.len() ==> asset_score_fn(q)(out@[p as int]) < sx as int,
                decreases out@.len() - p,
            {
                if p == out.len() {
                    break;
                }
                let sp = self.search_box.match_score(out[p].name.as_str());
                if sp < sx {
                    break;
                }
                p = p + 1;
            }
            proof {
                lemma_insert_ranked_at(pre_out, item, asset_score_fn(q), p as int);
                assert(pre_out.insert(p as int, item) =~= pre_out.subrange(0, p as int)
                    + seq![item] + pre_out.subrange(p as int, pre_out.len() as int));
            }
            out.insert(p, item);
            k = k + 1;
            proof {
                let pre = kept@.subrange(0, k - 1);
                let cur = kept@.subrange(0, k as int);
                assert(cur.drop_last() =~= pre);
                assert(cur.last() == kept@[k - 1]);
            }
        }
        proof {
            assert(kept@.subrange(0, kept@.len() as int) =~= kept@);
        }
        out
    }

    /// Dispatches one key press by priority: the wizard first while it is
    /// open, then the active search box, then a pending status message
    /// (which any key clears), and only then the global bindings. The
    /// returned action names the outside work the caller owes: quitting,
    /// refreshing, or submitting the wizard draft.
    pub fn handle_key(&mut self, key: KeyInput) -> (a: Action)
        requires
            old(self).wf(),
        ensures
            final(self).wf(),
            selections_in_bounds(*old(self)) ==> selections_in_bounds(*final(self)),
            in_wizard_mode(*old(self)) ==> match key {
                KeyInput::Escape => a is Nothing && cancel_create_rel(*old(self), *final(self)),
                KeyInput::Tab => a is Nothing && *final(self) == (App {
                    job_wizard: final(self).job_wizard,
                    ..*old(self)
                }) && wizard_next_rel(old(self).job_wizard, final(self).job_wizard),
                KeyInput::BackTab => a is Nothing && *final(self) == (App {
                    job_wizard: final(self).job_wizard,
                    ..*old(self)
                }) && wizard_prev_rel(old(self).job_wizard, final(self).job_wizard),
                KeyInput::Enter => a is SubmitJob && *final(self) == *old(self),
                KeyInput::Char(c) => a is Nothing && *final(self) == (App {
                    job_wizard: final(self).job_wizard,
                    ..*old(self)
                }) && wizard_char_rel(old(self).job_wizard, final(self).job_wizard, c),
                KeyInput::Backspace => a is Nothing && *final(self) == (App {
                    job_wizard: final(self).job_wizard,
                    ..*old(self)
                }) && wizard_backspace_rel(old(self).job_wizard, final(self).job_wizard),
                _ => a is Nothing && *final(self) == *old(self),
            },
            in_search_mode(*old(self)) ==> match key {
                KeyInput::Escape => a is Nothing && clear_search_rel(*old(self), *final(self)),
                KeyInput::Enter => a is Nothing && *final(self) == (App {
                    search_box: (SearchBox { active: false, ..old(self).search_box }),
                    ..*old(self)
                }),
                KeyInput::Char(c) => a is Nothing && *final(self) == (App {
                    search_box: final(self).search_box,
                    ..*old(self)
                }) && search_char_rel(old(self).search_box, final(self).search_box, c),
                KeyInput::Backspace => a is Nothing && *final(self) == (App {
                    search_box: final(self).search_box,
                    ..*old(self)
                }) && search_backspace_rel(old(self).search_box, final(self).search_box),
                _ => a is Nothing && *final(self) == *old(self),
            },
            in_status_mode(*old(self)) ==> a is Nothing && *final(self) == (App {
                status_message: None,
                ..*old(self)
            }),
            (!in_wizard_mode(*old(self)) && !in_search_mode(*old(self)) && !in_status_mode(
                *old(self),
            )) ==> match key {
                KeyInput::Char(c) => if c == 'q' {
                    a is Quit && *final(self) == *old(self)
                } else if c == 'r' {
                    a is Refresh && *final(self) == *old(self)
                } else if c == 'c' {
                    a is Nothing && start_create_rel(*old(self), *final(self))
                } else if c == '/' {
                    a is Nothing && toggle_search_rel(*old(self), *final(self))
                } else if c == 'j' {
                    a is Nothing && on_down_rel(*old(self), *final(self))
                } else if c == 'k' {
                    a is Nothing && on_up_rel(*old(self), *final(self))
                } else if c == '?' {
                    a is Nothing && toggle_help_rel(*old(self), *final(self))
                } else {
                    a is Nothing && *final(self) == *old(self)
                },
                KeyInput::Tab => a is Nothing && *final(self) == (App {
                    state: view_after(old(self).state),
                    ..*old(self)
                }),
                KeyInput::BackTab => a is Nothing && *final(self) == (App {
                    state: view_before(old(self).state),
                    ..*old(self)
                }),
                KeyInput::Down => a is Nothing && on_down_rel(*old(self), *final(self)),
                KeyInput::Up => a is Nothing && on_up_rel(*old(self), *final(self)),
                KeyInput::Enter => a is Nothing && *final(self) == *old(self),
                KeyInput::Escape => a is Nothing && *final(self) == *old(self),
                KeyInput::Backspace => a is Nothing && *final(self) == *old(self),
            },
    {
        let in_wizard = match self.state {
            AppState::CreateJob => true,
            _ => false,
        };
        if in_wizard {
            return match key {
                KeyInput::Escape => {
                    self.cancel_create_job();
                    Action::Nothing
                },
                KeyInput::Tab => {
                    self.job_wizard.next_step();
                    Action::Nothing
                },
                KeyInput::BackTab => {
                    self.job_wizard.previous_step();
                    Action::Nothing
                },
                KeyInput::Enter => Action::SubmitJob,
                KeyInput::Char(c) => {
                    self.job_wizard.handle_char(c);
                    Action::Nothing
                },
                KeyInput::Backspace => {
                    self.job_wizard.handle_backspace();
                    Action::Nothing
                },
                _ => Action::Nothing,
            };
        }
        if self.search_box.active {
            return match key {
                KeyInput::Escape => {
                    self.clear_search();
                    Action::Nothing
                },
                KeyInput::Enter => {
                    self.search_box.deactivate();
                    Action::Nothing
                },
                KeyInput::Char(c) => {
                    self.search_box.handle_char(c);
                    Action::Nothing
                },
                KeyInput::Backspace => {
                    self.search_box.handle_backspace();
                    Action::Nothing
                },
                _ => Action::Nothing,
            };
        }
        let has_status = match &self.status_message {
            Some(_) => true,
            None => false,
        };
        if has_status {
            self.clear_status_message();
            return Action::Nothing;
        }
        match key {
            KeyInput::Char(c) => {
                if c == 'q' {
                    Action::Quit
                } else if c == 'r' {
                    Action::Refresh
                } else if c == 'c' {
                    self.start_create_job();
                    Action::Nothing
                } else if c == '/' {
                    self.toggle_search();
                    Action::Nothing
                } else if c == 'j' {
                    self.on_down();
                    Action::Nothing
                } else if c == 'k' {
                    self.on_up();
                    Action::Nothing
                } else if c == '?' {
                    self.toggle_help();
                    Action::Nothing
                } else {
                    Action::Nothing
                }
            },
            KeyInput::Tab => {
                self.next_view();
                Action::Nothing
            },
            KeyInput::BackTab => {
                self.previous_view();
                Action::Nothing
            },
            KeyInput::Down => {
                self.on_down();
                Action::Nothing
            },
            KeyInput::Up => {
                self.on_up();
                Action::Nothing
            },
            KeyInput::Enter => {
                self.on_select();
                Action::Nothing
            },
            KeyInput::Escape => Action::Nothing,
            KeyInput::Backspace => Action::Nothing,
        }
    }
}

/// The three ring views cycle: a forward step is undone by a backward one
/// (and the other way round) on every ring view, and three forward or three
/// backward steps from the dashboard come back to it.
pub proof fn lemma_view_ring()
    ensures
        view_after(view_after(view_after(AppState::Dashboard))) == AppState::Dashboard,
        view_before(view_before(view_before(AppState::Dashboard))) == AppState::Dashboard,
        forall|v: AppState|
            (v is Dashboard || v is Jobs || v is Assets) ==> #[trigger] view_before(view_after(v))
                == v,
        forall|v: AppState|
            (v is Dashboard || v is Jobs || v is Assets) ==> #[trigger] view_after(view_before(v))
                == v,
{
    assert forall|v: AppState| (v is Dashboard || v is Jobs || v is Assets) implies #[trigger]
        view_before(view_after(v)) == v by {
        match v {
            AppState::Dashboard => {},
            AppState::Jobs => {},
            AppState::Assets => {},
            AppState::Help => {},
            AppState::CreateJob => {},
        }
    }
    assert forall|v: AppState| (v is Dashboard || v is Jobs || v is Assets) implies #[trigger]
        view_after(view_before(v)) == v by {
        match v {
            AppState::Dashboard => {},
            AppState::Jobs => {},
            AppState::Assets => {},
            AppState::Help => {},
            AppState::CreateJob => {},
        }
    }
}

/// With the selection invariant, moving the cursor of an empty list
/// changes nothing: both `on_up` and `on_down` are no-ops in either list
/// view when its snapshot is empty.
pub proof fn lemma_empty_list_moves_are_noops(o: App, n: App)
    requires
        selections_in_bounds(o),
    ensures
        (o.state is Jobs && o.jobs@.len() == 0 && on_up_rel(o, n)) ==> n == o,
        (o.state is Jobs && o.jobs@.len() == 0 && on_down_rel(o, n)) ==> n == o,
        (o.state is Assets && o.assets@.len() == 0 && on_up_rel(o, n)) ==> n == o,
        (o.state is Assets && o.assets@.len() == 0 && on_down_rel(o, n)) ==> n == o,
{
    lemma_filtered_jobs_le(o);
    lemma_filtered_assets_le(o);
    if o.state is Jobs && o.jobs@.len() == 0 {
        assert(o.selected_job_index == 0);
        if on_up_rel(o, n) {
            assert(n == (App { selected_job_index: n.selected_job_index, ..o }));
            assert(n.selected_job_index == o.selected_job_index);
            assert(n == o);
        }
        if on_down_rel(o, n) {
            assert(filtered_jobs_spec(o).len() == 0);
            assert(n.selected_job_index == o.selected_job_index);
            assert(n == o);
        }
    }
    if o.state is Assets && o.assets@.len() == 0 {
        assert(o.selected_asset_index == 0);
        if on_up_rel(o, n) {
            assert(n.selected_asset_index == o.selected_asset_index);
            assert(n == o);
        }
        if on_down_rel(o, n) {
            assert(filtered_assets_spec(o).len() == 0);
            assert(n.selected_asset_index == o.selected_asset_index);
            assert(n == o);
        }
    }
}

} // verus!

