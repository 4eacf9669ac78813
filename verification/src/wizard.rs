//! The job-creation wizard: a linear four-step state machine collecting a
//! job name, a scene count and an optional configuration path, with
//! per-step validation.

use vstd::prelude::*;
use crate::numbers::parse_i32;
use crate::numbers::parse_i32_spec;
use crate::text::insert_char_at;
use crate::text::remove_char_at;

verus! {

/// The four steps, walked in order and clamped at both ends.
#[derive(Debug, Copy, Clone, PartialEq, Eq, Structural)]
pub enum WizardStep {
    JobName,
    NumScenes,
    ConfigFile,
    Confirm,
}

/// The step after the given one; `Confirm` is terminal.
pub open spec fn step_after(s: WizardStep) -> WizardStep {
    match s {
        WizardStep::JobName => WizardStep::NumScenes,
        WizardStep::NumScenes => WizardStep::ConfigFile,
        WizardStep::ConfigFile => WizardStep::Confirm,
        WizardStep::Confirm => WizardStep::Confirm,
    }
}

/// The step before the given one; `JobName` is initial.
pub open spec fn step_before(s: WizardStep) -> WizardStep {
    match s {
        WizardStep::JobName => WizardStep::JobName,
        WizardStep::NumScenes => WizardStep::JobName,
        WizardStep::ConfigFile => WizardStep::NumScenes,
        WizardStep::Confirm => WizardStep::ConfigFile,
    }
}

/// Collects three text fields across the four steps; one cursor is shared
/// by whichever buffer the current step edits.
pub struct JobWizard {
    pub step: WizardStep,
    pub job_name: String,
    pub num_scenes: String,
    pub config_file: String,
    pub cursor_position: usize,
}

/// The buffer the given step edits; `Confirm` edits nothing.
pub open spec fn buffer_at(w: JobWizard, s: WizardStep) -> Seq<char> {
    match s {
        WizardStep::JobName => w.job_name@,
        WizardStep::NumScenes => w.num_scenes@,
        WizardStep::ConfigFile => w.config_file@,
        WizardStep::Confirm => Seq::<char>::empty(),
    }
}

/// The wizard accepts submission iff the name is non-empty and the scene
/// count parses as a positive integer; the config path never invalidates it.
pub open spec fn wizard_valid_spec(w: JobWizard) -> bool {
    &&& w.job_name@.len() > 0
    &&& match parse_i32_spec(w.num_scenes@) {
        Some(v) => v > 0,
        None => false,
    }
}

/// The cursor position after clamping into the buffer that step `s` edits.
pub open spec fn clamped_cursor(o: JobWizard, s: WizardStep) -> int {
    if o.cursor_position <= buffer_at(o, s).len() {
        o.cursor_position as int
    } else {
        buffer_at(o, s).len() as int
    }
}

/// How `next_step` changes the wizard: one step forward, buffers kept, the
/// cursor clamped into the newly edited buffer.
pub open spec fn wizard_next_rel(o: JobWizard, n: JobWizard) -> bool {
    &&& n.step == step_after(o.step)
    &&& n.job_name@ == o.job_name@
    &&& n.num_scenes@ == o.num_scenes@
    &&& n.config_file@ == o.config_file@
    &&& n.cursor_position == clamped_cursor(o, step_after(o.step))
    &&& n.wf()
}

/// How `previous_step` changes the wizard: one step back, buffers kept,
/// the cursor clamped into the newly edited buffer.
pub open spec fn wizard_prev_rel(o: JobWizard, n: JobWizard) -> bool {
    &&& n.step == step_before(o.step)
    &&& n.job_name@ == o.job_name@
    &&& n.num_scenes@ == o.num_scenes@
    &&& n.config_file@ == o.config_file@
    &&& n.cursor_position == clamped_cursor(o, step_before(o.step))
    &&& n.wf()
}

/// How `handle_char` changes the wizard: the character goes into the buffer
/// of the current step at the cursor; nothing moves at `Confirm`.
pub open spec fn wizard_char_rel(o: JobWizard, n: JobWizard, c: char) -> bool {
    &&& n.step == o.step
    &&& (o.step is Confirm ==> n == o)
    &&& (!(o.step is Confirm) ==> buffer_at(n, o.step) == buffer_at(o, o.step).insert(
        o.cursor_position as int,
        c,
    ) && n.cursor_position == o.cursor_position + 1)
    &&& (o.step is JobName ==> n.num_scenes@ == o.num_scenes@ && n.config_file@
        == o.config_file@)
    &&& (o.step is NumScenes ==> n.job_name@ == o.job_name@ && n.config_file@
        == o.config_file@)
    &&& (o.step is ConfigFile ==> n.job_name@ == o.job_name@ && n.num_scenes@
        == o.num_scenes@)
    &&& n.wf()
}

/// How `handle_backspace` changes the wizard: the character before the
/// cursor leaves the buffer of the current step; nothing moves at `Confirm`
/// or at offset zero.
pub open spec fn wizard_backspace_rel(o: JobWizard, n: JobWizard) -> bool {
    &&& n.step == o.step
    &&& ((o.step is Confirm || o.cursor_position == 0) ==> n == o)
    &&& (!(o.step is Confirm || o.cursor_position == 0) ==> buffer_at(n, o.step) == buffer_at(
        o,
        o.step,
    ).remove(o.cursor_position - 1) && n.cursor_position == o.cursor_position - 1)
    &&& (o.step is JobName ==> n.num_scenes@ == o.num_scenes@ && n.config_file@
        == o.config_file@)
    &&& (o.step is NumScenes ==> n.job_name@ == o.job_name@ && n.config_file@
        == o.config_file@)
    &&& (o.step is ConfigFile ==> n.job_name@ == o.job_name@ && n.num_scenes@
        == o.num_scenes@)
    &&& n.wf()
}

/// The state `new` and `reset` establish: first step, empty name and
/// config path, the default scene count, cursor at the start.
pub open spec fn wizard_initial(w: JobWizard) -> bool {
    &&& w.step == WizardStep::JobName
    &&& w.job_name@ == Seq::<char>::empty()
    &&& w.num_scenes@ == "100"@
    &&& w.config_file@ == Seq::<char>::empty()
    &&& w.cursor_position == 0
}

impl JobWizard {
    /// The cursor stays inside the buffer of the current step; `Confirm`
    /// has no editable buffer and leaves the cursor where it was.
    pub open spec fn wf(&self) -> bool {
        self.step is Confirm || self.cursor_position <= buffer_at(*self, self.step).len()
    }

    /// A fresh wizard: at the first step, empty name and config path, scene
    /// count defaulted to `"100"`.
    pub fn new() -> (r: JobWizard)
        ensures
            r.step == WizardStep::JobName,
            r.job_name@ == Seq::<char>::empty(),
            r.num_scenes@ == "100"@,
            r.config_file@ == Seq::<char>::empty(),
            r.cursor_position == 0,
            r.wf(),
    {
        JobWizard {
            step: WizardStep::JobName,
            job_name: String::new(),
            num_scenes: String::from_str("100"),
            config_file: String::new(),
            cursor_position: 0,
        }
    }

    /// Moves the cursor inside the buffer of the current step, keeping its
    /// offset where that buffer is long enough.
    fn clamp_cursor(&mut self)
        ensures
            final(self).step == old(self).step,
            final(self).job_name@ == old(self).job_name@,
            final(self).num_scenes@ == old(self).num_scenes@,
            final(self).config_file@ == old(self).config_file@,
            final(self).cursor_position == (if old(self).cursor_position <= buffer_at(
                *old(self),
                old(self).step,
            ).len() {
                old(self).cursor_position as int
            } else {
                buffer_at(*old(self), old(self).step).len() as int
            }),
            final(self).wf(),
    {
        let len: usize = match self.step {
            WizardStep::JobName => self.job_name.as_str().unicode_len(),
            WizardStep::NumScenes => self.num_scenes.as_str().unicode_len(),
            WizardStep::ConfigFile => self.config_file.as_str().unicode_len(),
            WizardStep::Confirm => 0,
        };
        if self.cursor_position > len {
            self.cursor_position = len;
        }
        proof {
            if self.step is Confirm {
            } else {
                assert(self.cursor_position <= buffer_at(*self, self.step).len());
            }
        }
    }

    /// Advances one step, staying at `Confirm`; the cursor is clamped into
    /// the newly edited buffer.
    pub fn next_step(&mut self)
        ensures
            final(self).step == step_after(old(self).step),
            final(self).job_name@ == old(self).job_name@,
            final(self).num_scenes@ == old(self).num_scenes@,
            final(self).config_file@ == old(self).config_file@,
            final(self).cursor_position == (if old(self).cursor_position <= buffer_at(
                *old(self),
                step_after(old(self).step),
            ).len() {
                old(self).cursor_position as int
            } else {
                buffer_at(*old(self), step_after(old(self).step)).len() as int
            }),
            final(self).wf(),
            wizard_next_rel(*old(self), *final(self)),
    {
        self.step = match self.step {
            WizardStep::JobName => WizardStep::NumScenes,
            WizardStep::NumScenes => WizardStep::ConfigFile,
            WizardStep::ConfigFile => WizardStep::Confirm,
            WizardStep::Confirm => WizardStep::Confirm,
        };
        self.clamp_cursor();
    }

    /// Retreats one step, staying at `JobName`; the cursor is clamped into
    /// the newly edited buffer.
    pub fn previous_step(&mut self)
        ensures
            final(self).step == step_before(old(self).step),
            final(self).job_name@ == old(self).job_name@,
            final(self).num_scenes@ == old(self).num_scenes@,
            final(self).config_file@ == old(self).config_file@,
            final(self).cursor_position == (if old(self).cursor_position <= buffer_at(
                *old(self),
                step_before(old(self).step),
            ).len() {
                old(self).cursor_position as int
            } else {
                buffer_at(*old(self), step_before(old(self).step)).len() as int
            }),
            final(self).wf(),
            wizard_prev_rel(*old(self), *final(self)),
    {
        self.step = match self.step {
            WizardStep::JobName => WizardStep::JobName,
            WizardStep::NumScenes => WizardStep::JobName,
            WizardStep::ConfigFile => WizardStep::NumScenes,
            WizardStep::Confirm => WizardStep::ConfigFile,
        };
        self.clamp_cursor();
    }

    /// Inserts the character at the cursor in the buffer of the current
    /// step and advances the cursor; a no-op at `Confirm`.
    pub fn handle_char(&mut self, c: char)
        requires
            old(self).wf(),
        ensures
            final(self).step == old(self).step,
            old(self).step is Confirm ==> *final(self) == *old(self),
            !(old(self).step is Confirm) ==> {
                &&& buffer_at(*final(self), old(self).step) == buffer_at(
                    *old(self),
                    old(self).step,
                ).insert(old(self).cursor_position as int, c)
                &&& final(self).cursor_position == old(self).cursor_position + 1
            },
            old(self).step is JobName ==> final(self).num_scenes@ == old(self).num_scenes@
                && final(self).config_file@ == old(self).config_file@,
            old(self).step is NumScenes ==> final(self).job_name@ == old(self).job_name@
                && final(self).config_file@ == old(self).config_file@,
            old(self).step is ConfigFile ==> final(self).job_name@ == old(self).job_name@
                && final(self).num_scenes@ == old(self).num_scenes@,
            final(self).wf(),
            wizard_char_rel(*old(self), *final(self), c),
    {
        match self.step {
            WizardStep::JobName => {
                self.job_name = insert_char_at(&self.job_name, self.cursor_position, c);
                let n = self.job_name.as_str().unicode_len();
                proof {
                    assert(self.cursor_position < n);
                }
                self.cursor_position = self.cursor_position + 1;
            },
            WizardStep::NumScenes => {
                self.num_scenes = insert_char_at(&self.num_scenes, self.cursor_position, c);
                let n = self.num_scenes.as_str().unicode_len();
                proof {
                    assert(self.cursor_position < n);
                }
                self.cursor_position = self.cursor_position + 1;
            },
            WizardStep::ConfigFile => {
                self.config_file = insert_char_at(&self.config_file, self.cursor_position, c);
                let n = self.config_file.as_str().unicode_len();
                proof {
                    assert(self.cursor_position < n);
                }
                self.cursor_position = self.cursor_position + 1;
            },
            WizardStep::Confirm => {},
        }
    }

    /// Removes the character before the cursor in the buffer of the current
    /// step and retreats the cursor; a no-op at `Confirm` or at offset zero.
    pub fn handle_backspace(&mut self)
        requires
            old(self).wf(),
        ensures
            final(self).step == old(self).step,
            (old(self).step is Confirm || old(self).cursor_position == 0) ==> *final(self)
                == *old(self),
            !(old(self).step is Confirm || old(self).cursor_position == 0) ==> {
                &&& buffer_at(*final(self), old(self).step) == buffer_at(
                    *old(self),
                    old(self).step,
                ).remove(old(self).cursor_position - 1)
                &&& final(self).cursor_position == old(self).cursor_position - 1
            },
            old(self).step is JobName ==> final(self).num_scenes@ == old(self).num_scenes@
                && final(self).config_file@ == old(self).config_file@,
            old(self).step is NumScenes ==> final(self).job_name@ == old(self).job_name@
                && final(self).config_file@ == old(self).config_file@,
            old(self).step is ConfigFile ==> final(self).job_name@ == old(self).job_name@
                && final(self).num_scenes@ == old(self).num_scenes@,
            final(self).wf(),
            wizard_backspace_rel(*old(self), *final(self)),
    {
        if self.cursor_position > 0 {
            match self.step {
                WizardStep::JobName => {
                    self.job_name = remove_char_at(&self.job_name, self.cursor_position - 1);
                    self.cursor_position = self.cursor_position - 1;
                },
                WizardStep::NumScenes => {
                    self.num_scenes = remove_char_at(&self.num_scenes, self.cursor_position - 1);
                    self.cursor_position = self.cursor_position - 1;
                },
                WizardStep::ConfigFile => {
                    self.config_file = remove_char_at(&self.config_file, self.cursor_position - 1);
                    self.cursor_position = self.cursor_position - 1;
                },
                WizardStep::Confirm => {},
            }
        }
    }

    /// Returns the wizard to its initial state: first step, cleared name
    /// and config path, scene count back to the `"100"` default.
    pub fn reset(&mut self)
        ensures
            final(self).step == WizardStep::JobName,
            final(self).job_name@ == Seq::<char>::empty(),
            final(self).num_scenes@ == "100"@,
            final(self).config_file@ == Seq::<char>::empty(),
            final(self).cursor_position == 0,
            final(self).wf(),
    {
        self.step = WizardStep::JobName;
        self.job_name = String::new();
        self.num_scenes = String::from_str("100");
        self.config_file = String::new();
        self.cursor_position = 0;
    }

    /// Whether the collected fields make a submittable job request.
    pub fn is_valid(&self) -> (r: bool)
        ensures
            r == wizard_valid_spec(*self),
    {
        if self.job_name.as_str().is_empty() {
            return false;
        }
        match parse_i32(self.num_scenes.as_str()) {
            Some(v) => v > 0,
            None => false,
        }
    }
}

/// Stepping backward from the initial step and forward from the terminal
/// step are no-ops, and elsewhere the two step maps undo one another.
pub proof fn lemma_step_clamping()
    ensures
        step_before(WizardStep::JobName) == WizardStep::JobName,
        step_after(WizardStep::Confirm) == WizardStep::Confirm,
        forall|s: WizardStep|
            !(s is Confirm) ==> #[trigger] step_before(step_after(s)) == s,
        forall|s: WizardStep|
            !(s is JobName) ==> #[trigger] step_after(step_before(s)) == s,
{
    assert forall|s: WizardStep| !(s is Confirm) implies #[trigger] step_before(step_after(s))
        == s by {
        match s {
            WizardStep::JobName => {},
            WizardStep::NumScenes => {},
            WizardStep::ConfigFile => {},
            WizardStep::Confirm => {},
        }
    }
    assert forall|s: WizardStep| !(s is JobName) implies #[trigger] step_after(step_before(s))
        == s by {
        match s {
            WizardStep::JobName => {},
            WizardStep::NumScenes => {},
            WizardStep::ConfigFile => {},
            WizardStep::Confirm => {},
        }
    }
}

} // verus!
