//! The orchestrator: a state machine that sequences the whole run —
//! bootstrap, version-control setup, the concurrent scaffolding group,
//! and the trailing sample-module group — and decides, from each outside
//! outcome, what to do next. The surrounding program performs the emitted
//! actions (subprocesses, template retrievals, file writes) and feeds
//! their outcomes back as events; every ordering rule and every failure
//! rule is stated and proved here over the machine's history.

use crate::command::CommandSpec;
use crate::command::GIT_COMMAND_COUNT;
use crate::command::bootstrap_command;
use crate::command::git_command;
use crate::command::native_command;
use crate::command::spec_is_bootstrap_cmd;
use crate::command::spec_is_git_cmd;
use crate::command::spec_is_native_cmd;
use crate::plugin_name::PluginName;
use crate::render::StepStage;
use crate::render::render_template;
use crate::render::spec_step_contents;
use crate::template::SampleFile;
use crate::template::StepId;
use crate::template::api_dir;
use crate::template::spec_api_dir;
use crate::template::spec_template_url;
use crate::template::template_url;
use vstd::prelude::*;

verus! {

/// How far one scaffolding step of the concurrent group has come.
#[derive(Clone, Copy, PartialEq, Eq, Structural, Debug)]
pub enum StepState {
    /// Not dispatched yet.
    Idle,
    /// Waiting on the native package tool (the `RustLib` step only).
    Creating,
    /// Waiting on the template text.
    Fetching,
    /// The rendered text was handed out for writing.
    Writing,
    /// The step's file was written.
    Done,
    /// The step failed, at the given stage; siblings are not cancelled.
    Failed { stage: StepStage },
}

/// The orchestrator's phase, from capture of the plugin name to one of
/// the two terminal states.
#[derive(Clone, Copy, PartialEq, Eq, Structural, Debug)]
pub enum Phase {
    /// Waiting on the project-creation tool.
    Bootstrapping,
    /// Running the version-control commands, in strict sequence.
    VcsInit,
    /// The concurrent step group is in flight.
    Parallel,
    /// Waiting on creation of the sample-module directory.
    SampleDir,
    /// Waiting on the sample-module writes.
    SampleFiles,
    /// Every step completed.
    Succeeded,
    /// The run ended with a failure recorded.
    Aborted,
}

/// The external tool a `Run` action invokes.
#[derive(Clone, Copy, PartialEq, Eq, Structural, Debug)]
pub enum ToolKind {
    /// The project-creation tool laying down the base tree.
    Bootstrap,
    /// The version-control tool.
    Vcs,
    /// The native package tool creating the library sub-project.
    NativePackage,
}

/// An outcome the surrounding program reports back to the machine.
pub enum Event {
    /// The project-creation tool exited, successfully or not.
    BootstrapDone { ok: bool },
    /// The pending version-control command exited.
    GitDone { ok: bool },
    /// The native package tool exited.
    NativeToolDone { ok: bool },
    /// A template retrieval finished: the body, or `None` on a transport
    /// failure.
    TemplateFetched { step: StepId, text: Option<String> },
    /// A step's file write finished.
    FileWritten { step: StepId, ok: bool },
    /// Creation of the sample-module directory finished.
    DirMade { ok: bool },
    /// One sample-module write finished.
    SampleWritten { which: SampleFile, ok: bool },
}

/// An order the machine hands to the surrounding program.
pub enum Action {
    /// Run a subprocess, standard output suppressed; `tool` says which
    /// external tool it is, so the outcome can be routed back without
    /// inspecting the command line.
    Run { tool: ToolKind, cmd: CommandSpec },
    /// Retrieve the template for `step` from the fixed remote origin.
    FetchTemplate { step: StepId, url: String },
    /// Write `contents` at `path` under the project root, creating the
    /// file or truncating an existing one.
    WriteFile { step: StepId, path: Vec<String>, contents: String },
    /// Create the sample-module directory under the project root.
    MakeDir { path: Vec<String> },
    /// Write one sample-module file, inside the just-created directory.
    WriteSample { which: SampleFile, path: Vec<String>, contents: String },
}

pub open spec fn step_index_spec(s: StepId) -> int {
    match s {
        StepId::RustLib => 0,
        StepId::FrbYaml => 1,
        StepId::MacosPod => 2,
        StepId::IosPod => 3,
        StepId::WindowsCmake => 4,
        StepId::LinuxCmake => 5,
        StepId::AndroidGradle => 6,
        StepId::Pubspec => 7,
    }
}

/// The step dispatched at slot `i` of the concurrent group.
pub open spec fn spec_step_at(i: int) -> StepId {
    if i == 0 {
        StepId::RustLib
    } else if i == 1 {
        StepId::FrbYaml
    } else if i == 2 {
        StepId::MacosPod
    } else if i == 3 {
        StepId::IosPod
    } else if i == 4 {
        StepId::WindowsCmake
    } else if i == 5 {
        StepId::LinuxCmake
    } else if i == 6 {
        StepId::AndroidGradle
    } else {
        StepId::Pubspec
    }
}

fn step_index(s: &StepId) -> (i: usize)
    ensures
        i == step_index_spec(*s),
        i < 8,
{
    match s {
        StepId::RustLib => 0,
        StepId::FrbYaml => 1,
        StepId::MacosPod => 2,
        StepId::IosPod => 3,
        StepId::WindowsCmake => 4,
        StepId::LinuxCmake => 5,
        StepId::AndroidGradle => 6,
        StepId::Pubspec => 7,
    }
}

pub open spec fn spec_terminal(st: StepState) -> bool {
    st is Done || st is Failed
}

pub open spec fn spec_all_terminal(s: Seq<StepState>) -> bool {
    forall|j: int| 0 <= j < s.len() ==> spec_terminal(#[trigger] s[j])
}

pub open spec fn spec_any_failed(s: Seq<StepState>) -> bool {
    exists|j: int| 0 <= j < s.len() && (#[trigger] s[j]) is Failed
}

/// Whether the step has passed the native package tool's stage: for every
/// step but `RustLib` that is any dispatch at all; for `RustLib` it means
/// the tool returned success.
pub open spec fn spec_past_tool(st: StepState) -> bool {
    match st {
        StepState::Idle => false,
        StepState::Creating => false,
        StepState::Failed { stage } => !(stage is Tool),
        _ => true,
    }
}

/// Whether a write was ever handed out for a step in this state.
pub open spec fn spec_write_reached(st: StepState) -> bool {
    match st {
        StepState::Writing => true,
        StepState::Done => true,
        StepState::Failed { stage } => stage is Write,
        _ => false,
    }
}

pub open spec fn spec_has_bootstrap_ok(es: Seq<Event>) -> bool {
    exists|i: int| 0 <= i < es.len() && (#[trigger] es[i]) matches Event::BootstrapDone { ok: true }
}

pub open spec fn spec_has_native_ok(es: Seq<Event>) -> bool {
    exists|i: int|
        0 <= i < es.len() && (#[trigger] es[i]) matches Event::NativeToolDone { ok: true }
}

/// An action that touches the project tree.
pub open spec fn spec_is_material_action(a: Action) -> bool {
    a is WriteFile || a is MakeDir || a is WriteSample
}

/// An action of the sample-module group.
pub open spec fn spec_is_sample_action(a: Action) -> bool {
    a is MakeDir || a is WriteSample
}

/// Whether `c` is a text some successful rendering of the step's template
/// with this plugin name can produce: a written file is always a complete
/// rendering, never a truncated one.
pub open spec fn spec_is_rendered(step: StepId, name: Seq<char>, c: Seq<char>) -> bool {
    exists|txt: Seq<char>|
        spec_step_contents(step.spec_template(), name, txt) == Ok::<Seq<char>, ()>(c)
}

pub open spec fn spec_is_fetch_for(a: Action, s: StepId) -> bool {
    a matches Action::FetchTemplate { step, url } && step == s && url@ == spec_template_url(
        s.spec_template(),
    )
}

/// What every action of the history must satisfy, against the machine's
/// current name and step table.
pub open spec fn spec_action_ok(a: Action, name: Seq<char>, steps: Seq<StepState>) -> bool {
    match a {
        Action::WriteFile { step, path, contents } => {
            &&& path.deep_view() == step.spec_target_path(name)
            &&& spec_is_rendered(step, name, contents@)
            &&& 0 <= step_index_spec(step) < steps.len()
            &&& spec_write_reached(steps[step_index_spec(step)])
        },
        Action::MakeDir { path } => path.deep_view() == spec_api_dir(),
        Action::WriteSample { which, path, contents } => path.deep_view() == which.spec_path()
            && contents@ == which.spec_contents(),
        _ => true,
    }
}

/// The step table the moment the concurrent group is dispatched.
pub open spec fn spec_initial_steps(s: Seq<StepState>) -> bool {
    &&& s.len() == 8
    &&& s[0] is Creating
    &&& forall|j: int| 1 <= j < 8 ==> (#[trigger] s[j]) is Fetching
}

/// The batch of actions dispatching the concurrent group: the native
/// package tool, then one template retrieval per remaining step.
pub open spec fn spec_parallel_batch(acts: Seq<Action>, name: Seq<char>) -> bool {
    &&& acts.len() == 8
    &&& acts[0] matches Action::Run { tool, cmd } && tool is NativePackage
        && spec_is_native_cmd(cmd, name)
    &&& forall|j: int| 1 <= j < 8 ==> spec_is_fetch_for(#[trigger] acts[j], spec_step_at(j))
}

pub open spec fn spec_sample_at(i: int) -> SampleFile {
    if i == 0 {
        SampleFile::ModIndex
    } else if i == 1 {
        SampleFile::Example
    } else {
        SampleFile::EntryPoint
    }
}

/// The batch of actions writing the sample module.
pub open spec fn spec_sample_writes(acts: Seq<Action>) -> bool {
    &&& acts.len() == 3
    &&& forall|j: int|
        0 <= j < 3 ==> ((#[trigger] acts[j]) matches Action::WriteSample { which, path, contents }
            && which == spec_sample_at(j) && path.deep_view() == which.spec_path() && contents@
            == which.spec_contents())
}

/// How the machine leaves the concurrent phase once a step turned
/// terminal: while any step is pending nothing more happens; when all are
/// terminal and the native sub-project step completed, the sample group
/// starts with the directory creation; otherwise the run aborts.
pub open spec fn spec_group_post(
    steps: Seq<StepState>,
    phase: Phase,
    acts: Seq<Action>,
) -> bool {
    if !spec_all_terminal(steps) {
        phase is Parallel && acts.len() == 0
    } else if steps[0] is Done {
        &&& phase is SampleDir
        &&& acts.len() == 1
        &&& acts[0] matches Action::MakeDir { path } && path.deep_view() == spec_api_dir()
    } else {
        phase is Aborted && acts.len() == 0
    }
}

/// The orchestration state machine. `events` and `actions` record, in
/// order, every outcome it was handed and every order it emitted; the
/// ordering and failure laws are stated over those histories.
pub struct Orchestrator {
    pub name: PluginName,
    pub phase: Phase,
    /// Version-control commands acknowledged so far.
    pub git_step: usize,
    /// One slot per step of the concurrent group, `RustLib` first.
    pub steps: Vec<StepState>,
    /// Sample-module writes acknowledged so far.
    pub sample_acks: usize,
    /// Whether a sample-module write failed.
    pub sample_failed: bool,
    pub events: Ghost<Seq<Event>>,
    pub actions: Ghost<Seq<Action>>,
}

/// Whether the machine reacts to `e` at all in its current state; any
/// other event leaves it unchanged.
pub open spec fn spec_applicable(o: Orchestrator, e: Event) -> bool {
    match (o.phase, e) {
        (Phase::Bootstrapping, Event::BootstrapDone { .. }) => true,
        (Phase::VcsInit, Event::GitDone { .. }) => true,
        (Phase::Parallel, Event::NativeToolDone { .. }) => o.steps@[0] is Creating,
        (Phase::Parallel, Event::TemplateFetched { step, .. }) => o.steps@[step_index_spec(step)]
            is Fetching,
        (Phase::Parallel, Event::FileWritten { step, .. }) => o.steps@[step_index_spec(step)]
            is Writing,
        (Phase::SampleDir, Event::DirMade { .. }) => true,
        (Phase::SampleFiles, Event::SampleWritten { .. }) => o.sample_acks < 3,
        _ => false,
    }
}

/// Everything but the histories is unchanged.
pub open spec fn spec_same_core(a: Orchestrator, b: Orchestrator) -> bool {
    &&& a.name == b.name
    &&& a.phase == b.phase
    &&& a.git_step == b.git_step
    &&& a.steps@ == b.steps@
    &&& a.sample_acks == b.sample_acks
    &&& a.sample_failed == b.sample_failed
}

/// The machine's full reaction to one event: for every state and every
/// outcome, what the next state is and which orders come out.
pub open spec fn spec_handle_post(
    pre: Orchestrator,
    post: Orchestrator,
    event: Event,
    acts: Seq<Action>,
) -> bool {
    match event {
        Event::BootstrapDone { ok } => pre.phase is Bootstrapping ==> if ok {
            &&& post.phase is VcsInit
            &&& post.git_step == 0
            &&& acts.len() == 1
            &&& acts[0] matches Action::Run { tool, cmd } && tool is Vcs && spec_is_git_cmd(cmd, 0)
        } else {
            post.phase is Aborted && acts.len() == 0
        },
        Event::GitDone { ok } => pre.phase is VcsInit ==> if !ok {
            post.phase is Aborted && acts.len() == 0
        } else if pre.git_step + 1 < GIT_COMMAND_COUNT {
            &&& post.phase is VcsInit
            &&& post.git_step == pre.git_step + 1
            &&& acts.len() == 1
            &&& acts[0] matches Action::Run { tool, cmd } && tool is Vcs && spec_is_git_cmd(
                cmd,
                pre.git_step + 1,
            )
        } else {
            &&& post.phase is Parallel
            &&& spec_initial_steps(post.steps@)
            &&& spec_parallel_batch(acts, post.name@)
        },
        Event::NativeToolDone { ok } => pre.phase is Parallel && pre.steps@[0] is Creating
            ==> if ok {
            &&& post.phase is Parallel
            &&& post.steps@ == pre.steps@.update(0, StepState::Fetching)
            &&& acts.len() == 1
            &&& spec_is_fetch_for(acts[0], StepId::RustLib)
        } else {
            &&& post.steps@ == pre.steps@.update(0, StepState::Failed { stage: StepStage::Tool })
            &&& spec_group_post(post.steps@, post.phase, acts)
        },
        Event::TemplateFetched { step, text } => {
            let idx = step_index_spec(step);
            pre.phase is Parallel && pre.steps@[idx] is Fetching ==> match text {
                None => post.steps@ == pre.steps@.update(
                    idx,
                    StepState::Failed { stage: StepStage::Fetch },
                ) && spec_group_post(post.steps@, post.phase, acts),
                Some(t) => match spec_step_contents(step.spec_template(), pre.name@, t@) {
                    Ok(c) => {
                        &&& post.phase is Parallel
                        &&& post.steps@ == pre.steps@.update(idx, StepState::Writing)
                        &&& acts.len() == 1
                        &&& acts[0] matches Action::WriteFile { step: s2, path, contents }
                            && s2 == step && path.deep_view() == step.spec_target_path(pre.name@)
                            && contents@ == c
                    },
                    Err(_) => post.steps@ == pre.steps@.update(
                        idx,
                        StepState::Failed { stage: StepStage::Render },
                    ) && spec_group_post(post.steps@, post.phase, acts),
                },
            }
        },
        Event::FileWritten { step, ok } => {
            let idx = step_index_spec(step);
            pre.phase is Parallel && pre.steps@[idx] is Writing ==> {
                &&& post.steps@ == pre.steps@.update(
                    idx,
                    if ok {
                        StepState::Done
                    } else {
                        StepState::Failed { stage: StepStage::Write }
                    },
                )
                &&& spec_group_post(post.steps@, post.phase, acts)
            }
        },
        Event::DirMade { ok } => pre.phase is SampleDir ==> if ok {
            &&& post.phase is SampleFiles
            &&& post.sample_acks == 0
            &&& spec_sample_writes(acts)
        } else {
            post.phase is Aborted && acts.len() == 0
        },
        Event::SampleWritten { which: _, ok } => pre.phase is SampleFiles && pre.sample_acks < 3
            ==> {
            &&& acts.len() == 0
            &&& post.sample_acks == pre.sample_acks + 1
            &&& post.sample_failed == (pre.sample_failed || !ok)
            &&& (if pre.sample_acks + 1 == 3 {
                if spec_any_failed(pre.steps@) || pre.sample_failed || !ok {
                    post.phase is Aborted
                } else {
                    post.phase is Succeeded
                }
            } else {
                post.phase is SampleFiles
            })
        },
    }
}

impl Orchestrator {
    /// The machine's invariant. Beyond bookkeeping it carries the laws:
    /// no material action without a successful bootstrap, no sample-group
    /// action without the native tool's success, and every emitted write
    /// is a complete rendering aimed at its step's own target path.
    pub open spec fn wf(self) -> bool {
        &&& self.name.wf()
        &&& self.steps@.len() == 8
        &&& self.git_step <= GIT_COMMAND_COUNT
        &&& self.phase is VcsInit ==> self.git_step < GIT_COMMAND_COUNT
        &&& self.sample_acks <= 3
        &&& (self.phase is VcsInit || self.phase is Parallel || self.phase is SampleDir
            || self.phase is SampleFiles || self.phase is Succeeded) ==> spec_has_bootstrap_ok(
            self.events@,
        )
        &&& (self.phase is SampleDir || self.phase is SampleFiles || self.phase is Succeeded)
            ==> spec_has_native_ok(self.events@)
        &&& self.phase is Parallel ==> self.git_step == GIT_COMMAND_COUNT
        &&& (self.phase is Bootstrapping || self.phase is VcsInit) ==> (forall|j: int|
            0 <= j < 8 ==> (#[trigger] self.steps@[j]) is Idle)
        &&& spec_past_tool(self.steps@[0]) ==> spec_has_native_ok(self.events@)
        &&& !spec_has_bootstrap_ok(self.events@) ==> (forall|k: int|
            0 <= k < self.actions@.len() ==> !spec_is_material_action(#[trigger] self.actions@[k]))
        &&& !spec_has_native_ok(self.events@) ==> (forall|k: int|
            0 <= k < self.actions@.len() ==> !spec_is_sample_action(#[trigger] self.actions@[k]))
        &&& forall|k: int|
            0 <= k < self.actions@.len() ==> spec_action_ok(
                #[trigger] self.actions@[k],
                self.name@,
                self.steps@,
            )
    }

    /// Starts a run: captures the name and orders the bootstrap.
    pub fn new(name: PluginName) -> (r: (Orchestrator, Vec<Action>))
        requires
            name.wf(),
        ensures
            r.0.wf(),
            r.0.phase is Bootstrapping,
            r.0.name == name,
            r.0.events@ == Seq::<Event>::empty(),
            r.0.actions@ == r.1@,
            r.1@.len() == 1,
            r.1@[0] matches Action::Run { tool, cmd } && tool is Bootstrap
                && spec_is_bootstrap_cmd(cmd, name@),
    {
        let mut steps: Vec<StepState> = Vec::new();
        let mut i: usize = 0;
        while i < 8
            invariant
                i <= 8,
                steps@.len() == i,
                forall|j: int| 0 <= j < i ==> (#[trigger] steps@[j]) is Idle,
            decreases 8 - i,
        {
            steps.push(StepState::Idle);
            i = i + 1;
        }
        let mut acts: Vec<Action> = Vec::new();
        acts.push(Action::Run { tool: ToolKind::Bootstrap, cmd: bootstrap_command(&name) });
        let o = Orchestrator {
            name,
            phase: Phase::Bootstrapping,
            git_step: 0,
            steps,
            sample_acks: 0,
            sample_failed: false,
            events: Ghost(Seq::empty()),
            actions: Ghost(acts@),
        };
        (o, acts)
    }

    /// Feeds one outside outcome to the machine and collects the orders
    /// it issues in response.
    pub fn handle(&mut self, event: Event) -> (acts: Vec<Action>)
        requires
            old(self).wf(),
        ensures
            final(self).wf(),
            final(self).name == old(self).name,
            final(self).events@ == old(self).events@.push(event),
            final(self).actions@ == old(self).actions@ + acts@,
            !spec_applicable(*old(self), event) ==> spec_same_core(*old(self), *final(self))
                && acts@.len() == 0,
            spec_handle_post(*old(self), *final(self), event, acts@),
    {
        let ghost e0 = self.events@;
        let ghost a0 = self.actions@;
        proof {
            lemma_push_keeps_bootstrap_ok(e0, event);
            lemma_push_keeps_native_ok(e0, event);
        }
        self.events = Ghost(self.events@.push(event));
        let mut acts: Vec<Action> = Vec::new();
        match event {
            Event::BootstrapDone { ok } => {
                if matches!(self.phase, Phase::Bootstrapping) {
                    if ok {
                        self.phase = Phase::VcsInit;
                        self.git_step = 0;
                        acts.push(Action::Run { tool: ToolKind::Vcs, cmd: git_command(0) });
                        proof {
                            assert(self.events@[e0.len() as int] matches Event::BootstrapDone {
                                ok: true,
                            });
                        }
                    } else {
                        self.phase = Phase::Aborted;
                    }
                }
            },
            Event::GitDone { ok } => {
                if matches!(self.phase, Phase::VcsInit) {
                    if ok {
                        self.git_step = self.git_step + 1;
                        if self.git_step < GIT_COMMAND_COUNT {
                            acts.push(Action::Run { tool: ToolKind::Vcs, cmd: git_command(self.git_step) });
                        } else {
                            self.phase = Phase::Parallel;
                            let mut fresh: Vec<StepState> = Vec::new();
                            fresh.push(StepState::Creating);
                            fresh.push(StepState::Fetching);
                            fresh.push(StepState::Fetching);
                            fresh.push(StepState::Fetching);
                            fresh.push(StepState::Fetching);
                            fresh.push(StepState::Fetching);
                            fresh.push(StepState::Fetching);
                            fresh.push(StepState::Fetching);
                            self.steps = fresh;
                            acts.push(
                                Action::Run {
                                    tool: ToolKind::NativePackage,
                                    cmd: native_command(&self.name),
                                },
                            );
                            push_fetch(&mut acts, StepId::FrbYaml);
                            push_fetch(&mut acts, StepId::MacosPod);
                            push_fetch(&mut acts, StepId::IosPod);
                            push_fetch(&mut acts, StepId::WindowsCmake);
                            push_fetch(&mut acts, StepId::LinuxCmake);
                            push_fetch(&mut acts, StepId::AndroidGradle);
                            push_fetch(&mut acts, StepId::Pubspec);
                            proof {
                                assert(spec_initial_steps(self.steps@));
                                assert(spec_parallel_batch(acts@, self.name@));
                            }
                        }
                    } else {
                        self.phase = Phase::Aborted;
                    }
                }
            },
            Event::NativeToolDone { ok } => {
                if matches!(self.phase, Phase::Parallel) {
                    let st0 = self.steps[0];
                    if matches!(st0, StepState::Creating) {
                        if ok {
                            self.steps[0] = StepState::Fetching;
                            let tmpl = StepId::RustLib.template();
                            acts.push(
                                Action::FetchTemplate {
                                    step: StepId::RustLib,
                                    url: template_url(&tmpl),
                                },
                            );
                            proof {
                                assert(self.events@[e0.len() as int] matches
                                    Event::NativeToolDone { ok: true });
                            }
                        } else {
                            self.steps[0] = StepState::Failed { stage: StepStage::Tool };
                            self.close_group_if_settled(&mut acts);
                        }
                    }
                }
            },
            Event::TemplateFetched { step, text } => {
                if matches!(self.phase, Phase::Parallel) {
                    let idx = step_index(&step);
                    let st = self.steps[idx];
                    if matches!(st, StepState::Fetching) {
                        match text {
                            None => {
                                self.steps[idx] = StepState::Failed { stage: StepStage::Fetch };
                                self.close_group_if_settled(&mut acts);
                            },
                            Some(t) => {
                                let tmpl = step.template();
                                match render_template(&tmpl, &self.name, t.as_str()) {
                                    Ok(contents) => {
                                        let path = step.target_path(&self.name);
                                        self.steps[idx] = StepState::Writing;
                                        acts.push(Action::WriteFile { step, path, contents });
                                    },
                                    Err(f) => {
                                        self.steps[idx] = StepState::Failed { stage: f.stage };
                                        self.close_group_if_settled(&mut acts);
                                    },
                                }
                            },
                        }
                    }
                }
            },
            Event::FileWritten { step, ok } => {
                if matches!(self.phase, Phase::Parallel) {
                    let idx = step_index(&step);
                    let st = self.steps[idx];
                    if matches!(st, StepState::Writing) {
                        if ok {
                            self.steps[idx] = StepState::Done;
                        } else {
                            self.steps[idx] = StepState::Failed { stage: StepStage::Write };
                        }
                        self.close_group_if_settled(&mut acts);
                    }
                }
            },
            Event::DirMade { ok } => {
                if matches!(self.phase, Phase::SampleDir) {
                    if ok {
                        self.phase = Phase::SampleFiles;
                        self.sample_acks = 0;
                        push_sample_write(&mut acts, SampleFile::ModIndex);
                        push_sample_write(&mut acts, SampleFile::Example);
                        push_sample_write(&mut acts, SampleFile::EntryPoint);
                    } else {
                        self.phase = Phase::Aborted;
                    }
                }
            },
            Event::SampleWritten { which: _, ok } => {
                if matches!(self.phase, Phase::SampleFiles) {
                    if self.sample_acks < 3 {
                        self.sample_acks = self.sample_acks + 1;
                        if !ok {
                            self.sample_failed = true;
                        }
                        if self.sample_acks == 3 {
                            if any_failed(&self.steps) || self.sample_failed {
                                self.phase = Phase::Aborted;
                            } else {
                                self.phase = Phase::Succeeded;
                            }
                        }
                    }
                }
            },
        }
        self.actions = Ghost(a0 + acts@);
        proof {
            let na = self.actions@;
            assert forall|k: int|
                0 <= k < na.len() implies spec_action_ok(na[k], self.name@, self.steps@) by {
                if k < a0.len() {
                    assert(na[k] == a0[k]);
                    assert(spec_action_ok(a0[k], old(self).name@, old(self).steps@));
                } else {
                    assert(na[k] == acts@[k - a0.len()]);
                }
            }
            if !spec_has_bootstrap_ok(self.events@) {
                assert forall|k: int|
                    0 <= k < na.len() implies !spec_is_material_action(na[k]) by {
                    if k < a0.len() {
                        assert(na[k] == a0[k]);
                    } else {
                        assert(na[k] == acts@[k - a0.len()]);
                    }
                }
            }
            if !spec_has_native_ok(self.events@) {
                assert forall|k: int| 0 <= k < na.len() implies !spec_is_sample_action(na[k]) by {
                    if k < a0.len() {
                        assert(na[k] == a0[k]);
                    } else {
                        assert(na[k] == acts@[k - a0.len()]);
                    }
                }
            }
        }
        acts
    }

    /// Once every step of the concurrent group is terminal, leaves the
    /// phase: the sample group starts when the native sub-project step
    /// completed, and the run aborts otherwise.
    fn close_group_if_settled(&mut self, acts: &mut Vec<Action>)
        requires
            old(self).phase is Parallel,
            old(self).steps@.len() == 8,
            old(acts)@.len() == 0,
        ensures
            final(self).name == old(self).name,
            final(self).steps@ == old(self).steps@,
            final(self).git_step == old(self).git_step,
            final(self).sample_acks == old(self).sample_acks,
            final(self).sample_failed == old(self).sample_failed,
            final(self).events@ == old(self).events@,
            final(self).actions@ == old(self).actions@,
            spec_group_post(final(self).steps@, final(self).phase, final(acts)@),
    {
        if group_settled(&self.steps) {
            let st0 = self.steps[0];
            if matches!(st0, StepState::Done) {
                self.phase = Phase::SampleDir;
                acts.push(Action::MakeDir { path: api_dir() });
            } else {
                self.phase = Phase::Aborted;
            }
        }
    }

    /// Reads one step's progress.
    pub fn step_state(&self, step: &StepId) -> (st: StepState)
        requires
            self.steps@.len() == 8,
        ensures
            st == self.steps@[step_index_spec(*step)],
    {
        let idx = step_index(step);
        self.steps[idx]
    }

    /// The machine's current phase.
    pub fn current_phase(&self) -> (p: Phase)
        ensures
            p == self.phase,
    {
        self.phase
    }
}

fn push_sample_write(acts: &mut Vec<Action>, which: SampleFile)
    ensures
        final(acts)@.len() == old(acts)@.len() + 1,
        forall|i: int| 0 <= i < old(acts)@.len() ==> final(acts)@[i] == old(acts)@[i],
        final(acts)@.last() matches Action::WriteSample { which: w, path, contents } && w == which
            && path.deep_view() == which.spec_path() && contents@ == which.spec_contents(),
{
    let path = which.path();
    let contents = which.contents();
    acts.push(Action::WriteSample { which, path, contents });
}

fn push_fetch(acts: &mut Vec<Action>, step: StepId)
    ensures
        final(acts)@.len() == old(acts)@.len() + 1,
        forall|i: int| 0 <= i < old(acts)@.len() ==> final(acts)@[i] == old(acts)@[i],
        spec_is_fetch_for(final(acts)@.last(), step),
{
    let tmpl = step.template();
    let url = template_url(&tmpl);
    acts.push(Action::FetchTemplate { step, url });
}

fn group_settled(steps: &Vec<StepState>) -> (b: bool)
    requires
        steps@.len() == 8,
    ensures
        b == spec_all_terminal(steps@),
{
    let mut i: usize = 0;
    while i < 8
        invariant
            i <= 8,
            steps@.len() == 8,
            forall|j: int| 0 <= j < i ==> spec_terminal(#[trigger] steps@[j]),
        decreases 8 - i,
    {
        let st = steps[i];
        if !matches!(st, StepState::Done | StepState::Failed { .. }) {
            proof {
                assert(!spec_terminal(steps@[i as int]));
            }
            return false;
        }
        i = i + 1;
    }
    true
}

fn any_failed(steps: &Vec<StepState>) -> (b: bool)
    requires
        steps@.len() == 8,
    ensures
        b == spec_any_failed(steps@),
{
    let mut i: usize = 0;
    while i < 8
        invariant
            i <= 8,
            steps@.len() == 8,
            forall|j: int| 0 <= j < i ==> !((#[trigger] steps@[j]) is Failed),
        decreases 8 - i,
    {
        let st = steps[i];
        if matches!(st, StepState::Failed { .. }) {
            proof {
                assert(steps@[i as int] is Failed);
            }
            return true;
        }
        i = i + 1;
    }
    false
}

proof fn lemma_push_keeps_bootstrap_ok(es: Seq<Event>, e: Event)
    ensures
        spec_has_bootstrap_ok(es) ==> spec_has_bootstrap_ok(es.push(e)),
{
    if spec_has_bootstrap_ok(es) {
        let i = choose|i: int|
            0 <= i < es.len() && (#[trigger] es[i]) matches Event::BootstrapDone { ok: true };
        assert(es.push(e)[i] matches Event::BootstrapDone { ok: true });
    }
}

proof fn lemma_push_keeps_native_ok(es: Seq<Event>, e: Event)
    ensures
        spec_has_native_ok(es) ==> spec_has_native_ok(es.push(e)),
{
    if spec_has_native_ok(es) {
        let i = choose|i: int|
            0 <= i < es.len() && (#[trigger] es[i]) matches Event::NativeToolDone { ok: true };
        assert(es.push(e)[i] matches Event::NativeToolDone { ok: true });
    }
}

/// Law: no material action — a file write, a directory creation, a sample
/// write — is ever emitted unless the bootstrap tool has reported
/// success. Histories only grow, so the bootstrap success stood in the
/// event history before any such action was emitted.
pub proof fn lemma_no_bootstrap_no_writes(o: Orchestrator, k: int)
    requires
        o.wf(),
        !spec_has_bootstrap_ok(o.events@),
        0 <= k < o.actions@.len(),
    ensures
        !spec_is_material_action(o.actions@[k]),
{
}

/// Law: the sample-module group — its directory creation and its writes —
/// is never dispatched unless the native package tool has reported
/// success. Histories only grow, so the tool's success preceded every
/// sample-module action.
pub proof fn lemma_sample_needs_native_success(o: Orchestrator, k: int)
    requires
        o.wf(),
        0 <= k < o.actions@.len(),
        spec_is_sample_action(o.actions@[k]),
    ensures
        spec_has_native_ok(o.events@),
{
}

/// Law: a step whose write stage was never reached — in particular one
/// that failed at the fetch or at the render stage — has no write action
/// in the history at all: its target file is either absent or fully
/// rendered, never partially written.
pub proof fn lemma_no_write_before_write_stage(o: Orchestrator, step: StepId)
    requires
        o.wf(),
        !spec_write_reached(o.steps@[step_index_spec(step)]),
    ensures
        forall|k: int|
            0 <= k < o.actions@.len() ==> !((#[trigger] o.actions@[k]) matches Action::WriteFile {
                step: s,
                ..
            } && s == step),
{
}

/// Law: every write the machine ever emits carries a complete rendering
/// of its step's template with the run's plugin name, aimed at the step's
/// own target path.
pub proof fn lemma_writes_are_complete_renderings(o: Orchestrator, k: int)
    requires
        o.wf(),
        0 <= k < o.actions@.len(),
        o.actions@[k] is WriteFile,
    ensures
        spec_is_rendered(o.actions@[k]->WriteFile_step, o.name@, (o.actions@[k]->WriteFile_contents)@),
        (o.actions@[k]->WriteFile_path).deep_view() == (o.actions@[k]->WriteFile_step).spec_target_path(o.name@),
{
}

} // verus!
