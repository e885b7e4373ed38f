//! Each adb verb as a task: a plan of adb runs and checks that the caller
//! performs one request at a time, feeding back what happened. The task
//! decides what comes next and how the verb ends.

use vstd::prelude::*;
use crate::adb_client::{
    adb_args, client_needs_install, dumpsys_args, install_args, needs_install_from_dumpsys,
    opt_view, start_args, stop_args, strings_view, tunnel_args, uninstall_args, version_from_output,
    version_line, strings_of, dumpsys_args_vec, start_args_vec, stop_args_vec, tunnel_args_vec, AdbClient, AdbStatus, VpnOptions,
};
use crate::command_error::{
    Cmd, CommandExecutionError, ErrorView, IoError, ProcessIoError, ProcessStatusError,
    Termination,
};
use crate::devices::{parse_adb_devices_l, parse_devices, AdbDevice, AdbDeviceView};
use crate::text::{clone_strings, owned};

verus! {

/// How a finished adb process exited.
#[derive(Clone, Copy, Debug, PartialEq, Eq)]
pub enum ExitOutcome {
    Success,
    Failure(Termination),
}

/// What a captured adb run produced: how it exited and its standard output
/// (decoded as UTF-8, invalid sequences replaced).
#[derive(Clone, Debug)]
pub struct CapturedOutput {
    pub exit: ExitOutcome,
    pub stdout: String,
}

/// One step of an adb task.
#[derive(Clone, Debug)]
pub enum AdbStep {
    /// Run adb with these arguments; the task fails unless it exits successfully.
    Run { args: Vec<String> },
    /// Check that the client APK file exists.
    CheckApk,
    /// Read `dumpsys package` for the client and decide whether it must be
    /// installed; with `report`, that decision is the task's outcome.
    Probe { args: Vec<String>, report: bool },
    /// Wait after an install so the client's intent actions get registered.
    Settle,
    /// Read `adb version`.
    Version { args: Vec<String> },
    /// Read `adb devices -l`.
    Devices { args: Vec<String> },
}

/// A step of a plan; an `install_only` step runs only after a probe found
/// that the client must be installed.
#[derive(Clone, Debug)]
pub struct PlannedStep {
    pub step: AdbStep,
    pub install_only: bool,
}

/// What the caller reports back after performing a request.
#[derive(Debug)]
pub enum AdbEvent {
    /// The task is to start.
    Begin,
    /// A `Run` request finished (or adb could not be spawned).
    Ran(Result<ExitOutcome, IoError>),
    /// A `Capture` request finished (or adb could not be spawned).
    Captured(Result<CapturedOutput, IoError>),
    /// Whether the APK file exists.
    ApkChecked(bool),
    /// The requested wait is over.
    Settled,
}

/// How a successful task ends.
#[derive(Clone, Debug)]
pub enum AdbOutcome {
    Done,
    NeedsInstall(bool),
    Status(AdbStatus),
    Devices(Vec<AdbDevice>),
}

/// What the task asks the caller to do next.
#[derive(Debug)]
pub enum AdbRequest {
    /// Run `program args`, reporting only how it exited (`AdbEvent::Ran`).
    Run { program: String, args: Vec<String> },
    /// Run `program args` capturing its standard output (`AdbEvent::Captured`).
    Capture { program: String, args: Vec<String> },
    /// Check whether the file at `path` exists (`AdbEvent::ApkChecked`).
    CheckApk { path: String },
    /// Sleep (`AdbEvent::Settled`).
    Sleep { millis: u64 },
    /// The task is over.
    Finish(Result<AdbOutcome, CommandExecutionError>),
}

/// The plain contents of an [`AdbStep`].
pub enum StepView {
    Run(Seq<Seq<char>>),
    CheckApk,
    Probe(Seq<Seq<char>>, bool),
    Settle,
    Version(Seq<Seq<char>>),
    Devices(Seq<Seq<char>>),
}

/// The plain contents of a [`PlannedStep`].
pub struct PlannedView {
    pub step: StepView,
    pub install_only: bool,
}

/// The plain contents of an [`AdbEvent`].
pub enum EventView {
    Begin,
    Ran(Result<ExitOutcome, IoError>),
    Captured(Result<(ExitOutcome, Seq<char>), IoError>),
    ApkChecked(bool),
    Settled,
}

/// The plain contents of an [`AdbOutcome`].
pub enum OutcomeView {
    Done,
    NeedsInstall(bool),
    Status(Seq<char>, Seq<char>),
    Devices(Seq<AdbDeviceView>),
}

/// The plain contents of an [`AdbRequest`].
pub enum RequestView {
    Run(Seq<char>, Seq<Seq<char>>),
    Capture(Seq<char>, Seq<Seq<char>>),
    CheckApk(Seq<char>),
    Sleep(nat),
    Finish(Result<OutcomeView, ErrorView>),
}

impl View for AdbStep {
    type V = StepView;

    open spec fn view(&self) -> StepView {
        match self {
            AdbStep::Run { args } => StepView::Run(strings_view(args@)),
            AdbStep::CheckApk => StepView::CheckApk,
            AdbStep::Probe { args, report } => StepView::Probe(strings_view(args@), *report),
            AdbStep::Settle => StepView::Settle,
            AdbStep::Version { args } => StepView::Version(strings_view(args@)),
            AdbStep::Devices { args } => StepView::Devices(strings_view(args@)),
        }
    }
}

impl View for PlannedStep {
    type V = PlannedView;

    open spec fn view(&self) -> PlannedView {
        PlannedView { step: self.step@, install_only: self.install_only }
    }
}

impl View for AdbEvent {
    type V = EventView;

    open spec fn view(&self) -> EventView {
        match self {
            AdbEvent::Begin => EventView::Begin,
            AdbEvent::Ran(r) => EventView::Ran(*r),
            AdbEvent::Captured(r) => EventView::Captured(
                match r {
                    Ok(o) => Ok((o.exit, o.stdout@)),
                    Err(e) => Err(*e),
                },
            ),
            AdbEvent::ApkChecked(b) => EventView::ApkChecked(*b),
            AdbEvent::Settled => EventView::Settled,
        }
    }
}

impl View for AdbOutcome {
    type V = OutcomeView;

    open spec fn view(&self) -> OutcomeView {
        match self {
            AdbOutcome::Done => OutcomeView::Done,
            AdbOutcome::NeedsInstall(b) => OutcomeView::NeedsInstall(*b),
            AdbOutcome::Status(s) => OutcomeView::Status(s.path@, s.version@),
            AdbOutcome::Devices(d) => OutcomeView::Devices(d@.map_values(|x: AdbDevice| x@)),
        }
    }
}

impl View for AdbRequest {
    type V = RequestView;

    open spec fn view(&self) -> RequestView {
        match self {
            AdbRequest::Run { program, args } => RequestView::Run(program@, strings_view(args@)),
            AdbRequest::Capture { program, args } => RequestView::Capture(
                program@,
                strings_view(args@),
            ),
            AdbRequest::CheckApk { path } => RequestView::CheckApk(path@),
            AdbRequest::Sleep { millis } => RequestView::Sleep(*millis as nat),
            AdbRequest::Finish(r) => RequestView::Finish(
                match r {
                    Ok(o) => Ok(o@),
                    Err(e) => Err(e@),
                },
            ),
        }
    }
}

/// The plain state of an [`AdbTask`].
pub struct TaskView {
    /// The adb program.
    pub adb: Seq<char>,
    /// The client APK path.
    pub apk: Seq<char>,
    /// The plan.
    pub steps: Seq<PlannedView>,
    /// The step in progress, or the next one to start.
    pub pos: int,
    /// Whether a probe found that the client must be installed.
    pub installing: bool,
    /// Whether a request for `steps[pos]` is outstanding.
    pub waiting: bool,
    /// Whether the task has finished.
    pub done: bool,
}

/// The first step at or after `i` that runs: install-only steps are
/// skipped unless installing.
pub open spec fn next_live(steps: Seq<PlannedView>, i: int, installing: bool) -> int
    decreases steps.len() - i,
{
    if i < 0 || i >= steps.len() {
        steps.len() as int
    } else if steps[i].install_only && !installing {
        next_live(steps, i + 1, installing)
    } else {
        i
    }
}

/// The request that starts `step`.
pub open spec fn request_for(t: TaskView, step: StepView) -> RequestView {
    match step {
        StepView::Run(args) => RequestView::Run(t.adb, args),
        StepView::CheckApk => RequestView::CheckApk(t.apk),
        StepView::Probe(args, _) => RequestView::Capture(t.adb, args),
        StepView::Settle => RequestView::Sleep(500),
        StepView::Version(args) => RequestView::Capture(t.adb, args),
        StepView::Devices(args) => RequestView::Capture(t.adb, args),
    }
}

/// Start the first live step at or after `i`, or finish successfully when
/// there is none.
pub open spec fn issue(t: TaskView, i: int) -> (TaskView, RequestView) {
    let j = next_live(t.steps, i, t.installing);
    if j >= t.steps.len() {
        (TaskView { pos: j, waiting: false, done: true, ..t }, RequestView::Finish(Ok(OutcomeView::Done)))
    } else {
        (TaskView { pos: j, waiting: true, ..t }, request_for(t, t.steps[j].step))
    }
}

/// End the task with `r`.
pub open spec fn finish(t: TaskView, r: Result<OutcomeView, ErrorView>) -> (TaskView, RequestView) {
    (TaskView { waiting: false, done: true, ..t }, RequestView::Finish(r))
}

/// The error for a command `adb args` that did not run to success.
pub open spec fn failed_run(adb: Seq<char>, args: Seq<Seq<char>>, r: Result<ExitOutcome, IoError>) -> ErrorView {
    match r {
        Ok(ExitOutcome::Failure(term)) => ErrorView::ProcessStatus(adb, args, term),
        Ok(ExitOutcome::Success) => ErrorView::ProcessStatus(adb, args, Termination::Value(0)),
        Err(io) => ErrorView::ProcessIo(adb, args, io),
    }
}

/// Whether `e` is what the task waits for.
pub open spec fn accepts(t: TaskView, e: EventView) -> bool {
    &&& !t.done
    &&& if !t.waiting {
        e is Begin
    } else {
        match (t.steps[t.pos].step, e) {
            (StepView::Run(_), EventView::Ran(_)) => true,
            (StepView::CheckApk, EventView::ApkChecked(_)) => true,
            (StepView::Probe(_, _), EventView::Captured(_)) => true,
            (StepView::Settle, EventView::Settled) => true,
            (StepView::Version(_), EventView::Captured(_)) => true,
            (StepView::Devices(_), EventView::Captured(_)) => true,
            _ => false,
        }
    }
}

/// The task's next state and request after event `e`:
/// - `Begin` starts the first live step;
/// - a successful step moves on to the next live step, and the task finishes
///   with `Done` after the last;
/// - a run that exits unsuccessfully finishes with `ProcessStatus` naming the
///   command, one that cannot be spawned with `ProcessIo`;
/// - a missing APK finishes with `ApkMissing` for the APK path;
/// - a probe decides whether install-only steps run (or, when it reports,
///   finishes with that decision);
/// - `adb version` finishes with the adb path and the version line, and
///   `adb devices -l` with the devices of its listing.
pub open spec fn advance(t: TaskView, e: EventView) -> (TaskView, RequestView) {
    if !t.waiting {
        issue(t, t.pos)
    } else {
        match t.steps[t.pos].step {
            StepView::Run(args) => match e {
                EventView::Ran(Ok(ExitOutcome::Success)) => issue(t, t.pos + 1),
                EventView::Ran(r) => finish(t, Err(failed_run(t.adb, args, r))),
                _ => (t, RequestView::Sleep(0)),
            },
            StepView::CheckApk => match e {
                EventView::ApkChecked(true) => issue(t, t.pos + 1),
                _ => finish(t, Err(ErrorView::ApkMissing(t.apk))),
            },
            StepView::Probe(args, report) => match e {
                EventView::Captured(Ok((ExitOutcome::Success, out))) => {
                    let needs = client_needs_install(out);
                    if report {
                        finish(t, Ok(OutcomeView::NeedsInstall(needs)))
                    } else {
                        issue(TaskView { installing: needs, ..t }, t.pos + 1)
                    }
                },
                EventView::Captured(Ok((exit, _))) => finish(t, Err(failed_run(t.adb, args, Ok(exit)))),
                EventView::Captured(Err(io)) => finish(t, Err(failed_run(t.adb, args, Err(io)))),
                _ => (t, RequestView::Sleep(0)),
            },
            StepView::Settle => issue(t, t.pos + 1),
            StepView::Version(args) => match e {
                EventView::Captured(Ok((ExitOutcome::Success, out))) => finish(
                    t,
                    Ok(OutcomeView::Status(t.adb, version_from_output(out))),
                ),
                EventView::Captured(Ok((exit, _))) => finish(t, Err(failed_run(t.adb, args, Ok(exit)))),
                EventView::Captured(Err(io)) => finish(t, Err(failed_run(t.adb, args, Err(io)))),
                _ => (t, RequestView::Sleep(0)),
            },
            StepView::Devices(args) => match e {
                EventView::Captured(Ok((ExitOutcome::Success, out))) => finish(
                    t,
                    Ok(OutcomeView::Devices(parse_devices(out))),
                ),
                EventView::Captured(Ok((exit, _))) => finish(t, Err(failed_run(t.adb, args, Ok(exit)))),
                EventView::Captured(Err(io)) => finish(t, Err(failed_run(t.adb, args, Err(io)))),
                _ => (t, RequestView::Sleep(0)),
            },
        }
    }
}

/// An adb verb in progress.
pub struct AdbTask {
    adb: String,
    apk: String,
    steps: Vec<PlannedStep>,
    pos: usize,
    installing: bool,
    waiting: bool,
    done: bool,
}

impl View for AdbTask {
    type V = TaskView;

    closed spec fn view(&self) -> TaskView {
        TaskView {
            adb: self.adb@,
            apk: self.apk@,
            steps: self.steps@.map_values(|s: PlannedStep| s@),
            pos: self.pos as int,
            installing: self.installing,
            waiting: self.waiting,
            done: self.done,
        }
    }
}

impl AdbTask {
    /// The task's state is consistent.
    pub open spec fn wf(&self) -> bool {
        &&& 0 <= self@.pos <= self@.steps.len()
        &&& self@.waiting ==> self@.pos < self@.steps.len()
        &&& self@.waiting ==> !self@.done
    }

    /// A task for `plan`, not yet started.
    pub fn new(adb: String, apk: String, plan: Vec<PlannedStep>) -> (t: AdbTask)
        ensures
            t.wf(),
            t@ == (TaskView {
                adb: adb@,
                apk: apk@,
                steps: plan@.map_values(|s: PlannedStep| s@),
                pos: 0,
                installing: false,
                waiting: false,
                done: false,
            }),
    {
        AdbTask { adb, apk, steps: plan, pos: 0, installing: false, waiting: false, done: false }
    }

    /// Whether the task has finished.
    pub fn is_done(&self) -> (r: bool)
        ensures
            r == self@.done,
    {
        self.done
    }

    /// Whether `event` is what the task waits for.
    pub fn accepts(&self, event: &AdbEvent) -> (r: bool)
        requires
            self.wf(),
        ensures
            r == accepts(self@, event@),
    {
        if self.done {
            return false;
        }
        if !self.waiting {
            return match event {
                AdbEvent::Begin => true,
                _ => false,
            };
        }
        proof {
            assert(self.steps@.map_values(|s: PlannedStep| s@)[self.pos as int] == self.steps@[self.pos as int]@);
        }
        match (&self.steps[self.pos].step, event) {
            (AdbStep::Run { .. }, AdbEvent::Ran(_)) => true,
            (AdbStep::CheckApk, AdbEvent::ApkChecked(_)) => true,
            (AdbStep::Probe { .. }, AdbEvent::Captured(_)) => true,
            (AdbStep::Settle, AdbEvent::Settled) => true,
            (AdbStep::Version { .. }, AdbEvent::Captured(_)) => true,
            (AdbStep::Devices { .. }, AdbEvent::Captured(_)) => true,
            _ => false,
        }
    }

    /// Start the first live step at or after `i`.
    fn issue(&mut self, i: usize) -> (r: AdbRequest)
        requires
            old(self).wf(),
            i <= old(self)@.steps.len(),
            !old(self)@.done,
        ensures
            final(self).wf(),
            (final(self)@, r@) == issue(old(self)@, i as int),
    {
        let ghost steps = self@.steps;
        let mut j = i;
        while j < self.steps.len() && self.steps[j].install_only && !self.installing
            invariant
                i <= j <= self.steps.len(),
                steps == self@.steps,
                steps == self.steps@.map_values(|s: PlannedStep| s@),
                next_live(steps, i as int, self.installing) == next_live(steps, j as int, self.installing),
            decreases self.steps.len() - j,
        {
            assert(steps[j as int] == self.steps@[j as int]@);
            j = j + 1;
        }
        if j >= self.steps.len() {
            self.pos = j;
            self.waiting = false;
            self.done = true;
            return AdbRequest::Finish(Ok(AdbOutcome::Done));
        }
        assert(steps[j as int] == self.steps@[j as int]@);
        self.pos = j;
        self.waiting = true;
        match &self.steps[j].step {
            AdbStep::Run { args } => AdbRequest::Run { program: self.adb.clone(), args: clone_strings(args) },
            AdbStep::CheckApk => AdbRequest::CheckApk { path: self.apk.clone() },
            AdbStep::Probe { args, .. } => AdbRequest::Capture { program: self.adb.clone(), args: clone_strings(args) },
            AdbStep::Settle => AdbRequest::Sleep { millis: 500 },
            AdbStep::Version { args } => AdbRequest::Capture { program: self.adb.clone(), args: clone_strings(args) },
            AdbStep::Devices { args } => AdbRequest::Capture { program: self.adb.clone(), args: clone_strings(args) },
        }
    }

    /// End the task with `r`.
    fn finish(&mut self, r: Result<AdbOutcome, CommandExecutionError>) -> (q: AdbRequest)
        requires
            old(self).wf(),
        ensures
            final(self).wf(),
            (final(self)@, q@) == finish(old(self)@, match r {
                Ok(o) => Ok(o@),
                Err(e) => Err(e@),
            }),
    {
        self.waiting = false;
        self.done = true;
        AdbRequest::Finish(r)
    }

    /// The error for `adb args` not running to success.
    fn run_error(&self, args: &Vec<String>, r: Result<ExitOutcome, IoError>) -> (e: CommandExecutionError)
        ensures
            e@ == failed_run(self@.adb, strings_view(args@), r),
    {
        let cmd = Cmd::new(self.adb.clone(), clone_strings(args));
        match r {
            Ok(ExitOutcome::Failure(term)) => CommandExecutionError::ProcessStatus(ProcessStatusError::new(cmd, term)),
            Ok(ExitOutcome::Success) => CommandExecutionError::ProcessStatus(ProcessStatusError::new(cmd, Termination::Value(0))),
            Err(io) => CommandExecutionError::ProcessIo(ProcessIoError::new(cmd, io)),
        }
    }

    /// Feed back what happened to the last request; returns the next one.
    pub fn advance(&mut self, event: AdbEvent) -> (r: AdbRequest)
        requires
            old(self).wf(),
            accepts(old(self)@, event@),
        ensures
            final(self).wf(),
            (final(self)@, r@) == advance(old(self)@, event@),
    {
        if !self.waiting {
            return self.issue(self.pos);
        }
        proof {
            assert(self@.steps[self.pos as int] == self.steps@[self.pos as int]@);
            assert(self@.steps.len() == self.steps@.len());
        }
        let n = self.steps.len();
        assert(self.pos < n);
        let next = self.pos + 1;
        let step = self.step_at(self.pos);
        match step {
            AdbStep::Run { args } => {
                match event {
                    AdbEvent::Ran(Ok(ExitOutcome::Success)) => self.issue(next),
                    AdbEvent::Ran(r) => {
                        let e = self.run_error(&args, r);
                        self.finish(Err(e))
                    },
                    _ => AdbRequest::Sleep { millis: 0 },
                }
            },
            AdbStep::CheckApk => {
                match event {
                    AdbEvent::ApkChecked(true) => self.issue(next),
                    _ => {
                        let path = self.apk.clone();
                        self.finish(Err(CommandExecutionError::ApkMissing { path }))
                    },
                }
            },
            AdbStep::Probe { args, report } => {
                match event {
                    AdbEvent::Captured(Ok(out)) => {
                        match out.exit {
                            ExitOutcome::Success => {
                                let needs = needs_install_from_dumpsys(out.stdout.as_str());
                                if report {
                                    self.finish(Ok(AdbOutcome::NeedsInstall(needs)))
                                } else {
                                    self.installing = needs;
                                    self.issue(next)
                                }
                            },
                            exit => {
                                let e = self.run_error(&args, Ok(exit));
                                self.finish(Err(e))
                            },
                        }
                    },
                    AdbEvent::Captured(Err(io)) => {
                        let e = self.run_error(&args, Err(io));
                        self.finish(Err(e))
                    },
                    _ => AdbRequest::Sleep { millis: 0 },
                }
            },
            AdbStep::Settle => self.issue(next),
            AdbStep::Version { args } => {
                match event {
                    AdbEvent::Captured(Ok(out)) => {
                        match out.exit {
                            ExitOutcome::Success => {
                                let version = version_line(out.stdout.as_str());
                                let path = self.adb.clone();
                                self.finish(Ok(AdbOutcome::Status(AdbStatus { path, version })))
                            },
                            exit => {
                                let e = self.run_error(&args, Ok(exit));
                                self.finish(Err(e))
                            },
                        }
                    },
                    AdbEvent::Captured(Err(io)) => {
                        let e = self.run_error(&args, Err(io));
                        self.finish(Err(e))
                    },
                    _ => AdbRequest::Sleep { millis: 0 },
                }
            },
            AdbStep::Devices { args } => {
                match event {
                    AdbEvent::Captured(Ok(out)) => {
                        match out.exit {
                            ExitOutcome::Success => {
                                let devices = parse_adb_devices_l(out.stdout.as_str());
                                self.finish(Ok(AdbOutcome::Devices(devices)))
                            },
                            exit => {
                                let e = self.run_error(&args, Ok(exit));
                                self.finish(Err(e))
                            },
                        }
                    },
                    AdbEvent::Captured(Err(io)) => {
                        let e = self.run_error(&args, Err(io));
                        self.finish(Err(e))
                    },
                    _ => AdbRequest::Sleep { millis: 0 },
                }
            },
        }
    }

    /// A copy of the step at `i`.
    fn step_at(&self, i: usize) -> (r: AdbStep)
        requires
            i < self@.steps.len(),
        ensures
            r@ == self@.steps[i as int].step,
    {
        proof {
            assert(self@.steps[i as int] == self.steps@[i as int]@);
        }
        match &self.steps[i].step {
            AdbStep::Run { args } => AdbStep::Run { args: clone_strings(args) },
            AdbStep::CheckApk => AdbStep::CheckApk,
            AdbStep::Probe { args, report } => AdbStep::Probe { args: clone_strings(args), report: *report },
            AdbStep::Settle => AdbStep::Settle,
            AdbStep::Version { args } => AdbStep::Version { args: clone_strings(args) },
            AdbStep::Devices { args } => AdbStep::Devices { args: clone_strings(args) },
        }
    }
}

/// A step that always runs.
pub open spec fn plain(s: StepView) -> PlannedView {
    PlannedView { step: s, install_only: false }
}

/// A step that runs only when the client must be installed.
pub open spec fn when_installing(s: StepView) -> PlannedView {
    PlannedView { step: s, install_only: true }
}

/// Run `adb` with `args` once.
pub open spec fn exec_plan(serial: Option<Seq<char>>, args: Seq<Seq<char>>) -> Seq<PlannedView> {
    seq![plain(StepView::Run(adb_args(serial, args)))]
}

/// Install the client: check the APK file, then `adb install -r <apk>`.
pub open spec fn install_plan(apk: Seq<char>, serial: Option<Seq<char>>) -> Seq<PlannedView> {
    seq![plain(StepView::CheckApk), plain(StepView::Run(adb_args(serial, install_args(apk))))]
}

/// Uninstall then install the client.
pub open spec fn reinstall_plan(apk: Seq<char>, serial: Option<Seq<char>>) -> Seq<PlannedView> {
    exec_plan(serial, uninstall_args()) + install_plan(apk, serial)
}

/// Start the client: probe the installed client; when it must be installed,
/// check the APK, install it and wait; then open the tunnel and start the
/// VPN activity.
pub open spec fn start_plan(
    apk: Seq<char>,
    serial: Option<Seq<char>>,
    dns: Option<Seq<char>>,
    routes: Option<Seq<char>>,
    port: u16,
) -> Seq<PlannedView> {
    seq![
        plain(StepView::Probe(adb_args(serial, dumpsys_args()), false)),
        when_installing(StepView::CheckApk),
        when_installing(StepView::Run(adb_args(serial, install_args(apk)))),
        when_installing(StepView::Settle),
        plain(StepView::Run(adb_args(serial, tunnel_args(port)))),
        plain(StepView::Run(adb_args(serial, start_args(dns, routes)))),
    ]
}

/// Stop the client, then start it.
pub open spec fn restart_plan(
    apk: Seq<char>,
    serial: Option<Seq<char>>,
    dns: Option<Seq<char>>,
    routes: Option<Seq<char>>,
    port: u16,
) -> Seq<PlannedView> {
    exec_plan(serial, stop_args()) + start_plan(apk, serial, dns, routes, port)
}

/// Decide whether the client must be installed.
pub open spec fn must_install_plan(serial: Option<Seq<char>>) -> Seq<PlannedView> {
    seq![plain(StepView::Probe(adb_args(serial, dumpsys_args()), true))]
}

/// Start the adb server, then read `adb version`.
pub open spec fn ensure_adb_plan() -> Seq<PlannedView> {
    seq![
        plain(StepView::Run(adb_args(None, seq!["start-server"@]))),
        plain(StepView::Version(seq!["version"@])),
    ]
}

/// Read `adb devices -l`.
pub open spec fn list_devices_plan() -> Seq<PlannedView> {
    seq![plain(StepView::Devices(seq!["devices"@, "-l"@]))]
}

/// A task for `plan` with the client's adb and APK paths, not yet started.
pub open spec fn fresh(client: AdbClient, plan: Seq<PlannedView>) -> TaskView {
    TaskView {
        adb: client.config_view().adb_path@,
        apk: client.config_view().apk_path@,
        steps: plan,
        pos: 0,
        installing: false,
        waiting: false,
        done: false,
    }
}

/// The views of a list of planned steps.
pub open spec fn plan_view(v: Seq<PlannedStep>) -> Seq<PlannedView> {
    v.map_values(|s: PlannedStep| s@)
}

fn planned(step: AdbStep, install_only: bool) -> (p: PlannedStep)
    ensures
        p@ == (PlannedView { step: step@, install_only }),
{
    PlannedStep { step, install_only }
}

/// Appends `b` to `a`.
fn extend_plan(a: &mut Vec<PlannedStep>, b: Vec<PlannedStep>)
    ensures
        plan_view(final(a)@) == plan_view(old(a)@) + plan_view(b@),
{
    let mut b = b;
    let ghost bv = b@;
    a.append(&mut b);
    assert(plan_view(final(a)@) =~= plan_view(old(a)@) + plan_view(bv));
}

impl AdbClient {
    fn task(&self, plan: Vec<PlannedStep>) -> (t: AdbTask)
        ensures
            t.wf(),
            t@ == fresh(*self, plan_view(plan@)),
    {
        AdbTask::new(self.adb_path_string(), self.apk_path_string(), plan)
    }

    fn adb_path_string(&self) -> (s: String)
        ensures
            s@ == self.config_view().adb_path@,
    {
        owned(self.adb_path())
    }

    fn apk_path_string(&self) -> (s: String)
        ensures
            s@ == self.config_view().apk_path@,
    {
        owned(self.apk_path())
    }

    fn run_steps(&self, serial: Option<&str>, args: Vec<String>) -> (p: Vec<PlannedStep>)
        ensures
            plan_view(p@) == exec_plan(opt_view(serial), strings_view(args@)),
    {
        let full = self.create_adb_args(serial, args);
        let mut p: Vec<PlannedStep> = Vec::new();
        p.push(planned(AdbStep::Run { args: full }, false));
        assert(plan_view(p@) =~= exec_plan(opt_view(serial), strings_view(args@)));
        p
    }

    fn install_args_vec(&self) -> (r: Vec<String>)
        ensures
            strings_view(r@) == install_args(self.config_view().apk_path@),
    {
        let mut r = strings_of(&["install", "-r"]);
        let ghost before = r@;
        assert(strings_view(before) =~= seq!["install"@, "-r"@]);
        let apk = self.apk_path_string();
        r.push(apk);
        assert(strings_view(r@) =~= strings_view(before).push(apk@));
        assert(strings_view(r@) =~= install_args(self.config_view().apk_path@));
        r
    }

    fn install_steps(&self, serial: Option<&str>, install_only: bool) -> (p: Vec<PlannedStep>)
        ensures
            plan_view(p@) == seq![
                PlannedView { step: StepView::CheckApk, install_only },
                PlannedView {
                    step: StepView::Run(adb_args(opt_view(serial), install_args(self.config_view().apk_path@))),
                    install_only,
                },
            ],
    {
        let args = self.create_adb_args(serial, self.install_args_vec());
        let mut p: Vec<PlannedStep> = Vec::new();
        p.push(planned(AdbStep::CheckApk, install_only));
        p.push(planned(AdbStep::Run { args }, install_only));
        assert(plan_view(p@) =~= seq![
            PlannedView { step: StepView::CheckApk, install_only },
            PlannedView {
                step: StepView::Run(adb_args(opt_view(serial), install_args(self.config_view().apk_path@))),
                install_only,
            },
        ]);
        p
    }

    fn start_steps(&self, serial: Option<&str>, opts: &VpnOptions<'_>) -> (p: Vec<PlannedStep>)
        ensures
            plan_view(p@) == start_plan(
                self.config_view().apk_path@,
                opt_view(serial),
                opt_view(opts.dns_servers),
                opt_view(opts.routes),
                opts.port,
            ),
    {
        let mut p: Vec<PlannedStep> = Vec::new();
        let probe = self.create_adb_args(serial, dumpsys_args_vec());
        p.push(planned(AdbStep::Probe { args: probe, report: false }, false));
        let ghost p1 = plan_view(p@);
        extend_plan(&mut p, self.install_steps(serial, true));
        let ghost p2 = plan_view(p@);
        let s3 = planned(AdbStep::Settle, true);
        p.push(s3);
        let ghost p3 = plan_view(p@);
        assert(p3 =~= p2.push(s3@));
        let tunnel = self.create_adb_args(serial, tunnel_args_vec(opts.port));
        let s4 = planned(AdbStep::Run { args: tunnel }, false);
        p.push(s4);
        let ghost p4 = plan_view(p@);
        assert(p4 =~= p3.push(s4@));
        let launch = self.create_adb_args(serial, start_args_vec(opts.dns_servers, opts.routes));
        let s5 = planned(AdbStep::Run { args: launch }, false);
        p.push(s5);
        assert(plan_view(p@) =~= p4.push(s5@));
        assert(plan_view(p@) =~= start_plan(
            self.config_view().apk_path@,
            opt_view(serial),
            opt_view(opts.dns_servers),
            opt_view(opts.routes),
            opts.port,
        ));
        p
    }

    /// Run adb with `args` (after `-s <serial>` when given).
    pub fn exec_adb(&self, serial: Option<&str>, args: Vec<String>) -> (t: AdbTask)
        ensures
            t.wf(),
            t@ == fresh(*self, exec_plan(opt_view(serial), strings_view(args@))),
    {
        self.task(self.run_steps(serial, args))
    }

    /// Install the client APK on the device.
    pub fn install(&self, serial: Option<&str>) -> (t: AdbTask)
        ensures
            t.wf(),
            t@ == fresh(*self, install_plan(self.config_view().apk_path@, opt_view(serial))),
    {
        self.task(self.install_steps(serial, false))
    }

    /// Uninstall the client from the device.
    pub fn uninstall(&self, serial: Option<&str>) -> (t: AdbTask)
        ensures
            t.wf(),
            t@ == fresh(*self, exec_plan(opt_view(serial), uninstall_args())),
    {
        let args = strings_of(&["uninstall", "com.genymobile.gnirehtet"]);
        assert(strings_view(args@) =~= uninstall_args());
        self.exec_adb(serial, args)
    }

    /// Uninstall, then install the client.
    pub fn reinstall(&self, serial: Option<&str>) -> (t: AdbTask)
        ensures
            t.wf(),
            t@ == fresh(*self, reinstall_plan(self.config_view().apk_path@, opt_view(serial))),
    {
        let args = strings_of(&["uninstall", "com.genymobile.gnirehtet"]);
        assert(strings_view(args@) =~= uninstall_args());
        let mut p = self.run_steps(serial, args);
        extend_plan(&mut p, self.install_steps(serial, false));
        self.task(p)
    }

    /// Reverse-tunnel the device's gnirehtet socket to `tcp:<port>` on the host.
    pub fn tunnel(&self, serial: Option<&str>, port: u16) -> (t: AdbTask)
        ensures
            t.wf(),
            t@ == fresh(*self, exec_plan(opt_view(serial), tunnel_args(port))),
    {
        self.exec_adb(serial, tunnel_args_vec(port))
    }

    /// Start the client (installing it first when it is missing or outdated).
    pub fn start(&self, serial: Option<&str>, opts: &VpnOptions<'_>) -> (t: AdbTask)
        ensures
            t.wf(),
            t@ == fresh(
                *self,
                start_plan(
                    self.config_view().apk_path@,
                    opt_view(serial),
                    opt_view(opts.dns_servers),
                    opt_view(opts.routes),
                    opts.port,
                ),
            ),
    {
        self.task(self.start_steps(serial, opts))
    }

    /// Stop the client's VPN.
    pub fn stop(&self, serial: Option<&str>) -> (t: AdbTask)
        ensures
            t.wf(),
            t@ == fresh(*self, exec_plan(opt_view(serial), stop_args())),
    {
        self.exec_adb(serial, stop_args_vec())
    }

    /// Stop, then start the client.
    pub fn restart(&self, serial: Option<&str>, opts: &VpnOptions<'_>) -> (t: AdbTask)
        ensures
            t.wf(),
            t@ == fresh(
                *self,
                restart_plan(
                    self.config_view().apk_path@,
                    opt_view(serial),
                    opt_view(opts.dns_servers),
                    opt_view(opts.routes),
                    opts.port,
                ),
            ),
    {
        let mut p = self.run_steps(serial, stop_args_vec());
        extend_plan(&mut p, self.start_steps(serial, opts));
        self.task(p)
    }

    /// Whether the client APK is missing or its versionCode differs from
    /// the required one (the outcome is `NeedsInstall`).
    pub fn must_install_client(&self, serial: Option<&str>) -> (t: AdbTask)
        ensures
            t.wf(),
            t@ == fresh(*self, must_install_plan(opt_view(serial))),
    {
        let args = self.create_adb_args(serial, dumpsys_args_vec());
        let mut p: Vec<PlannedStep> = Vec::new();
        p.push(planned(AdbStep::Probe { args, report: true }, false));
        assert(plan_view(p@) =~= must_install_plan(opt_view(serial)));
        self.task(p)
    }

    /// Start the adb server (if needed) and read the version of the
    /// configured adb (the outcome is `Status`).
    ///
    /// Failures are `CommandExecutionError` — use `adb_ux_code_hint()` for
    /// ERROR_UX `ADB_MISSING` / `ADB_PATH_INVALID` mapping.
    pub fn ensure_adb(&self) -> (t: AdbTask)
        ensures
            t.wf(),
            t@ == fresh(*self, ensure_adb_plan()),
    {
        let start_server = strings_of(&["start-server"]);
        assert(strings_view(start_server@) =~= seq!["start-server"@]);
        let mut p = self.run_steps(None, start_server);
        let version = strings_of(&["version"]);
        assert(strings_view(version@) =~= seq!["version"@]);
        let s = planned(AdbStep::Version { args: version }, false);
        let ghost before = plan_view(p@);
        p.push(s);
        assert(plan_view(p@) =~= before.push(s@));
        assert(plan_view(p@) =~= ensure_adb_plan());
        self.task(p)
    }

    /// List devices via `adb devices -l` (the outcome is `Devices`; an empty
    /// list is success).
    pub fn list_devices(&self) -> (t: AdbTask)
        ensures
            t.wf(),
            t@ == fresh(*self, list_devices_plan()),
    {
        let args = strings_of(&["devices", "-l"]);
        assert(strings_view(args@) =~= seq!["devices"@, "-l"@]);
        let mut p: Vec<PlannedStep> = Vec::new();
        p.push(planned(AdbStep::Devices { args }, false));
        assert(plan_view(p@) =~= list_devices_plan());
        self.task(p)
    }
}

} // verus!
