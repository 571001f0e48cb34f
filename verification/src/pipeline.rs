//! The build orchestrator: a state machine that sequences the pipeline —
//! resolve configuration, transfer the tree out, execute the build remotely,
//! copy artifacts and the lock file back — and maps every outcome to the
//! process exit code.
//!
//! The machine owns every decision; the host program owns the effects. It
//! repeatedly asks [`next_action`] what to do, performs that one action
//! (reading the configuration files, pushing or pulling a tree, running the
//! remote command), reports what happened as an [`Event`] to [`step`], and
//! stops at the `Exit` action. A driver that follows the actions therefore
//! never transfers or executes after a stage has failed: every failure leads
//! to a `Done` state, which `step` never leaves and whose only action is
//! `Exit` with the failure's own code. A non-zero remote build status is the
//! one non-fatal outcome: the copy-back stages still run, and the status
//! becomes the final exit code only after they succeed.

use crate::command::build_remote_command;
use crate::command::remote_command_spec;
use crate::config::resolve_host;
use crate::config::resolve_spec;
use crate::workspace::workspace_path;
use crate::workspace::workspace_path_spec;
use vstd::prelude::*;

verus! {

pub const EXIT_SUCCESS: i32 = 0;

pub const EXIT_NO_REMOTE_HOST: i32 = -3;

pub const EXIT_TRANSFER_OUT: i32 = -4;

pub const EXIT_REMOTE_LAUNCH: i32 = -5;

pub const EXIT_COPY_BACK: i32 = -6;

pub const EXIT_COPY_LOCK: i32 = -7;

/// What to copy back from the remote `target` directory after the build.
#[derive(Debug, PartialEq, Eq, Clone)]
pub enum CopyBack {
    /// Copy nothing back.
    Disabled,
    /// Copy the whole output directory back.
    WholeDir,
    /// Copy one sub-path of the output directory back.
    Subpath(String),
}

pub enum CopyBackV {
    Disabled,
    WholeDir,
    Subpath(Seq<char>),
}

impl View for CopyBack {
    type V = CopyBackV;

    open spec fn view(&self) -> CopyBackV {
        match self {
            CopyBack::Disabled => CopyBackV::Disabled,
            CopyBack::WholeDir => CopyBackV::WholeDir,
            CopyBack::Subpath(p) => CopyBackV::Subpath(p@),
        }
    }
}

/// One invocation's settings: the parsed command-line input together with the
/// canonical project root. Constructed once, read-only afterwards.
#[derive(Debug, Clone)]
pub struct Request {
    /// Remote host given on the command line, overriding the files.
    pub cli_remote: Option<String>,
    /// Inline `KEY=VALUE` environment assignments for the build.
    pub build_env: String,
    /// Toolchain selected on the build host.
    pub toolchain: String,
    /// Environment profile file sourced on the build host.
    pub env_profile: String,
    /// What to copy back from the remote output directory.
    pub copy_back: CopyBack,
    /// Whether the dependency lock file is copied back.
    pub copy_lock_back: bool,
    /// Whether hidden files and directories are transferred.
    pub transfer_hidden: bool,
    /// Path of the manifest that located the project.
    pub manifest_path: String,
    /// Canonical path of the local project root.
    pub project_root: String,
    /// Build subcommand executed remotely.
    pub subcommand: String,
    /// Arguments passed to the build subcommand, in order.
    pub extra_args: Vec<String>,
}

pub struct RequestV {
    pub cli_remote: Option<Seq<char>>,
    pub build_env: Seq<char>,
    pub toolchain: Seq<char>,
    pub env_profile: Seq<char>,
    pub copy_back: CopyBackV,
    pub copy_lock_back: bool,
    pub transfer_hidden: bool,
    pub manifest_path: Seq<char>,
    pub project_root: Seq<char>,
    pub subcommand: Seq<char>,
    pub extra_args: Seq<Seq<char>>,
}

impl View for Request {
    type V = RequestV;

    open spec fn view(&self) -> RequestV {
        RequestV {
            cli_remote: self.cli_remote.deep_view(),
            build_env: self.build_env@,
            toolchain: self.toolchain@,
            env_profile: self.env_profile@,
            copy_back: self.copy_back@,
            copy_lock_back: self.copy_lock_back,
            transfer_hidden: self.transfer_hidden,
            manifest_path: self.manifest_path@,
            project_root: self.project_root@,
            subcommand: self.subcommand@,
            extra_args: self.extra_args.deep_view(),
        }
    }
}

/// The terminal result of one pipeline run.
#[derive(Debug, PartialEq, Eq, Clone, Copy)]
pub enum Outcome {
    /// Every stage completed and the remote build exited zero.
    Success,
    /// No source yielded a remote host.
    NoRemoteHost,
    /// The outbound transfer of the project tree failed.
    TransferOutFailed,
    /// The remote session could not even be started.
    RemoteLaunchFailed,
    /// The remote build ran and exited with this non-zero status.
    RemoteBuildFailed(i32),
    /// Artifacts could not be copied back.
    CopyBackFailed,
    /// The lock file could not be copied back.
    LockCopyFailed,
}

/// The process exit code for a terminal outcome: zero for success, one
/// distinct small negative code per fatal stage failure, and the remote
/// build's own status verbatim when only the build failed.
pub open spec fn outcome_exit_code(outcome: Outcome) -> i32 {
    match outcome {
        Outcome::Success => EXIT_SUCCESS,
        Outcome::NoRemoteHost => EXIT_NO_REMOTE_HOST,
        Outcome::TransferOutFailed => EXIT_TRANSFER_OUT,
        Outcome::RemoteLaunchFailed => EXIT_REMOTE_LAUNCH,
        Outcome::RemoteBuildFailed(status) => status,
        Outcome::CopyBackFailed => EXIT_COPY_BACK,
        Outcome::LockCopyFailed => EXIT_COPY_LOCK,
    }
}

/// Maps a terminal outcome to the process exit code.
pub fn exit_code(outcome: &Outcome) -> (code: i32)
    ensures
        code == outcome_exit_code(*outcome),
{
    match outcome {
        Outcome::Success => EXIT_SUCCESS,
        Outcome::NoRemoteHost => EXIT_NO_REMOTE_HOST,
        Outcome::TransferOutFailed => EXIT_TRANSFER_OUT,
        Outcome::RemoteLaunchFailed => EXIT_REMOTE_LAUNCH,
        Outcome::RemoteBuildFailed(status) => *status,
        Outcome::CopyBackFailed => EXIT_COPY_BACK,
        Outcome::LockCopyFailed => EXIT_COPY_LOCK,
    }
}

/// The outcome of a run whose stages all completed: the remote build's exit
/// status decides between success and a propagated build failure.
pub open spec fn finalize_outcome(status: i32) -> Outcome {
    if status == 0 {
        Outcome::Success
    } else {
        Outcome::RemoteBuildFailed(status)
    }
}

/// Where the pipeline stands. Each stage is terminal on failure; `Done` is
/// absorbing.
#[derive(Debug, PartialEq, Eq)]
pub enum Stage {
    /// Gathering the configuration sources.
    ResolveConfig,
    /// Transferring the project tree to the resolved host.
    SyncOut { host: String },
    /// Running the build command on the host.
    RemoteExecute { host: String },
    /// Copying artifacts back; the remote build exited with `build_status`.
    CopyBackArtifacts { host: String, build_status: i32 },
    /// Copying the lock file back; the remote build exited with `build_status`.
    CopyBackLock { host: String, build_status: i32 },
    /// The run is over.
    Done { outcome: Outcome },
}

pub enum StageV {
    ResolveConfig,
    SyncOut { host: Seq<char> },
    RemoteExecute { host: Seq<char> },
    CopyBackArtifacts { host: Seq<char>, build_status: i32 },
    CopyBackLock { host: Seq<char>, build_status: i32 },
    Done { outcome: Outcome },
}

impl View for Stage {
    type V = StageV;

    open spec fn view(&self) -> StageV {
        match self {
            Stage::ResolveConfig => StageV::ResolveConfig,
            Stage::SyncOut { host } => StageV::SyncOut { host: host@ },
            Stage::RemoteExecute { host } => StageV::RemoteExecute { host: host@ },
            Stage::CopyBackArtifacts { host, build_status } => StageV::CopyBackArtifacts {
                host: host@,
                build_status: *build_status,
            },
            Stage::CopyBackLock { host, build_status } => StageV::CopyBackLock {
                host: host@,
                build_status: *build_status,
            },
            Stage::Done { outcome } => StageV::Done { outcome: *outcome },
        }
    }
}

/// What the driver reports back after performing one action.
#[derive(Debug)]
pub enum Event {
    /// The configuration sources were read; a missing or unreadable file is
    /// reported as `None`.
    ConfigsRead { project_text: Option<String>, global_text: Option<String> },
    /// The outbound transfer finished (`ok`) or failed.
    TransferOut { ok: bool },
    /// The remote session ran to its end and exited with `status`.
    RemoteExit { status: i32 },
    /// The remote session could not be started.
    LaunchFailed,
    /// The artifact pull finished (`ok`) or failed.
    ArtifactsPulled { ok: bool },
    /// The lock-file pull finished (`ok`) or failed.
    LockPulled { ok: bool },
}

pub enum EventV {
    ConfigsRead { project_text: Option<Seq<char>>, global_text: Option<Seq<char>> },
    TransferOut { ok: bool },
    RemoteExit { status: i32 },
    LaunchFailed,
    ArtifactsPulled { ok: bool },
    LockPulled { ok: bool },
}

impl View for Event {
    type V = EventV;

    open spec fn view(&self) -> EventV {
        match self {
            Event::ConfigsRead { project_text, global_text } => EventV::ConfigsRead {
                project_text: project_text.deep_view(),
                global_text: global_text.deep_view(),
            },
            Event::TransferOut { ok } => EventV::TransferOut { ok: *ok },
            Event::RemoteExit { status } => EventV::RemoteExit { status: *status },
            Event::LaunchFailed => EventV::LaunchFailed,
            Event::ArtifactsPulled { ok } => EventV::ArtifactsPulled { ok: *ok },
            Event::LockPulled { ok } => EventV::LockPulled { ok: *ok },
        }
    }
}

/// The transition function: from the current stage and the reported event to
/// the next stage. An event that does not belong to the current stage changes
/// nothing.
pub open spec fn spec_step(req: RequestV, stage: StageV, event: EventV) -> StageV {
    match (stage, event) {
        (StageV::ResolveConfig, EventV::ConfigsRead { project_text, global_text }) => {
            match resolve_spec(req.cli_remote, project_text, global_text) {
                Some(host) => StageV::SyncOut { host },
                None => StageV::Done { outcome: Outcome::NoRemoteHost },
            }
        },
        (StageV::SyncOut { host }, EventV::TransferOut { ok }) => {
            if ok {
                StageV::RemoteExecute { host }
            } else {
                StageV::Done { outcome: Outcome::TransferOutFailed }
            }
        },
        (StageV::RemoteExecute { .. }, EventV::LaunchFailed) => {
            StageV::Done { outcome: Outcome::RemoteLaunchFailed }
        },
        (StageV::RemoteExecute { host }, EventV::RemoteExit { status }) => {
            if !(req.copy_back is Disabled) {
                StageV::CopyBackArtifacts { host, build_status: status }
            } else if req.copy_lock_back {
                StageV::CopyBackLock { host, build_status: status }
            } else {
                StageV::Done { outcome: finalize_outcome(status) }
            }
        },
        (StageV::CopyBackArtifacts { host, build_status }, EventV::ArtifactsPulled { ok }) => {
            if !ok {
                StageV::Done { outcome: Outcome::CopyBackFailed }
            } else if req.copy_lock_back {
                StageV::CopyBackLock { host, build_status }
            } else {
                StageV::Done { outcome: finalize_outcome(build_status) }
            }
        },
        (StageV::CopyBackLock { build_status, .. }, EventV::LockPulled { ok }) => {
            if ok {
                StageV::Done { outcome: finalize_outcome(build_status) }
            } else {
                StageV::Done { outcome: Outcome::LockCopyFailed }
            }
        },
        (other, _) => other,
    }
}

/// Advances the pipeline by one reported event.
pub fn step(req: &Request, stage: Stage, event: Event) -> (next: Stage)
    ensures
        next@ == spec_step(req@, stage@, event@),
{
    match (stage, event) {
        (Stage::ResolveConfig, Event::ConfigsRead { project_text, global_text }) => {
            match resolve_host(&req.cli_remote, &project_text, &global_text) {
                Some(host) => Stage::SyncOut { host },
                None => Stage::Done { outcome: Outcome::NoRemoteHost },
            }
        },
        (Stage::SyncOut { host }, Event::TransferOut { ok }) => {
            if ok {
                Stage::RemoteExecute { host }
            } else {
                Stage::Done { outcome: Outcome::TransferOutFailed }
            }
        },
        (Stage::RemoteExecute { .. }, Event::LaunchFailed) => {
            Stage::Done { outcome: Outcome::RemoteLaunchFailed }
        },
        (Stage::RemoteExecute { host }, Event::RemoteExit { status }) => {
            match &req.copy_back {
                CopyBack::Disabled => {
                    if req.copy_lock_back {
                        Stage::CopyBackLock { host, build_status: status }
                    } else {
                        Stage::Done { outcome: finalize(status) }
                    }
                },
                _ => Stage::CopyBackArtifacts { host, build_status: status },
            }
        },
        (Stage::CopyBackArtifacts { host, build_status }, Event::ArtifactsPulled { ok }) => {
            if !ok {
                Stage::Done { outcome: Outcome::CopyBackFailed }
            } else if req.copy_lock_back {
                Stage::CopyBackLock { host, build_status }
            } else {
                Stage::Done { outcome: finalize(build_status) }
            }
        },
        (Stage::CopyBackLock { build_status, .. }, Event::LockPulled { ok }) => {
            if ok {
                Stage::Done { outcome: finalize(build_status) }
            } else {
                Stage::Done { outcome: Outcome::LockCopyFailed }
            }
        },
        (other, _) => other,
    }
}

/// Maps the remote build's exit status to the run's outcome once every other
/// stage has completed.
pub fn finalize(status: i32) -> (outcome: Outcome)
    ensures
        outcome == finalize_outcome(status),
{
    if status == 0 {
        Outcome::Success
    } else {
        Outcome::RemoteBuildFailed(status)
    }
}

/// The sub-path under the output directory that is copied back.
pub open spec fn copy_back_sub(copy_back: CopyBackV) -> Seq<char> {
    match copy_back {
        CopyBackV::Subpath(p) => p,
        _ => Seq::empty(),
    }
}

/// What the driver must do in a given stage.
#[derive(Debug, PartialEq, Eq)]
pub enum Action {
    /// Read the command-line override and the two configuration files.
    ReadConfigs,
    /// Transfer the tree at `source` to `dest` (archive semantics, delete
    /// extraneous files at the destination, compress, report progress),
    /// excluding dotfiles unless `include_hidden`.
    Push { source: String, dest: String, include_hidden: bool },
    /// Run `command` on `host` with the terminal's streams passed through.
    RunRemote { host: String, command: String },
    /// Transfer the artifact tree at remote `source` back to local `dest`.
    PullArtifacts { source: String, dest: String },
    /// Transfer the lock file at remote `source` back to local `dest`.
    PullLock { source: String, dest: String },
    /// Terminate the process with `code`.
    Exit { code: i32 },
}

pub enum ActionV {
    ReadConfigs,
    Push { source: Seq<char>, dest: Seq<char>, include_hidden: bool },
    RunRemote { host: Seq<char>, command: Seq<char> },
    PullArtifacts { source: Seq<char>, dest: Seq<char> },
    PullLock { source: Seq<char>, dest: Seq<char> },
    Exit { code: i32 },
}

impl View for Action {
    type V = ActionV;

    open spec fn view(&self) -> ActionV {
        match self {
            Action::ReadConfigs => ActionV::ReadConfigs,
            Action::Push { source, dest, include_hidden } => ActionV::Push {
                source: source@,
                dest: dest@,
                include_hidden: *include_hidden,
            },
            Action::RunRemote { host, command } => ActionV::RunRemote {
                host: host@,
                command: command@,
            },
            Action::PullArtifacts { source, dest } => ActionV::PullArtifacts {
                source: source@,
                dest: dest@,
            },
            Action::PullLock { source, dest } => ActionV::PullLock {
                source: source@,
                dest: dest@,
            },
            Action::Exit { code } => ActionV::Exit { code: *code },
        }
    }
}

/// The action a stage asks of the driver.
pub open spec fn spec_next_action(req: RequestV, stage: StageV) -> ActionV {
    match stage {
        StageV::ResolveConfig => ActionV::ReadConfigs,
        StageV::SyncOut { host } => ActionV::Push {
            source: req.project_root + "/"@,
            dest: host + ":"@ + workspace_path_spec(req.project_root),
            include_hidden: req.transfer_hidden,
        },
        StageV::RemoteExecute { host } => ActionV::RunRemote {
            host,
            command: remote_command_spec(
                req.env_profile,
                req.toolchain,
                workspace_path_spec(req.project_root),
                req.build_env,
                req.subcommand,
                req.extra_args,
            ),
        },
        StageV::CopyBackArtifacts { host, .. } => ActionV::PullArtifacts {
            source: host + ":"@ + workspace_path_spec(req.project_root) + "target/"@
                + copy_back_sub(req.copy_back),
            dest: req.project_root + "/target/"@ + copy_back_sub(req.copy_back),
        },
        StageV::CopyBackLock { host, .. } => ActionV::PullLock {
            source: host + ":"@ + workspace_path_spec(req.project_root) + "Cargo.lock"@,
            dest: req.project_root + "/Cargo.lock"@,
        },
        StageV::Done { outcome } => ActionV::Exit { code: outcome_exit_code(outcome) },
    }
}

/// Tells the driver what to do in the current stage.
pub fn next_action(req: &Request, stage: &Stage) -> (action: Action)
    ensures
        action@ == spec_next_action(req@, stage@),
{
    match stage {
        Stage::ResolveConfig => Action::ReadConfigs,
        Stage::SyncOut { host } => {
            let mut source = req.project_root.clone();
            source.append("/");
            let ws = workspace_path(req.project_root.as_str());
            let mut dest = host.clone();
            dest.append(":");
            dest.append(ws.as_str());
            Action::Push { source, dest, include_hidden: req.transfer_hidden }
        },
        Stage::RemoteExecute { host } => {
            let ws = workspace_path(req.project_root.as_str());
            let command = build_remote_command(
                req.env_profile.as_str(),
                req.toolchain.as_str(),
                ws.as_str(),
                req.build_env.as_str(),
                req.subcommand.as_str(),
                &req.extra_args,
            );
            Action::RunRemote { host: host.clone(), command }
        },
        Stage::CopyBackArtifacts { host, .. } => {
            let sub: &str = match &req.copy_back {
                CopyBack::Subpath(p) => p.as_str(),
                _ => "",
            };
            proof {
                reveal_strlit("");
                assert(""@ =~= Seq::<char>::empty());
            }
            let ws = workspace_path(req.project_root.as_str());
            let mut source = host.clone();
            source.append(":");
            source.append(ws.as_str());
            source.append("target/");
            source.append(sub);
            let mut dest = req.project_root.clone();
            dest.append("/target/");
            dest.append(sub);
            Action::PullArtifacts { source, dest }
        },
        Stage::CopyBackLock { host, .. } => {
            let ws = workspace_path(req.project_root.as_str());
            let mut source = host.clone();
            source.append(":");
            source.append(ws.as_str());
            source.append("Cargo.lock");
            let mut dest = req.project_root.clone();
            dest.append("/Cargo.lock");
            Action::PullLock { source, dest }
        },
        Stage::Done { outcome } => Action::Exit { code: exit_code(outcome) },
    }
}

/// The stage reached from `stage` after the events of `events`, in order.
pub open spec fn run_from(req: RequestV, stage: StageV, events: Seq<EventV>) -> StageV
    decreases events.len(),
{
    if events.len() == 0 {
        stage
    } else {
        run_from(req, spec_step(req, stage, events[0]), events.drop_first())
    }
}

/// A finished run stays finished: no later event moves the machine out of
/// `Done`, so nothing is transferred or executed after the run is over.
pub proof fn lemma_done_absorbs(req: RequestV, outcome: Outcome, events: Seq<EventV>)
    ensures
        run_from(req, (StageV::Done { outcome }), events) == (StageV::Done { outcome }),
    decreases events.len(),
{
    if events.len() > 0 {
        assert(spec_step(req, StageV::Done { outcome }, events[0]) == StageV::Done { outcome });
        lemma_done_absorbs(req, outcome, events.drop_first());
    }
}

/// When the outbound transfer fails, the run is over at once: whatever events
/// follow, the machine stays in the transfer-failure state, and the only
/// action it ever asks for again is exiting with the transfer-failure code —
/// remote execution and both copy-back stages are never requested.
pub proof fn lemma_transfer_out_failure_is_final(
    req: RequestV,
    host: Seq<char>,
    rest: Seq<EventV>,
)
    ensures
        spec_step(req, (StageV::SyncOut { host }), (EventV::TransferOut { ok: false })) == (
        StageV::Done { outcome: Outcome::TransferOutFailed }),
        run_from(
            req,
            (StageV::SyncOut { host }),
            seq![EventV::TransferOut { ok: false }] + rest,
        ) == (StageV::Done { outcome: Outcome::TransferOutFailed }),
        spec_next_action(req, (StageV::Done { outcome: Outcome::TransferOutFailed })) == (
        ActionV::Exit { code: EXIT_TRANSFER_OUT }),
{
    let events = seq![EventV::TransferOut { ok: false }] + rest;
    assert(events[0] == EventV::TransferOut { ok: false });
    assert(events.drop_first() =~= rest);
    lemma_done_absorbs(req, Outcome::TransferOutFailed, rest);
}

/// When no configuration source yields a host, the run is over before any
/// transfer or execution: the machine goes straight to the no-host state,
/// stays there whatever follows, and asks only for the no-host exit code.
pub proof fn lemma_no_host_halts_pipeline(
    req: RequestV,
    project_text: Option<Seq<char>>,
    global_text: Option<Seq<char>>,
    rest: Seq<EventV>,
)
    requires
        (resolve_spec(req.cli_remote, project_text, global_text) is None),
    ensures
        run_from(
            req,
            StageV::ResolveConfig,
            seq![EventV::ConfigsRead { project_text, global_text }] + rest,
        ) == (StageV::Done { outcome: Outcome::NoRemoteHost }),
        spec_next_action(req, (StageV::Done { outcome: Outcome::NoRemoteHost })) == (
        ActionV::Exit { code: EXIT_NO_REMOTE_HOST }),
{
    let events = seq![EventV::ConfigsRead { project_text, global_text }] + rest;
    assert(events[0] == EventV::ConfigsRead { project_text, global_text });
    assert(events.drop_first() =~= rest);
    lemma_done_absorbs(req, Outcome::NoRemoteHost, rest);
}

/// With copy-back disabled on both counts, a remote build that exits with a
/// non-zero status ends the run with exactly that status as the exit code —
/// not zero and not a generic failure code.
pub proof fn lemma_build_status_is_exit_code(req: RequestV, host: Seq<char>, status: i32)
    requires
        (req.copy_back is Disabled),
        !req.copy_lock_back,
        status != 0,
    ensures
        spec_step(req, (StageV::RemoteExecute { host }), (EventV::RemoteExit { status })) == (
        StageV::Done { outcome: Outcome::RemoteBuildFailed(status) }),
        outcome_exit_code(Outcome::RemoteBuildFailed(status)) == status,
{
}

/// Whatever the copy-back settings, when every copy-back stage that runs
/// succeeds, the remote build's status decides the outcome: zero means
/// success, anything else is propagated verbatim as the exit code.
pub proof fn lemma_successful_copy_back_preserves_status(
    req: RequestV,
    host: Seq<char>,
    status: i32,
)
    ensures
        run_from(
            req,
            (StageV::RemoteExecute { host }),
            seq![
                EventV::RemoteExit { status },
                EventV::ArtifactsPulled { ok: true },
                EventV::LockPulled { ok: true },
            ],
        ) == (StageV::Done { outcome: finalize_outcome(status) }),
        outcome_exit_code(finalize_outcome(status)) == status,
{
    let e1 = EventV::RemoteExit { status };
    let e2 = EventV::ArtifactsPulled { ok: true };
    let e3 = EventV::LockPulled { ok: true };
    let events = seq![e1, e2, e3];
    let s0 = StageV::RemoteExecute { host };
    let s1 = spec_step(req, s0, e1);
    let s2 = spec_step(req, s1, e2);
    let s3 = spec_step(req, s2, e3);
    assert(events.drop_first() =~= seq![e2, e3]);
    assert(seq![e2, e3].drop_first() =~= seq![e3]);
    assert(seq![e3].drop_first() =~= Seq::<EventV>::empty());
    assert(run_from(req, s0, events) == run_from(req, s1, seq![e2, e3]));
    assert(run_from(req, s1, seq![e2, e3]) == run_from(req, s2, seq![e3]));
    assert(run_from(req, s2, seq![e3]) == run_from(req, s3, Seq::<EventV>::empty()));
    assert(s3 == StageV::Done { outcome: finalize_outcome(status) });
}

/// A remote build that succeeds does not save a failed artifact copy-back:
/// the run ends with the copy-back failure code, not zero.
pub proof fn lemma_copy_back_failure_overrides_success(req: RequestV, host: Seq<char>)
    requires
        !(req.copy_back is Disabled),
    ensures
        spec_step(req, (StageV::RemoteExecute { host }), (EventV::RemoteExit { status: 0 })) == (
        StageV::CopyBackArtifacts { host, build_status: 0 }),
        spec_step(
            req,
            (StageV::CopyBackArtifacts { host, build_status: 0 }),
            (EventV::ArtifactsPulled { ok: false }),
        ) == (StageV::Done { outcome: Outcome::CopyBackFailed }),
        outcome_exit_code(Outcome::CopyBackFailed) == EXIT_COPY_BACK,
        EXIT_COPY_BACK != 0,
{
}

} // verus!
