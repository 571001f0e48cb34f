use remocom::pipeline::{
    exit_code, next_action, step, Action, CopyBack, Event, Outcome, Request, Stage,
    EXIT_COPY_BACK, EXIT_COPY_LOCK, EXIT_NO_REMOTE_HOST, EXIT_REMOTE_LAUNCH, EXIT_TRANSFER_OUT,
};

fn base_request() -> Request {
    Request {
        cli_remote: None,
        build_env: String::from("RUST_BACKTRACE=1"),
        toolchain: String::from("stable"),
        env_profile: String::from("/etc/profile"),
        copy_back: CopyBack::Disabled,
        copy_lock_back: false,
        transfer_hidden: false,
        manifest_path: String::from("Cargo.toml"),
        project_root: String::from("/home/u/proj"),
        subcommand: String::from("build"),
        extra_args: vec![String::from("--release")],
    }
}

fn fnv1a64(bytes: &[u8]) -> u64 {
    let mut h: u64 = 0xcbf29ce484222325;
    for b in bytes {
        h ^= *b as u64;
        h = h.wrapping_mul(0x100000001b3);
    }
    h
}

fn configs(project: Option<&str>, global: Option<&str>) -> Event {
    Event::ConfigsRead {
        project_text: project.map(String::from),
        global_text: global.map(String::from),
    }
}

#[test]
fn successful_run_exits_zero() {
    let mut req = base_request();
    req.cli_remote = Some(String::from("build.example.com"));
    req.copy_back = CopyBack::WholeDir;
    req.copy_lock_back = true;
    let s = Stage::ResolveConfig;
    assert_eq!(next_action(&req, &s), Action::ReadConfigs);
    let s = step(&req, s, configs(None, None));
    let s = step(&req, s, Event::TransferOut { ok: true });
    let s = step(&req, s, Event::RemoteExit { status: 0 });
    let s = step(&req, s, Event::ArtifactsPulled { ok: true });
    let s = step(&req, s, Event::LockPulled { ok: true });
    assert_eq!(s, Stage::Done { outcome: Outcome::Success });
    assert_eq!(next_action(&req, &s), Action::Exit { code: 0 });
}

#[test]
fn no_resolvable_host_is_fatal_before_any_transfer() {
    let req = base_request();
    let s = step(&req, Stage::ResolveConfig, configs(Some("not [valid toml"), None));
    assert_eq!(s, Stage::Done { outcome: Outcome::NoRemoteHost });
    assert_eq!(next_action(&req, &s), Action::Exit { code: EXIT_NO_REMOTE_HOST });
    assert_eq!(exit_code(&Outcome::NoRemoteHost), -3);
}

#[test]
fn transfer_out_failure_halts_the_pipeline() {
    let mut req = base_request();
    req.cli_remote = Some(String::from("h"));
    req.copy_back = CopyBack::WholeDir;
    req.copy_lock_back = true;
    let s = step(&req, Stage::ResolveConfig, configs(None, None));
    assert!(matches!(s, Stage::SyncOut { .. }));
    let s = step(&req, s, Event::TransferOut { ok: false });
    assert_eq!(s, Stage::Done { outcome: Outcome::TransferOutFailed });
    assert_eq!(next_action(&req, &s), Action::Exit { code: EXIT_TRANSFER_OUT });
    // Later events cannot revive the run: no execute or copy-back follows.
    let s = step(&req, s, Event::RemoteExit { status: 0 });
    let s = step(&req, s, Event::ArtifactsPulled { ok: true });
    let s = step(&req, s, Event::LockPulled { ok: true });
    assert_eq!(s, Stage::Done { outcome: Outcome::TransferOutFailed });
    assert_eq!(next_action(&req, &s), Action::Exit { code: -4 });
}

#[test]
fn remote_launch_failure_has_its_own_code() {
    let mut req = base_request();
    req.cli_remote = Some(String::from("h"));
    let s = step(&req, Stage::ResolveConfig, configs(None, None));
    let s = step(&req, s, Event::TransferOut { ok: true });
    let s = step(&req, s, Event::LaunchFailed);
    assert_eq!(s, Stage::Done { outcome: Outcome::RemoteLaunchFailed });
    assert_eq!(next_action(&req, &s), Action::Exit { code: EXIT_REMOTE_LAUNCH });
    assert_eq!(exit_code(&Outcome::RemoteLaunchFailed), -5);
}

#[test]
fn remote_exit_seven_without_copy_back_exits_seven() {
    let mut req = base_request();
    req.cli_remote = Some(String::from("h"));
    let s = step(&req, Stage::ResolveConfig, configs(None, None));
    let s = step(&req, s, Event::TransferOut { ok: true });
    let s = step(&req, s, Event::RemoteExit { status: 7 });
    assert_eq!(s, Stage::Done { outcome: Outcome::RemoteBuildFailed(7) });
    assert_eq!(next_action(&req, &s), Action::Exit { code: 7 });
}

#[test]
fn remote_exit_seven_survives_successful_copy_back() {
    let mut req = base_request();
    req.cli_remote = Some(String::from("h"));
    req.copy_back = CopyBack::WholeDir;
    req.copy_lock_back = true;
    let s = step(&req, Stage::ResolveConfig, configs(None, None));
    let s = step(&req, s, Event::TransferOut { ok: true });
    let s = step(&req, s, Event::RemoteExit { status: 7 });
    assert!(matches!(s, Stage::CopyBackArtifacts { .. }));
    let s = step(&req, s, Event::ArtifactsPulled { ok: true });
    assert!(matches!(s, Stage::CopyBackLock { .. }));
    let s = step(&req, s, Event::LockPulled { ok: true });
    assert_eq!(s, Stage::Done { outcome: Outcome::RemoteBuildFailed(7) });
    assert_eq!(next_action(&req, &s), Action::Exit { code: 7 });
}

#[test]
fn copy_back_failure_overrides_a_successful_build() {
    let mut req = base_request();
    req.cli_remote = Some(String::from("h"));
    req.copy_back = CopyBack::WholeDir;
    let s = step(&req, Stage::ResolveConfig, configs(None, None));
    let s = step(&req, s, Event::TransferOut { ok: true });
    let s = step(&req, s, Event::RemoteExit { status: 0 });
    let s = step(&req, s, Event::ArtifactsPulled { ok: false });
    assert_eq!(s, Stage::Done { outcome: Outcome::CopyBackFailed });
    assert_eq!(next_action(&req, &s), Action::Exit { code: EXIT_COPY_BACK });
    assert_eq!(exit_code(&Outcome::CopyBackFailed), -6);
}

#[test]
fn lock_copy_failure_overrides_a_successful_build() {
    let mut req = base_request();
    req.cli_remote = Some(String::from("h"));
    req.copy_lock_back = true;
    let s = step(&req, Stage::ResolveConfig, configs(None, None));
    let s = step(&req, s, Event::TransferOut { ok: true });
    let s = step(&req, s, Event::RemoteExit { status: 0 });
    assert!(matches!(s, Stage::CopyBackLock { .. }));
    let s = step(&req, s, Event::LockPulled { ok: false });
    assert_eq!(s, Stage::Done { outcome: Outcome::LockCopyFailed });
    assert_eq!(next_action(&req, &s), Action::Exit { code: EXIT_COPY_LOCK });
    assert_eq!(exit_code(&Outcome::LockCopyFailed), -7);
}

#[test]
fn push_action_names_the_tree_and_the_workspace() {
    let mut req = base_request();
    req.cli_remote = Some(String::from("build.example.com"));
    let s = step(&req, Stage::ResolveConfig, configs(None, None));
    let h = fnv1a64(b"/home/u/proj");
    match next_action(&req, &s) {
        Action::Push { source, dest, include_hidden } => {
            assert_eq!(source, "/home/u/proj/");
            assert_eq!(dest, format!("build.example.com:~/remote-builds/{}/", h));
            assert!(!include_hidden);
        },
        other => panic!("expected a push action, got {:?}", other),
    }
}

#[test]
fn pull_actions_name_artifacts_and_lock_file() {
    let mut req = base_request();
    req.cli_remote = Some(String::from("h"));
    req.copy_back = CopyBack::Subpath(String::from("release/app"));
    req.copy_lock_back = true;
    let hash = fnv1a64(b"/home/u/proj");
    let s = step(&req, Stage::ResolveConfig, configs(None, None));
    let s = step(&req, s, Event::TransferOut { ok: true });
    let s = step(&req, s, Event::RemoteExit { status: 0 });
    match next_action(&req, &s) {
        Action::PullArtifacts { source, dest } => {
            assert_eq!(source, format!("h:~/remote-builds/{}/target/release/app", hash));
            assert_eq!(dest, "/home/u/proj/target/release/app");
        },
        other => panic!("expected an artifact pull, got {:?}", other),
    }
    let s = step(&req, s, Event::ArtifactsPulled { ok: true });
    match next_action(&req, &s) {
        Action::PullLock { source, dest } => {
            assert_eq!(source, format!("h:~/remote-builds/{}/Cargo.lock", hash));
            assert_eq!(dest, "/home/u/proj/Cargo.lock");
        },
        other => panic!("expected a lock pull, got {:?}", other),
    }
}

#[test]
fn end_to_end_scenario_from_config_file_to_command_line() {
    let req = base_request();
    let s = Stage::ResolveConfig;
    let s = step(&req, s, configs(Some("remote = \"build.example.com\""), None));
    match &s {
        Stage::SyncOut { host } => assert_eq!(host, "build.example.com"),
        other => panic!("expected the sync-out stage, got {:?}", other),
    }
    let hash = fnv1a64(b"/home/u/proj");
    let s = step(&req, s, Event::TransferOut { ok: true });
    match next_action(&req, &s) {
        Action::RunRemote { host, command } => {
            assert_eq!(host, "build.example.com");
            assert_eq!(
                command,
                format!(
                    "source /etc/profile; rustup default stable; \
                     cd ~/remote-builds/{}/; RUST_BACKTRACE=1 cargo build --release",
                    hash
                )
            );
            assert!(command.ends_with("cargo build --release"));
        },
        other => panic!("expected a remote run, got {:?}", other),
    }
    let s = step(&req, s, Event::RemoteExit { status: 0 });
    assert_eq!(s, Stage::Done { outcome: Outcome::Success });
    assert_eq!(next_action(&req, &s), Action::Exit { code: 0 });
}
