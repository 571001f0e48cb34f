use remocom::command::build_remote_command;

#[test]
fn command_line_has_every_part_in_order() {
    let args = vec![String::from("--release")];
    let s = build_remote_command(
        "/etc/profile",
        "stable",
        "~/remote-builds/123/",
        "RUST_BACKTRACE=1",
        "build",
        &args,
    );
    assert_eq!(
        s,
        "source /etc/profile; rustup default stable; cd ~/remote-builds/123/; \
         RUST_BACKTRACE=1 cargo build --release"
    );
}

#[test]
fn extra_args_keep_their_order_space_joined() {
    let args = vec![
        String::from("--release"),
        String::from("--features"),
        String::from("tls"),
    ];
    let s = build_remote_command("/etc/profile", "nightly", "/w/", "CC=gcc", "test", &args);
    assert!(s.ends_with("CC=gcc cargo test --release --features tls"));
}

#[test]
fn no_extra_args_leaves_a_bare_invocation() {
    let args: Vec<String> = Vec::new();
    let s = build_remote_command("/etc/profile", "stable", "/w/", "RUST_BACKTRACE=1", "check", &args);
    assert_eq!(
        s,
        "source /etc/profile; rustup default stable; cd /w/; RUST_BACKTRACE=1 cargo check "
    );
}
