use ego::{
    command_failed_error, compose_remote_script, detect_method, init_with_level,
    machinectl_remote_command, report_command_error, run_machinectl_command, run_sudo_command,
    session_command, EgoContext, EnvValue, Level, Method,
};

fn strings(v: &[&str]) -> Vec<String> {
    v.iter().map(|s| s.to_string()).collect()
}

fn test_context() -> EgoContext {
    EgoContext {
        runtime_dir: "/run/user/1000".into(),
        target_user: "ego".into(),
        target_uid: 155,
        target_user_shell: Some("/bin/bash".into()),
        target_user_homedir: Some("/home/ego".into()),
    }
}

#[test]
fn sudo_rejects_dash_command() {
    let r = run_sudo_command(&test_context(), vec![], strings(&["-la"]), EnvValue::Unset);
    match r {
        Ok(_) => panic!("a dashed command must be refused"),
        Err(e) => assert_eq!(e.err, "Command may not start with '-' (command is: '-la')"),
    }
}

#[test]
fn sudo_arguments() {
    let envs = strings(&["DISPLAY=:0", "WAYLAND_DISPLAY=/run/user/1000/wayland-0"]);
    let c = run_sudo_command(&test_context(), envs.clone(), strings(&["ls", "-la"]), EnvValue::Unset)
        .ok()
        .unwrap();
    assert_eq!(c.program, "sudo");
    assert_eq!(
        c.args,
        strings(&["-Hiu", "ego", "DISPLAY=:0", "WAYLAND_DISPLAY=/run/user/1000/wayland-0", "ls", "-la"])
    );
    let c = run_sudo_command(&test_context(), envs.clone(), vec![], EnvValue::NotUnicode)
        .ok()
        .unwrap();
    assert_eq!(
        c.args,
        strings(&["-Hiu", "ego", "-A", "DISPLAY=:0", "WAYLAND_DISPLAY=/run/user/1000/wayland-0"])
    );
    let c = run_sudo_command(&test_context(), envs, vec![], EnvValue::Value("/usr/bin/askpass".into()))
        .ok()
        .unwrap();
    assert_eq!(
        c.args,
        strings(&["-Hiu", "ego", "-A", "DISPLAY=:0", "WAYLAND_DISPLAY=/run/user/1000/wayland-0"])
    );
}

#[test]
fn remote_command_quotes_words() {
    let envs = strings(&["DISPLAY=:0", "PULSE_SERVER=unix:/run/user/1000/pulse/native"]);
    assert_eq!(
        machinectl_remote_command(strings(&["ls", "my file"]), &envs, false),
        "dbus-update-activation-environment --systemd DISPLAY PULSE_SERVER; \
         systemctl --user start xdg-desktop-portal-gtk; exec ls 'my file'"
    );
    assert_eq!(
        machinectl_remote_command(strings(&["echo", "it's"]), &envs, true),
        "exec echo 'it'\\''s'"
    );
    assert_eq!(compose_remote_script("A B", "x", true), "exec x");
}

#[test]
fn machinectl_arguments() {
    let envs = strings(&["DISPLAY=:0"]);
    let c = run_machinectl_command(&test_context(), &envs, vec![], false).ok().unwrap();
    assert_eq!(c.program, "machinectl");
    assert_eq!(
        c.args,
        strings(&[
            "shell",
            "--uid=ego",
            "-EDISPLAY=:0",
            "--",
            ".host",
            "/bin/sh",
            "-c",
            "dbus-update-activation-environment --systemd DISPLAY; \
             systemctl --user start xdg-desktop-portal-gtk; exec /bin/bash",
        ])
    );
    let mut ctx = test_context();
    ctx.target_user_shell = None;
    match run_machinectl_command(&ctx, &envs, vec![], true) {
        Ok(_) => panic!("a shell that is not Unicode must be refused"),
        Err(e) => assert_eq!(e.err, "User 'ego' shell has unexpected characters"),
    }
    let c = run_machinectl_command(&ctx, &envs, strings(&["true"]), true).ok().unwrap();
    assert_eq!(c.args.last().unwrap(), "exec true");
}

#[test]
fn session_command_by_method() {
    let ctx = test_context();
    let c = session_command(&ctx, Method::Sudo, vec![], strings(&["id"]), EnvValue::Unset).ok().unwrap();
    assert_eq!(c.program, "sudo");
    let c = session_command(&ctx, Method::MachinectlBare, vec![], strings(&["id"]), EnvValue::Unset)
        .ok()
        .unwrap();
    assert_eq!(c.program, "machinectl");
    assert_eq!(c.args.last().unwrap(), "exec id");
}

#[test]
fn method_detection() {
    let mut log = init_with_level(Level::Warn);
    assert_eq!(detect_method(&mut log, false, true), Method::Sudo);
    assert!(log.lines.is_empty());
    assert_eq!(detect_method(&mut log, true, true), Method::Machinectl);
    assert!(log.lines.is_empty());
    assert_eq!(detect_method(&mut log, true, false), Method::Sudo);
    assert_eq!(
        log.lines,
        strings(&[
            "\x1b[33mwarning\x1b[0m: machinectl (systemd-container) is not installed",
            "\x1b[33mwarning\x1b[0m: Falling back to 'sudo', some desktop integration features may not work",
        ])
    );
    let mut quiet = init_with_level(Level::Error);
    assert_eq!(detect_method(&mut quiet, true, false), Method::Sudo);
    assert!(quiet.lines.is_empty());
}

#[test]
fn launch_errors_give_hints() {
    let e = report_command_error("No such file or directory (os error 2)", true, "machinectl", &vec![]);
    assert_eq!(e.err, "Failed to run machinectl: No such file or directory (os error 2)");
    assert_eq!(e.hint, "Try installing package that contains command 'machinectl'");
    let e = report_command_error("Permission denied (os error 13)", false, "xhost", &strings(&["+si:localuser:ego"]));
    assert_eq!(e.hint, "Complete command: xhost +si:localuser:ego");
    let e = command_failed_error("xhost", &strings(&["+si:localuser:a b"]), Some(1), "bad");
    assert_eq!(e.err, "xhost returned 1:\nbad");
    assert_eq!(e.hint, "Complete command: xhost '+si:localuser:a b'");
    let e = command_failed_error("xhost", &vec![], None, "");
    assert_eq!(e.err, "xhost returned 999:\n");
    let e = command_failed_error("xhost", &vec![], Some(-3), "");
    assert_eq!(e.err, "xhost returned -3:\n");
}
