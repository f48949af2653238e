use ego::{
    ego_rundir, find_pulseaudio_cookie, get_wayland_socket, prepare_pulseaudio, prepare_pulseaudio_socket,
    prepare_runtime_dir, prepare_session, prepare_wayland, prepare_x11,
    pulseaudio_cookie_candidates, pulseaudio_dir, pulseaudio_socket, EgoContext, EnvValue,
    failed_in_subsystem, ErrorWithHint, Preparation, PulseFacts, SessionFacts, SessionPreparation,
    Step, Subsystem, ACL_EXECUTE, ACL_READ, ACL_RWX,
};

fn test_context() -> EgoContext {
    EgoContext {
        runtime_dir: "/run/user/1000".into(),
        target_user: "ego".into(),
        target_uid: 155,
        target_user_shell: Some("/bin/bash".into()),
        target_user_homedir: Some("/home/ego".into()),
    }
}

fn set(v: &str) -> EnvValue {
    EnvValue::Value(v.to_string())
}

fn no_pulse() -> PulseFacts {
    PulseFacts {
        dir_is_dir: false,
        native_mode: Ok(0o777),
        pulse_cookie: EnvValue::Unset,
        home: set("/home/me"),
        config_cookie_is_file: true,
        legacy_cookie_is_file: false,
        ego_dir_is_dir: true,
    }
}

fn pulse(native_mode: Result<u32, String>) -> PulseFacts {
    PulseFacts { dir_is_dir: true, native_mode, ..no_pulse() }
}

fn is_grant(step: &Step, path: &str, uid: u32, perms: u32) -> bool {
    matches!(step, Step::GrantAcl { path: p, uid: u, perms: b } if p == path && *u == uid && *b == perms)
}

fn unwrap_prep(r: Result<Preparation, ego::ErrorWithHint>) -> Preparation {
    match r {
        Ok(p) => p,
        Err(e) => panic!("unexpected error: {}", e.err),
    }
}

fn unwrap_session(r: Result<SessionPreparation, ego::ErrorWithHint>) -> SessionPreparation {
    match r {
        Ok(p) => p,
        Err(e) => panic!("unexpected error: {}", e.err),
    }
}

fn unwrap_err<T>(r: Result<T, ego::ErrorWithHint>) -> ego::ErrorWithHint {
    match r {
        Ok(_) => panic!("expected an error"),
        Err(e) => e,
    }
}

#[test]
fn wayland_socket() {
    let ctx = test_context();
    assert_eq!(get_wayland_socket(&ctx, EnvValue::Unset).ok().unwrap(), None);

    assert_eq!(
        get_wayland_socket(&ctx, set("wayland-7")).ok().unwrap().unwrap(),
        "/run/user/1000/wayland-7"
    );

    assert_eq!(
        get_wayland_socket(&ctx, set("/tmp/wayland-7")).ok().unwrap().unwrap(),
        "/tmp/wayland-7"
    );
}

#[test]
fn wayland_display_not_unicode_is_an_error() {
    let e = unwrap_err(get_wayland_socket(&test_context(), EnvValue::NotUnicode));
    assert_eq!(e.err, "Env variable WAYLAND_DISPLAY invalid");
}

#[test]
fn absolute_wayland_display_ignores_runtime_dir() {
    let mut ctx = test_context();
    ctx.runtime_dir = "/somewhere/else/".into();
    assert_eq!(
        get_wayland_socket(&ctx, set("/run/wl.sock")).ok().unwrap().unwrap(),
        "/run/wl.sock"
    );
    assert_eq!(
        get_wayland_socket(&ctx, set("wl.sock")).ok().unwrap().unwrap(),
        "/somewhere/else/wl.sock"
    );
}

#[test]
fn relative_wayland_display_grants_rwx() {
    let p = unwrap_prep(prepare_wayland(&test_context(), set("wayland-3")));
    assert_eq!(p.steps.len(), 1);
    assert!(is_grant(&p.steps[0], "/run/user/1000/wayland-3", 155, ACL_RWX));
    assert_eq!(p.vars, vec!["WAYLAND_DISPLAY=/run/user/1000/wayland-3".to_string()]);
}

#[test]
fn runtime_dir_must_be_a_directory() {
    let e = unwrap_err(prepare_runtime_dir(&test_context(), false));
    assert_eq!(e.err, "'/run/user/1000' is not a directory");
    let p = unwrap_prep(prepare_runtime_dir(&test_context(), true));
    assert_eq!(p.steps.len(), 1);
    assert!(is_grant(&p.steps[0], "/run/user/1000", 155, ACL_EXECUTE));
    assert!(p.vars.is_empty());
}

#[test]
fn x11_passes_display_through() {
    let ctx = test_context();
    let p = unwrap_prep(prepare_x11(&ctx, set(":0"), false));
    assert_eq!(p.vars, vec!["DISPLAY=:0".to_string()]);
    assert!(matches!(&p.steps[0], Step::X11Grant { type_tag, value } if type_tag == "localuser" && value == "ego"));
    let fallback = p.steps[0].fallback().unwrap();
    assert!(matches!(&fallback, Step::RunCommand { program, args } if program == "xhost" && args == &vec!["+si:localuser:ego".to_string()]));

    let p = unwrap_prep(prepare_x11(&ctx, set(":1"), true));
    assert_eq!(p.vars, vec!["DISPLAY=:1".to_string()]);
    assert!(matches!(&p.steps[0], Step::RunCommand { program, args } if program == "xhost" && args == &vec!["+si:localuser:ego".to_string()]));
    assert!(p.steps[0].fallback().is_none());

    let p = unwrap_prep(prepare_x11(&ctx, EnvValue::Unset, false));
    assert!(p.steps.is_empty() && p.vars.is_empty());
}

#[test]
fn pulseaudio_paths() {
    let ctx = test_context();
    let dir = pulseaudio_dir(&ctx);
    assert_eq!(dir, "/run/user/1000/pulse");
    assert_eq!(pulseaudio_socket(&dir), "/run/user/1000/pulse/native");
    assert_eq!(ego_rundir(&ctx), "/run/user/1000/ego");
    let (a, b) = pulseaudio_cookie_candidates("/home/me");
    assert_eq!(a, "/home/me/.config/pulse/cookie");
    assert_eq!(b, "/home/me/.pulse-cookie");
}

#[test]
fn pulseaudio_socket_must_be_world_writable() {
    let v = prepare_pulseaudio_socket("/run/user/1000/pulse", Ok(0o140777)).ok().unwrap();
    assert_eq!(v, vec!["PULSE_SERVER=unix:/run/user/1000/pulse/native".to_string()]);
    let e = unwrap_err(prepare_pulseaudio_socket("/run/user/1000/pulse", Ok(0o140755)));
    assert_eq!(e.err, "Unexpected permissions on '/run/user/1000/pulse/native': 755");
    let e = unwrap_err(prepare_pulseaudio_socket("/run/user/1000/pulse", Ok(0o140772)));
    assert_eq!(e.err, "Unexpected permissions on '/run/user/1000/pulse/native': 772");
    let e = unwrap_err(prepare_pulseaudio_socket(
        "/run/user/1000/pulse",
        Err("No such file or directory (os error 2)".to_string()),
    ));
    assert_eq!(e.err, "'/run/user/1000/pulse/native': No such file or directory (os error 2)");
}

#[test]
fn cookie_prefers_pulse_cookie_variable() {
    let r = find_pulseaudio_cookie(set("/tmp/my-cookie"), set("/home/me"), true, true);
    assert_eq!(r.ok().unwrap(), "/tmp/my-cookie");
    let r = find_pulseaudio_cookie(set("/tmp/my-cookie"), EnvValue::Unset, false, false);
    assert_eq!(r.ok().unwrap(), "/tmp/my-cookie");
}

#[test]
fn cookie_prefers_config_over_legacy() {
    let r = find_pulseaudio_cookie(EnvValue::Unset, set("/home/me"), true, true);
    assert_eq!(r.ok().unwrap(), "/home/me/.config/pulse/cookie");
    let r = find_pulseaudio_cookie(EnvValue::Unset, set("/home/me"), false, true);
    assert_eq!(r.ok().unwrap(), "/home/me/.pulse-cookie");
}

#[test]
fn cookie_missing_names_all_places() {
    let e = unwrap_err(find_pulseaudio_cookie(EnvValue::Unset, set("/home/me"), false, false));
    assert_eq!(
        e.err,
        "Cannot locate PulseAudio cookie (tried $PULSE_COOKIE, ~/.config/pulse/cookie, ~/.pulse-cookie)"
    );
    let e = unwrap_err(find_pulseaudio_cookie(EnvValue::Unset, EnvValue::Unset, true, true));
    assert_eq!(e.err, "Env variable HOME unset");
    let e = unwrap_err(find_pulseaudio_cookie(EnvValue::NotUnicode, set("/home/me"), true, true));
    assert_eq!(e.err, "Env variable PULSE_COOKIE invalid");
}

#[test]
fn pulseaudio_publishes_cookie_copy() {
    let facts = PulseFacts { ego_dir_is_dir: false, ..pulse(Ok(0o140777)) };
    let p = unwrap_prep(prepare_pulseaudio(&test_context(), facts));
    assert_eq!(p.steps.len(), 5);
    assert!(is_grant(&p.steps[0], "/run/user/1000/pulse", 155, ACL_EXECUTE));
    assert!(matches!(&p.steps[1], Step::CreatePrivateDir { path } if path == "/run/user/1000/ego"));
    assert!(is_grant(&p.steps[2], "/run/user/1000/ego", 155, ACL_EXECUTE));
    assert!(matches!(&p.steps[3], Step::CopyFile { from, to } if from == "/home/me/.config/pulse/cookie" && to == "/run/user/1000/ego/pulse-cookie"));
    assert!(is_grant(&p.steps[4], "/run/user/1000/ego/pulse-cookie", 155, ACL_READ));
    assert_eq!(
        p.vars,
        vec![
            "PULSE_SERVER=unix:/run/user/1000/pulse/native".to_string(),
            "PULSE_COOKIE=/run/user/1000/ego/pulse-cookie".to_string(),
        ]
    );
}

#[test]
fn pulseaudio_absent_is_skipped() {
    let p = unwrap_prep(prepare_pulseaudio(&test_context(), no_pulse()));
    assert!(p.steps.is_empty() && p.vars.is_empty());
}

#[test]
fn bare_session_grants_runtime_dir_only() {
    let facts = SessionFacts {
        runtime_dir_is_dir: true,
        wayland_display: EnvValue::Unset,
        display: EnvValue::Unset,
        pulse: no_pulse(),
    };
    let s = unwrap_session(prepare_session(&test_context(), facts, false));
    assert_eq!(s.runtime_dir.steps.len(), 1);
    assert!(is_grant(&s.runtime_dir.steps[0], "/run/user/1000", 155, ACL_EXECUTE));
    assert!(s.wayland.steps.is_empty() && s.x11.steps.is_empty() && s.pulseaudio.steps.is_empty());
    assert!(s.into_vars().is_empty());
}

#[test]
fn wayland_session_binding() {
    let facts = SessionFacts {
        runtime_dir_is_dir: true,
        wayland_display: set("wayland-3"),
        display: EnvValue::Unset,
        pulse: no_pulse(),
    };
    let s = unwrap_session(prepare_session(&test_context(), facts, false));
    let wayland = s.part(Subsystem::Wayland);
    assert_eq!(wayland.steps.len(), 1);
    assert!(is_grant(&wayland.steps[0], "/run/user/1000/wayland-3", 155, ACL_RWX));
    assert_eq!(s.into_vars(), vec!["WAYLAND_DISPLAY=/run/user/1000/wayland-3".to_string()]);
}

#[test]
fn bad_pulse_socket_aborts_session() {
    let facts = SessionFacts {
        runtime_dir_is_dir: true,
        wayland_display: set("wayland-0"),
        display: set(":0"),
        pulse: pulse(Ok(0o140700)),
    };
    let e = unwrap_err(prepare_session(&test_context(), facts, false));
    assert_eq!(
        e.err,
        "Error preparing PulseAudio: Unexpected permissions on '/run/user/1000/pulse/native': 700"
    );
}

#[test]
fn session_errors_name_the_subsystem() {
    let facts = SessionFacts {
        runtime_dir_is_dir: false,
        wayland_display: EnvValue::Unset,
        display: EnvValue::Unset,
        pulse: no_pulse(),
    };
    let e = unwrap_err(prepare_session(&test_context(), facts, false));
    assert_eq!(e.err, "Error preparing runtime dir: '/run/user/1000' is not a directory");

    let facts = SessionFacts {
        runtime_dir_is_dir: true,
        wayland_display: EnvValue::Unset,
        display: EnvValue::NotUnicode,
        pulse: no_pulse(),
    };
    let e = unwrap_err(prepare_session(&test_context(), facts, false));
    assert_eq!(e.err, "Error preparing X11: Env variable DISPLAY invalid");
}

#[test]
fn full_session_in_order() {
    let facts = SessionFacts {
        runtime_dir_is_dir: true,
        wayland_display: set("wayland-0"),
        display: set(":0"),
        pulse: pulse(Ok(0o140777)),
    };
    let s = unwrap_session(prepare_session(&test_context(), facts, false));
    assert_eq!(s.part(Subsystem::RuntimeDir).steps.len(), 1);
    assert_eq!(s.part(Subsystem::Wayland).steps.len(), 1);
    assert_eq!(s.part(Subsystem::X11).steps.len(), 1);
    assert_eq!(s.part(Subsystem::PulseAudio).steps.len(), 4);
    assert_eq!(
        s.into_vars(),
        vec![
            "WAYLAND_DISPLAY=/run/user/1000/wayland-0".to_string(),
            "DISPLAY=:0".to_string(),
            "PULSE_SERVER=unix:/run/user/1000/pulse/native".to_string(),
            "PULSE_COOKIE=/run/user/1000/ego/pulse-cookie".to_string(),
        ]
    );
}

#[test]
fn step_failures_name_the_subsystem() {
    let e = failed_in_subsystem(
        Subsystem::PulseAudio,
        ErrorWithHint::new("Error writing /run/user/1000/pulse ACL: denied".into(), "h".into()),
    );
    assert_eq!(e.err, "Error preparing PulseAudio: Error writing /run/user/1000/pulse ACL: denied");
    assert_eq!(e.hint, "h");
    assert_eq!(Subsystem::RuntimeDir.as_str(), "runtime dir");
}

#[test]
fn cookie_error_is_passed_on_unchanged() {
    let e = unwrap_err(ego::prepare_pulseaudio_cookie(
        &test_context(),
        Err(ErrorWithHint::new("no cookie".into(), "look".into())),
        false,
    ));
    assert_eq!(e.err, "no cookie");
    assert_eq!(e.hint, "look");
}
