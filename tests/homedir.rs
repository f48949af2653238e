use ego::{check_user_homedir, choose_method, init_with_level, EgoContext, HomeStatus, Level, Method};

fn root_context() -> EgoContext {
    EgoContext {
        runtime_dir: String::new(),
        target_user: "root".to_string(),
        target_uid: 0,
        target_user_shell: None,
        target_user_homedir: Some("/root".into()),
    }
}

#[test]
fn test_check_user_homedir() {
    let ctx = root_context();
    let mut log = init_with_level(Level::Trace);
    log.lines.clear();

    // Success (no output)
    check_user_homedir(&mut log, &ctx, Some(HomeStatus::OwnedBy(0)));
    assert!(log.lines.is_empty());

    // Home does not exist
    let missing = EgoContext {
        target_user: "nope".into(),
        target_user_homedir: Some("/tmp/path-does-not-exist.example".into()),
        ..root_context()
    };
    check_user_homedir(
        &mut log,
        &missing,
        Some(HomeStatus::Inaccessible("No such file or directory (os error 2)".into())),
    );
    assert_eq!(
        log.lines[0],
        "\x1b[33mwarning\x1b[0m: User nope home directory /tmp/path-does-not-exist.example is not accessible: No such file or directory (os error 2)"
    );

    // Permission denied
    let denied = EgoContext {
        target_user_homedir: Some("/root/path-is-not-accessible.example".into()),
        ..root_context()
    };
    check_user_homedir(
        &mut log,
        &denied,
        Some(HomeStatus::PermissionDenied("Permission denied (os error 13)".into())),
    );
    assert_eq!(
        log.lines[1],
        "User root home directory /root/path-is-not-accessible.example is not accessible: Permission denied (os error 13)"
    );

    // Wrong owner
    let wrong = EgoContext { target_uid: 1234, ..root_context() };
    check_user_homedir(&mut log, &wrong, Some(HomeStatus::OwnedBy(0)));
    assert_eq!(
        log.lines[2],
        "\x1b[33mwarning\x1b[0m: User root home directory /root has incorrect ownership (expected UID 1234, found 0)"
    );
    assert_eq!(log.lines.len(), 3);
}

#[test]
fn denied_home_is_quiet_at_warn_level() {
    let mut log = init_with_level(Level::Warn);
    check_user_homedir(
        &mut log,
        &root_context(),
        Some(HomeStatus::PermissionDenied("denied".into())),
    );
    assert!(log.lines.is_empty());
    check_user_homedir(&mut log, &root_context(), None);
    assert!(log.lines.is_empty());
}

#[test]
fn home_that_is_not_unicode_is_reported() {
    let mut log = init_with_level(Level::Warn);
    let unchecked = EgoContext { target_user_homedir: None, ..root_context() };
    check_user_homedir(&mut log, &unchecked, None);
    assert_eq!(
        log.lines,
        vec!["\x1b[33mwarning\x1b[0m: User root home directory is not valid Unicode and was not checked".to_string()]
    );
}

#[test]
fn asked_method_wins() {
    let mut log = init_with_level(Level::Warn);
    assert_eq!(choose_method(&mut log, Some(Method::Sudo), true, true), Method::Sudo);
    assert_eq!(choose_method(&mut log, Some(Method::MachinectlBare), false, false), Method::MachinectlBare);
    assert!(log.lines.is_empty());
    assert_eq!(choose_method(&mut log, None, true, true), Method::Machinectl);
    assert_eq!(choose_method(&mut log, None, true, false), Method::Sudo);
    assert_eq!(log.lines.len(), 2);
}
