//! The session switcher: the command that runs the user's command (or a login shell) as the
//! target user, through `sudo` or through `machinectl shell`.
//!
//! The result is the command that replaces the current process; the program executes it.
use vstd::prelude::*;
use crate::cli::Method;
use crate::context::EgoContext;
use crate::env::EnvValue;
use crate::errors::ErrorWithHint;
use crate::logging::{record_line, Level, SimpleLogger};
use crate::text::{
    before_equals, has_leading_dash, name_before_equals, signed_decimal, signed_decimal_string,
    starts_with_dash, texts,
};

verus! {

/// The command line that shell-words makes of these words: each quoted for a Unix shell,
/// separated by spaces.
pub uninterp spec fn shell_joined(words: Seq<Seq<char>>) -> Seq<char>;

/// Relies on `shell_words::join`: each word quoted for a Unix shell, separated by spaces.
/// How a word is quoted is the crate's choice and depends on the words alone; no words make
/// an empty line.
#[verifier::external_body]
fn shell_join(words: &Vec<String>) -> (r: String)
    ensures
        r@ == shell_joined(texts(words@)),
        words@.len() == 0 ==> r@.len() == 0,
{
    shell_words::join(words)
}

/// The hand-off: replace the current process with `program` run with `args`.
pub struct ExecCommand {
    pub program: String,
    pub args: Vec<String>,
}

/// Which method to use when none was asked for: `machinectl` on a system booted with systemd
/// that has it installed, `sudo` otherwise.
pub open spec fn detected_method(booted: bool, have_machinectl: bool) -> Method {
    if booted && have_machinectl {
        Method::Machinectl
    } else {
        Method::Sudo
    }
}

pub open spec fn missing_machinectl_lines() -> Seq<Seq<char>> {
    seq![
        record_line(
            Level::Warn,
            "ego"@,
            "ego"@,
            "machinectl (systemd-container) is not installed"@,
        ),
        record_line(
            Level::Warn,
            "ego"@,
            "ego"@,
            "Falling back to 'sudo', some desktop integration features may not work"@,
        ),
    ]
}

/// Chooses the method from whether the system was booted with systemd and whether
/// `machinectl` is installed. Falling back to `sudo` on a systemd system is warned about.
pub fn detect_method(log: &mut SimpleLogger, booted: bool, have_machinectl: bool) -> (r: Method)
    ensures
        r == detected_method(booted, have_machinectl),
        final(log).level == old(log).level,
        final(log).lines_view() == old(log).lines_view() + if booted && !have_machinectl
            && Level::Warn.rank() <= old(log).level.rank() {
            missing_machinectl_lines()
        } else {
            Seq::empty()
        },
{
    if !booted {
        assert(log.lines_view() =~= old(log).lines_view() + Seq::empty());
        return Method::Sudo;
    }
    if !have_machinectl {
        log.log(Level::Warn, "ego", "machinectl (systemd-container) is not installed");
        log.log(
            Level::Warn,
            "ego",
            "Falling back to 'sudo', some desktop integration features may not work",
        );
        assert(log.lines_view() =~= old(log).lines_view() + if Level::Warn.rank()
            <= old(log).level.rank() {
            missing_machinectl_lines()
        } else {
            Seq::empty()
        });
        return Method::Sudo;
    }
    assert(log.lines_view() =~= old(log).lines_view() + Seq::empty());
    Method::Machinectl
}

/// The method to use: the one asked for, else the detected one. Detection is what
/// `detect_method` does with `booted` and `have_machinectl`, warnings included.
pub fn choose_method(
    log: &mut SimpleLogger,
    asked: Option<Method>,
    booted: bool,
    have_machinectl: bool,
) -> (r: Method)
    ensures
        r == match asked {
            Some(m) => m,
            None => detected_method(booted, have_machinectl),
        },
        final(log).level == old(log).level,
        final(log).lines_view() == old(log).lines_view() + if asked is None && booted
            && !have_machinectl && Level::Warn.rank() <= old(log).level.rank() {
            missing_machinectl_lines()
        } else {
            Seq::empty()
        },
{
    match asked {
        Some(m) => {
            assert(log.lines_view() =~= old(log).lines_view() + Seq::empty());
            m
        },
        None => detect_method(log, booted, have_machinectl),
    }
}

/// The error for a command whose first word looks like an option.
pub open spec fn dash_command_message(first: Seq<char>) -> Seq<char> {
    "Command may not start with '-' (command is: '"@ + first + "')"@
}

/// The `sudo` arguments: an interactive login shell as the target user, `-A` when an askpass
/// helper is set, the bindings, then the command.
pub open spec fn sudo_args(
    user: Seq<char>,
    askpass: bool,
    envvars: Seq<Seq<char>>,
    command: Seq<Seq<char>>,
) -> Seq<Seq<char>> {
    seq!["-Hiu"@, user] + (if askpass {
        seq!["-A"@]
    } else {
        Seq::empty()
    }) + envvars + command
}

/// Builds the `sudo` hand-off. A command whose first word starts with `-` is refused, as
/// `sudo` would take it for one of its options. `sudo_askpass` is what the environment holds
/// under `SUDO_ASKPASS`; only whether it is set matters.
pub fn run_sudo_command(
    ctx: &EgoContext,
    envvars: Vec<String>,
    remote_cmd: Vec<String>,
    sudo_askpass: EnvValue,
) -> (r: Result<ExecCommand, ErrorWithHint>)
    ensures
        remote_cmd@.len() > 0 && starts_with_dash(remote_cmd@[0]@) ==> (r matches Err(e)
            && e.err@ == dash_command_message(remote_cmd@[0]@) && e.hint@.len() == 0),
        !(remote_cmd@.len() > 0 && starts_with_dash(remote_cmd@[0]@)) ==> (r matches Ok(c)
            && c.program@ == "sudo"@ && texts(c.args@) == sudo_args(
            ctx.target_user@,
            !(sudo_askpass is Unset),
            texts(envvars@),
            texts(remote_cmd@),
        )),
{
    if remote_cmd.len() > 0 && has_leading_dash(remote_cmd[0].as_str()) {
        let mut err = String::from_str("Command may not start with '-' (command is: '");
        err.append(remote_cmd[0].as_str());
        err.append("')");
        return Err(ErrorWithHint::plain(err));
    }
    let ghost env_view = texts(envvars@);
    let ghost cmd_view = texts(remote_cmd@);
    let mut args = Vec::new();
    args.push(String::from_str("-Hiu"));
    args.push(ctx.target_user.clone());
    let askpass = match sudo_askpass {
        EnvValue::Unset => false,
        _ => true,
    };
    if askpass {
        args.push(String::from_str("-A"));
    }
    let mut envvars = envvars;
    let mut remote_cmd = remote_cmd;
    args.append(&mut envvars);
    args.append(&mut remote_cmd);
    assert(texts(args@) =~= sudo_args(ctx.target_user@, askpass, env_view, cmd_view));
    Ok(ExecCommand { program: String::from_str("sudo"), args })
}

/// The names of the bindings, each the part before its first `=`.
pub open spec fn binding_names(envvars: Seq<Seq<char>>) -> Seq<Seq<char>> {
    envvars.map_values(|v: Seq<char>| before_equals(v))
}

/// The script that `machinectl` runs in the target user's shell: unless `bare`, it first
/// passes the binding names (`names_line`) to the user's service manager and starts the
/// desktop portal; then it replaces itself with the command (`command_line`).
pub open spec fn remote_script(names_line: Seq<char>, command_line: Seq<char>, bare: bool) -> Seq<
    char,
> {
    (if bare {
        Seq::empty()
    } else {
        "dbus-update-activation-environment --systemd "@ + names_line
            + "; systemctl --user start xdg-desktop-portal-gtk; "@
    }) + "exec "@ + command_line
}

/// Writes the script of `remote_script` from the quoted names and command lines.
pub fn compose_remote_script(names_line: &str, command_line: &str, bare: bool) -> (r: String)
    ensures
        r@ == remote_script(names_line@, command_line@, bare),
{
    let mut r = String::new();
    if !bare {
        r.append("dbus-update-activation-environment --systemd ");
        r.append(names_line);
        r.append("; systemctl --user start xdg-desktop-portal-gtk; ");
    }
    r.append("exec ");
    r.append(command_line);
    r
}

/// The script for `machinectl`, with every word quoted for the shell.
pub fn machinectl_remote_command(remote_cmd: Vec<String>, envvars: &Vec<String>, bare: bool) -> (r:
    String)
    ensures
        r@ == remote_script(
            shell_joined(binding_names(texts(envvars@))),
            shell_joined(texts(remote_cmd@)),
            bare,
        ),
{
    let mut names: Vec<String> = Vec::new();
    let mut i: usize = 0;
    while i < envvars.len()
        invariant
            i <= envvars@.len(),
            texts(names@) =~= binding_names(texts(envvars@)).subrange(0, i as int),
        decreases envvars@.len() - i,
    {
        let ghost prev = texts(names@);
        let name = name_before_equals(envvars[i].as_str());
        names.push(name);
        assert(texts(names@) =~= prev.push(before_equals(envvars@[i as int]@)));
        i = i + 1;
    }
    assert(texts(names@) =~= binding_names(texts(envvars@)));
    let names_line = shell_join(&names);
    let command_line = shell_join(&remote_cmd);
    compose_remote_script(names_line.as_str(), command_line.as_str(), bare)
}

/// The message for a target user whose login shell is not valid Unicode.
pub open spec fn bad_shell_message(user: Seq<char>) -> Seq<char> {
    "User '"@ + user + "' shell has unexpected characters"@
}

/// The `machinectl` arguments: a shell as the target user, with the bindings, on the host,
/// running the script through `/bin/sh -c`.
pub open spec fn machinectl_args(user: Seq<char>, envvars: Seq<Seq<char>>, script: Seq<char>) -> Seq<
    Seq<char>,
> {
    seq!["shell"@, "--uid="@ + user] + envvars.map_values(|v: Seq<char>| "-E"@ + v) + seq![
        "--"@,
        ".host"@,
        "/bin/sh"@,
        "-c"@,
        script,
    ]
}

/// Builds the `machinectl` hand-off. Without a command the target user's login shell runs;
/// that shell must then be valid Unicode.
pub fn run_machinectl_command(
    ctx: &EgoContext,
    envvars: &Vec<String>,
    remote_cmd: Vec<String>,
    bare: bool,
) -> (r: Result<ExecCommand, ErrorWithHint>)
    ensures
        remote_cmd@.len() == 0 && ctx.target_user_shell is None ==> (r matches Err(e) && e.err@
            == bad_shell_message(ctx.target_user@) && e.hint@.len() == 0),
        remote_cmd@.len() > 0 ==> (r matches Ok(c) && c.program@ == "machinectl"@ && texts(
            c.args@,
        ) == machinectl_args(
            ctx.target_user@,
            texts(envvars@),
            remote_script(
                shell_joined(binding_names(texts(envvars@))),
                shell_joined(texts(remote_cmd@)),
                bare,
            ),
        )),
        remote_cmd@.len() == 0 && ctx.target_user_shell is Some ==> (r matches Ok(c)
            && c.program@ == "machinectl"@ && texts(c.args@) == machinectl_args(
            ctx.target_user@,
            texts(envvars@),
            remote_script(
                shell_joined(binding_names(texts(envvars@))),
                shell_joined(seq![ctx.target_user_shell->Some_0@]),
                bare,
            ),
        )),
{
    let command = if remote_cmd.len() == 0 {
        match &ctx.target_user_shell {
            None => {
                let mut err = String::from_str("User '");
                err.append(ctx.target_user.as_str());
                err.append("' shell has unexpected characters");
                return Err(ErrorWithHint::plain(err));
            },
            Some(shell) => {
                let mut v = Vec::new();
                v.push(shell.clone());
                assert(texts(v@) =~= seq![shell@]);
                v
            },
        }
    } else {
        remote_cmd
    };
    let mut args = Vec::new();
    args.push(String::from_str("shell"));
    let mut uid_arg = String::from_str("--uid=");
    uid_arg.append(ctx.target_user.as_str());
    args.push(uid_arg);
    let mut i: usize = 0;
    while i < envvars.len()
        invariant
            i <= envvars@.len(),
            texts(args@) =~= seq!["shell"@, "--uid="@ + ctx.target_user@] + texts(envvars@).subrange(
                0,
                i as int,
            ).map_values(|v: Seq<char>| "-E"@ + v),
        decreases envvars@.len() - i,
    {
        let ghost prev = texts(args@);
        let mut e = String::from_str("-E");
        e.append(envvars[i].as_str());
        args.push(e);
        assert(texts(args@) =~= prev.push("-E"@ + envvars@[i as int]@));
        i = i + 1;
    }
    args.push(String::from_str("--"));
    args.push(String::from_str(".host"));
    args.push(String::from_str("/bin/sh"));
    args.push(String::from_str("-c"));
    let ghost command_view = texts(command@);
    let script = machinectl_remote_command(command, envvars, bare);
    args.push(script);
    assert(texts(envvars@).subrange(0, envvars@.len() as int) =~= texts(envvars@));
    assert(texts(args@) =~= machinectl_args(
        ctx.target_user@,
        texts(envvars@),
        remote_script(shell_joined(binding_names(texts(envvars@))), shell_joined(command_view), bare),
    ));
    Ok(ExecCommand { program: String::from_str("machinectl"), args })
}

/// Builds the hand-off for `method`.
pub fn session_command(
    ctx: &EgoContext,
    method: Method,
    envvars: Vec<String>,
    remote_cmd: Vec<String>,
    sudo_askpass: EnvValue,
) -> (r: Result<ExecCommand, ErrorWithHint>)
    ensures
        method == Method::Sudo && remote_cmd@.len() > 0 && starts_with_dash(remote_cmd@[0]@)
            ==> (r matches Err(e) && e.err@ == dash_command_message(remote_cmd@[0]@)
            && e.hint@.len() == 0),
        method == Method::Sudo && !(remote_cmd@.len() > 0 && starts_with_dash(remote_cmd@[0]@))
            ==> (r matches Ok(c) && c.program@ == "sudo"@ && texts(c.args@) == sudo_args(
            ctx.target_user@,
            !(sudo_askpass is Unset),
            texts(envvars@),
            texts(remote_cmd@),
        )),
        method != Method::Sudo && remote_cmd@.len() > 0 ==> (r matches Ok(c) && c.program@
            == "machinectl"@ && texts(c.args@) == machinectl_args(
            ctx.target_user@,
            texts(envvars@),
            remote_script(
                shell_joined(binding_names(texts(envvars@))),
                shell_joined(texts(remote_cmd@)),
                method == Method::MachinectlBare,
            ),
        )),
        method != Method::Sudo && remote_cmd@.len() == 0 && ctx.target_user_shell is None ==> (r
            matches Err(e) && e.err@ == bad_shell_message(ctx.target_user@) && e.hint@.len() == 0),
        method != Method::Sudo && remote_cmd@.len() == 0 && ctx.target_user_shell is Some ==> (r
            matches Ok(c) && c.program@ == "machinectl"@ && texts(c.args@) == machinectl_args(
            ctx.target_user@,
            texts(envvars@),
            remote_script(
                shell_joined(binding_names(texts(envvars@))),
                shell_joined(seq![ctx.target_user_shell->Some_0@]),
                method == Method::MachinectlBare,
            ),
        )),
{
    match method {
        Method::Sudo => run_sudo_command(ctx, envvars, remote_cmd, sudo_askpass),
        Method::Machinectl => run_machinectl_command(ctx, &envvars, remote_cmd, false),
        Method::MachinectlBare => run_machinectl_command(ctx, &envvars, remote_cmd, true),
    }
}

/// The line that shows a command: the program, a space, then the quoted arguments.
pub open spec fn command_line(program: Seq<char>, args: Seq<Seq<char>>) -> Seq<char> {
    program + " "@ + shell_joined(args)
}

/// How a command that could not be started is reported: the system's reason, and a hint to
/// install the program when it was not found, or else the complete command line.
pub open spec fn launch_error(
    detail: Seq<char>,
    not_found: bool,
    program: Seq<char>,
    args: Seq<Seq<char>>,
) -> (Seq<char>, Seq<char>) {
    (
        "Failed to run "@ + program + ": "@ + detail,
        if not_found {
            "Try installing package that contains command '"@ + program + "'"@
        } else {
            "Complete command: "@ + command_line(program, args)
        },
    )
}

fn complete_command(program: &str, args: &Vec<String>) -> (r: String)
    ensures
        r@ == "Complete command: "@ + command_line(program@, texts(args@)),
{
    let mut hint = String::from_str("Complete command: ");
    hint.append(program);
    hint.append(" ");
    let line = shell_join(args);
    hint.append(line.as_str());
    hint
}

/// The error for a command that could not be started. `detail` is the system's reason;
/// `not_found` tells that the program does not exist.
pub fn report_command_error(
    detail: &str,
    not_found: bool,
    program: &str,
    args: &Vec<String>,
) -> (r: ErrorWithHint)
    ensures
        (r.err@, r.hint@) == launch_error(detail@, not_found, program@, texts(args@)),
{
    let mut err = String::from_str("Failed to run ");
    err.append(program);
    err.append(": ");
    err.append(detail);
    let hint = if not_found {
        let mut h = String::from_str("Try installing package that contains command '");
        h.append(program);
        h.append("'");
        h
    } else {
        complete_command(program, args)
    };
    ErrorWithHint::new(err, hint)
}

/// The message for a command that ran and failed: its exit code (999 when it has none, as
/// when a signal ended it) and what it wrote to standard error.
pub open spec fn exit_error_message(program: Seq<char>, code: Option<i32>, stderr: Seq<char>) -> Seq<
    char,
> {
    program + " returned "@ + signed_decimal(
        match code {
            Some(c) => c as int,
            None => 999,
        },
    ) + ":\n"@ + stderr
}

/// The error for a command that exited unsuccessfully; the hint shows the complete command.
pub fn command_failed_error(
    program: &str,
    args: &Vec<String>,
    code: Option<i32>,
    stderr: &str,
) -> (r: ErrorWithHint)
    ensures
        r.err@ == exit_error_message(program@, code, stderr@),
        r.hint@ == "Complete command: "@ + command_line(program@, texts(args@)),
{
    let mut err = String::from_str(program);
    err.append(" returned ");
    let shown: i32 = match code {
        Some(c) => c,
        None => 999,
    };
    let digits = signed_decimal_string(shown);
    err.append(digits.as_str());
    err.append(":\n");
    err.append(stderr);
    ErrorWithHint::new(err, complete_command(program, args))
}

} // verus!
