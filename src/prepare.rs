//! The resource preparation pipeline. For the runtime directory, Wayland, X11 and
//! PulseAudio it decides, from what the program found on the system, which grants to make
//! and which environment bindings to hand to the target user's session.
//!
//! Every decision of a run is taken before any grant is made: a run that fails on a later
//! subsystem's configuration changes nothing. A grant that fails while the steps are carried
//! out stops the run; the grants made before it stay (nothing is rolled back).
use vstd::prelude::*;
use crate::acl::{ACL_EXECUTE, ACL_READ, ACL_RWX};
use crate::context::EgoContext;
use crate::env::{getenv_optional, getenv_path, optional_var, required_var, text_result, EnvValue};
use crate::errors::ErrorWithHint;
use crate::paths::{joined, path_join};
use crate::text::{octal, octal_string, texts};

verus! {

/// One action that the preparation asks the program to carry out, in order.
pub enum Step {
    /// Grant `perms` to the user `uid` in the access ACL of `path`.
    GrantAcl { path: String, uid: u32, perms: u32 },
    /// Add the server-interpreted entry `type_tag`/`value` to the X server's access list.
    X11Grant { type_tag: String, value: String },
    /// Run `program` with `args` and wait for it to succeed.
    RunCommand { program: String, args: Vec<String> },
    /// Create the directory `path`, accessible to its owner alone (mode 0700).
    CreatePrivateDir { path: String },
    /// Copy the file `from` to `to`.
    CopyFile { from: String, to: String },
}

/// A step as text.
pub enum StepView {
    GrantAcl(Seq<char>, u32, u32),
    X11Grant(Seq<char>, Seq<char>),
    RunCommand(Seq<char>, Seq<Seq<char>>),
    CreatePrivateDir(Seq<char>),
    CopyFile(Seq<char>, Seq<char>),
}

impl View for Step {
    type V = StepView;

    open spec fn view(&self) -> StepView {
        match self {
            Step::GrantAcl { path, uid, perms } => StepView::GrantAcl(path@, *uid, *perms),
            Step::X11Grant { type_tag, value } => StepView::X11Grant(type_tag@, value@),
            Step::RunCommand { program, args } => StepView::RunCommand(program@, texts(args@)),
            Step::CreatePrivateDir { path } => StepView::CreatePrivateDir(path@),
            Step::CopyFile { from, to } => StepView::CopyFile(from@, to@),
        }
    }
}

/// What a subsystem's preparation yields: the steps to carry out and the `NAME=VALUE`
/// bindings for the target session.
pub struct Preparation {
    pub steps: Vec<Step>,
    pub vars: Vec<String>,
}

/// A preparation as text.
pub struct Plan {
    pub steps: Seq<StepView>,
    pub vars: Seq<Seq<char>>,
}

impl View for Preparation {
    type V = Plan;

    open spec fn view(&self) -> Plan {
        Plan { steps: self.steps@.map_values(|s: Step| s@), vars: texts(self.vars@) }
    }
}

/// The plan with nothing to do.
pub open spec fn empty_plan() -> Plan {
    Plan { steps: Seq::empty(), vars: Seq::empty() }
}

/// One plan after the other.
pub open spec fn then(a: Plan, b: Plan) -> Plan {
    Plan { steps: a.steps + b.steps, vars: a.vars + b.vars }
}

/// The outcome of a preparation as text: the plan, or the error message.
pub open spec fn outcome(r: Result<Preparation, ErrorWithHint>) -> Result<Plan, Seq<char>> {
    match r {
        Ok(p) => Ok(p@),
        Err(e) => Err(e.err@),
    }
}

fn empty_preparation() -> (r: Preparation)
    ensures
        r@ == empty_plan(),
{
    let r = Preparation { steps: Vec::new(), vars: Vec::new() };
    assert(r@.steps =~= Seq::<StepView>::empty());
    assert(r@.vars =~= Seq::<Seq<char>>::empty());
    r
}

fn grant(path: &str, uid: u32, perms: u32) -> (r: Step)
    ensures
        r@ == StepView::GrantAcl(path@, uid, perms),
{
    Step::GrantAcl { path: String::from_str(path), uid, perms }
}

fn binding(name_eq: &str, value: &str) -> (r: String)
    ensures
        r@ == name_eq@ + value@,
{
    let mut r = String::from_str(name_eq);
    r.append(value);
    r
}

fn single(step: Step, var: Option<String>) -> (r: Preparation)
    ensures
        r@.steps == seq![step@],
        r@.vars == match var {
            Some(v) => seq![v@],
            None => Seq::<Seq<char>>::empty(),
        },
{
    let mut steps = Vec::new();
    steps.push(step);
    let mut vars = Vec::new();
    match var {
        Some(v) => vars.push(v),
        None => {},
    }
    let r = Preparation { steps, vars };
    assert(r@.steps =~= seq![step@]);
    assert(r@.vars =~= match var {
        Some(v) => seq![v@],
        None => Seq::<Seq<char>>::empty(),
    });
    r
}

/// Appends `b` to `a`.
fn extend(a: &mut Preparation, b: Preparation)
    ensures
        final(a)@ == then(old(a)@, b@),
{
    let mut steps = b.steps;
    let mut vars = b.vars;
    a.steps.append(&mut steps);
    a.vars.append(&mut vars);
    assert(a@.steps =~= then(old(a)@, b@).steps);
    assert(a@.vars =~= then(old(a)@, b@).vars);
}

// ----- runtime directory -----

/// The runtime directory must be a directory; the target user gets to traverse it.
pub open spec fn runtime_dir_plan(dir: Seq<char>, uid: u32, is_dir: bool) -> Result<
    Plan,
    Seq<char>,
> {
    if !is_dir {
        Err("'"@ + dir + "' is not a directory"@)
    } else {
        Ok(Plan { steps: seq![StepView::GrantAcl(dir, uid, ACL_EXECUTE)], vars: Seq::empty() })
    }
}

/// Prepares the runtime directory (e.g. `/run/user/1000`). `is_dir` tells whether it is a
/// directory.
pub fn prepare_runtime_dir(ctx: &EgoContext, is_dir: bool) -> (r: Result<
    Preparation,
    ErrorWithHint,
>)
    ensures
        r is Err ==> r->Err_0.hint@.len() == 0,
        outcome(r) == runtime_dir_plan(ctx.runtime_dir@, ctx.target_uid, is_dir),
{
    if !is_dir {
        let mut err = String::from_str("'");
        err.append(ctx.runtime_dir.as_str());
        err.append("' is not a directory");
        return Err(ErrorWithHint::plain(err));
    }
    let r = single(grant(ctx.runtime_dir.as_str(), ctx.target_uid, ACL_EXECUTE), None);
    assert(r@ == runtime_dir_plan(ctx.runtime_dir@, ctx.target_uid, is_dir)->Ok_0);
    Ok(r)
}

// ----- Wayland -----

/// Where the Wayland socket is: nowhere when `WAYLAND_DISPLAY` is unset; else its value,
/// resolved against the runtime directory when relative.
pub open spec fn wayland_socket(runtime_dir: Seq<char>, wayland_display: EnvValue) -> Result<
    Option<Seq<char>>,
    Seq<char>,
> {
    match optional_var("WAYLAND_DISPLAY"@, wayland_display) {
        Ok(Some(d)) => Ok(Some(joined(runtime_dir, d))),
        Ok(None) => Ok(None),
        Err(e) => Err(e),
    }
}

/// Locates the Wayland socket from the value of `WAYLAND_DISPLAY`.
pub fn get_wayland_socket(ctx: &EgoContext, wayland_display: EnvValue) -> (r: Result<
    Option<String>,
    ErrorWithHint,
>)
    ensures
        r is Err ==> r->Err_0.hint@.len() == 0,
        crate::env::optional_text(r) == wayland_socket(ctx.runtime_dir@, wayland_display),
{
    match getenv_optional("WAYLAND_DISPLAY", wayland_display) {
        Ok(Some(display)) => Ok(Some(path_join(ctx.runtime_dir.as_str(), display.as_str()))),
        Ok(None) => Ok(None),
        Err(e) => Err(e),
    }
}

/// An absolute `WAYLAND_DISPLAY` is the socket's path as it stands.
pub proof fn lemma_absolute_wayland_display(runtime_dir: Seq<char>, p: String)
    requires
        p@.len() > 0 && p@[0] == '/',
    ensures
        wayland_socket(runtime_dir, EnvValue::Value(p)) == Ok::<Option<Seq<char>>, Seq<char>>(
            Some(p@),
        ),
{
}

/// A relative `WAYLAND_DISPLAY` names a socket inside the runtime directory.
pub proof fn lemma_relative_wayland_display(runtime_dir: Seq<char>, r: String)
    requires
        !(r@.len() > 0 && r@[0] == '/'),
        runtime_dir.len() > 0,
        runtime_dir.last() != '/',
    ensures
        wayland_socket(runtime_dir, EnvValue::Value(r)) == Ok::<Option<Seq<char>>, Seq<char>>(
            Some(runtime_dir + seq!['/'] + r@),
        ),
{
}

/// Without `WAYLAND_DISPLAY` there is no socket, and that is no error.
pub proof fn lemma_unset_wayland_display(runtime_dir: Seq<char>)
    ensures
        wayland_socket(runtime_dir, EnvValue::Unset) == Ok::<Option<Seq<char>>, Seq<char>>(None),
{
}

/// Wayland: the target user gets read, write and execute on the socket, and the session gets
/// the socket's full path in `WAYLAND_DISPLAY`.
pub open spec fn wayland_plan(runtime_dir: Seq<char>, uid: u32, wayland_display: EnvValue) -> Result<
    Plan,
    Seq<char>,
> {
    match wayland_socket(runtime_dir, wayland_display) {
        Ok(Some(path)) => Ok(
            Plan {
                steps: seq![StepView::GrantAcl(path, uid, ACL_RWX)],
                vars: seq!["WAYLAND_DISPLAY="@ + path],
            },
        ),
        Ok(None) => Ok(empty_plan()),
        Err(e) => Err(e),
    }
}

/// Prepares Wayland from the value of `WAYLAND_DISPLAY`; unset means no Wayland.
pub fn prepare_wayland(ctx: &EgoContext, wayland_display: EnvValue) -> (r: Result<
    Preparation,
    ErrorWithHint,
>)
    ensures
        r is Err ==> r->Err_0.hint@.len() == 0,
        outcome(r) == wayland_plan(ctx.runtime_dir@, ctx.target_uid, wayland_display),
{
    match get_wayland_socket(ctx, wayland_display) {
        Err(e) => Err(e),
        Ok(None) => Ok(empty_preparation()),
        Ok(Some(path)) => {
            let var = binding("WAYLAND_DISPLAY=", path.as_str());
            let r = single(grant(path.as_str(), ctx.target_uid, ACL_RWX), Some(var));
            Ok(r)
        },
    }
}

// ----- X11 -----

/// The argument that makes `xhost` admit a server-interpreted entry.
pub open spec fn xhost_argument(type_tag: Seq<char>, value: Seq<char>) -> Seq<char> {
    "+si:"@ + type_tag + ":"@ + value
}

/// X11: the target user is admitted by its local-user entry, through the protocol or, when
/// asked, through `xhost`; `DISPLAY` is passed on unchanged.
pub open spec fn x11_plan(user: Seq<char>, display: EnvValue, old_xhost: bool) -> Result<
    Plan,
    Seq<char>,
> {
    match optional_var("DISPLAY"@, display) {
        Ok(Some(d)) => Ok(
            Plan {
                steps: seq![
                    if old_xhost {
                        StepView::RunCommand("xhost"@, seq![xhost_argument("localuser"@, user)])
                    } else {
                        StepView::X11Grant("localuser"@, user)
                    },
                ],
                vars: seq!["DISPLAY="@ + d],
            },
        ),
        Ok(None) => Ok(empty_plan()),
        Err(e) => Err(e),
    }
}

fn xhost_step(type_tag: &str, value: &str) -> (r: Step)
    ensures
        r@ == StepView::RunCommand("xhost"@, seq![xhost_argument(type_tag@, value@)]),
{
    let mut arg = String::from_str("+si:");
    arg.append(type_tag);
    arg.append(":");
    arg.append(value);
    let mut args = Vec::new();
    args.push(arg);
    let r = Step::RunCommand { program: String::from_str("xhost"), args };
    assert(texts(args@) =~= seq![xhost_argument(type_tag@, value@)]);
    r
}

impl Step {
    /// What to do instead when this step fails: an X11 grant through the protocol falls back
    /// to the `xhost` command. Other steps have no fallback.
    pub fn fallback(&self) -> (r: Option<Step>)
        ensures
            match self@ {
                StepView::X11Grant(tag, value) => r matches Some(s) && s@ == StepView::RunCommand(
                    "xhost"@,
                    seq![xhost_argument(tag, value)],
                ),
                _ => r is None,
            },
    {
        match self {
            Step::X11Grant { type_tag, value } => Some(xhost_step(type_tag.as_str(), value.as_str())),
            _ => None,
        }
    }
}

/// Prepares X11 from the value of `DISPLAY`; unset means no X11. `old_xhost` asks for the
/// `xhost` command instead of the protocol request.
pub fn prepare_x11(ctx: &EgoContext, display: EnvValue, old_xhost: bool) -> (r: Result<
    Preparation,
    ErrorWithHint,
>)
    ensures
        r is Err ==> r->Err_0.hint@.len() == 0,
        outcome(r) == x11_plan(ctx.target_user@, display, old_xhost),
{
    match getenv_optional("DISPLAY", display) {
        Err(e) => Err(e),
        Ok(None) => Ok(empty_preparation()),
        Ok(Some(d)) => {
            let step = if old_xhost {
                xhost_step("localuser", ctx.target_user.as_str())
            } else {
                Step::X11Grant {
                    type_tag: String::from_str("localuser"),
                    value: ctx.target_user.clone(),
                }
            };
            let var = binding("DISPLAY=", d.as_str());
            Ok(single(step, Some(var)))
        },
    }
}

// ----- PulseAudio -----

/// What the program found for PulseAudio.
pub struct PulseFacts {
    /// Whether `<runtime dir>/pulse` is a directory.
    pub dir_is_dir: bool,
    /// The mode bits of `<runtime dir>/pulse/native`, or why they could not be read.
    pub native_mode: Result<u32, String>,
    /// The value of `PULSE_COOKIE`.
    pub pulse_cookie: EnvValue,
    /// The value of `HOME`.
    pub home: EnvValue,
    /// Whether `<home>/.config/pulse/cookie` is a file.
    pub config_cookie_is_file: bool,
    /// Whether `<home>/.pulse-cookie` is a file.
    pub legacy_cookie_is_file: bool,
    /// Whether `<runtime dir>/ego` is a directory.
    pub ego_dir_is_dir: bool,
}

pub open spec fn pulse_dir(runtime_dir: Seq<char>) -> Seq<char> {
    joined(runtime_dir, "pulse"@)
}

pub open spec fn pulse_socket(dir: Seq<char>) -> Seq<char> {
    joined(dir, "native"@)
}

pub open spec fn ego_dir(runtime_dir: Seq<char>) -> Seq<char> {
    joined(runtime_dir, "ego"@)
}

pub open spec fn cookie_copy(runtime_dir: Seq<char>) -> Seq<char> {
    joined(ego_dir(runtime_dir), "pulse-cookie"@)
}

/// The PulseAudio directory, `<runtime dir>/pulse`.
pub fn pulseaudio_dir(ctx: &EgoContext) -> (r: String)
    ensures
        r@ == pulse_dir(ctx.runtime_dir@),
{
    path_join(ctx.runtime_dir.as_str(), "pulse")
}

/// The tool's own directory, `<runtime dir>/ego`.
pub fn ego_rundir(ctx: &EgoContext) -> (r: String)
    ensures
        r@ == ego_dir(ctx.runtime_dir@),
{
    path_join(ctx.runtime_dir.as_str(), "ego")
}

/// The PulseAudio socket inside `dir`.
pub fn pulseaudio_socket(dir: &str) -> (r: String)
    ensures
        r@ == pulse_socket(dir@),
{
    path_join(dir, "native")
}

/// The two places where a cookie may lie under `home`: the current one, then the legacy one.
pub fn pulseaudio_cookie_candidates(home: &str) -> (r: (String, String))
    ensures
        r.0@ == joined(home@, ".config/pulse/cookie"@),
        r.1@ == joined(home@, ".pulse-cookie"@),
{
    (path_join(home, ".config/pulse/cookie"), path_join(home, ".pulse-cookie"))
}

/// The vars of an outcome as text.
pub open spec fn vars_outcome(r: Result<Vec<String>, ErrorWithHint>) -> Result<
    Seq<Seq<char>>,
    Seq<char>,
> {
    match r {
        Ok(v) => Ok(texts(v@)),
        Err(e) => Err(e.err@),
    }
}

/// Whether the mode lacks read or write permission for others.
pub open spec fn lacks_world_rw(mode: u32) -> bool {
    mode & 6u32 != 6u32
}

/// The socket must already be readable and writable by everybody; then the session gets its
/// address in `PULSE_SERVER`.
pub open spec fn pulse_socket_vars(dir: Seq<char>, native_mode: Result<u32, String>) -> Result<
    Seq<Seq<char>>,
    Seq<char>,
> {
    let path = pulse_socket(dir);
    match native_mode {
        Err(msg) => Err("'"@ + path + "': "@ + msg@),
        Ok(mode) => if lacks_world_rw(mode) {
            Err("Unexpected permissions on '"@ + path + "': "@ + octal((mode & 0o777u32) as nat))
        } else {
            Ok(seq!["PULSE_SERVER=unix:"@ + path])
        },
    }
}

/// Checks the PulseAudio socket in `dir` from its mode bits (or why they could not be read).
pub fn prepare_pulseaudio_socket(dir: &str, native_mode: Result<u32, String>) -> (r: Result<
    Vec<String>,
    ErrorWithHint,
>)
    ensures
        r is Err ==> r->Err_0.hint@.len() == 0,
        vars_outcome(r) == pulse_socket_vars(dir@, native_mode),
{
    let path = pulseaudio_socket(dir);
    match native_mode {
        Err(msg) => {
            let mut err = String::from_str("'");
            err.append(path.as_str());
            err.append("': ");
            err.append(msg.as_str());
            Err(ErrorWithHint::plain(err))
        },
        Ok(mode) => {
            if mode & 6u32 != 6u32 {
                let mut err = String::from_str("Unexpected permissions on '");
                err.append(path.as_str());
                err.append("': ");
                let digits = octal_string(mode & 0o777u32);
                err.append(digits.as_str());
                Err(ErrorWithHint::plain(err))
            } else {
                let mut vars = Vec::new();
                vars.push(binding("PULSE_SERVER=unix:", path.as_str()));
                assert(texts(vars@) =~= seq!["PULSE_SERVER=unix:"@ + path@]);
                Ok(vars)
            }
        },
    }
}

pub open spec fn cookie_not_found() -> Seq<char> {
    "Cannot locate PulseAudio cookie (tried $PULSE_COOKIE, ~/.config/pulse/cookie, ~/.pulse-cookie)"@
}

/// Where the invoking user's PulseAudio cookie is: `PULSE_COOKIE` when set, else the first
/// of `~/.config/pulse/cookie` and `~/.pulse-cookie` that is a file.
pub open spec fn cookie_location(
    pulse_cookie: EnvValue,
    home: EnvValue,
    config_cookie_is_file: bool,
    legacy_cookie_is_file: bool,
) -> Result<Seq<char>, Seq<char>> {
    match optional_var("PULSE_COOKIE"@, pulse_cookie) {
        Err(e) => Err(e),
        Ok(Some(p)) => Ok(p),
        Ok(None) => match required_var("HOME"@, home) {
            Err(e) => Err(e),
            Ok(h) => if config_cookie_is_file {
                Ok(joined(h, ".config/pulse/cookie"@))
            } else if legacy_cookie_is_file {
                Ok(joined(h, ".pulse-cookie"@))
            } else {
                Err(cookie_not_found())
            },
        },
    }
}

/// Finds the PulseAudio cookie. The two flags tell whether the candidates that
/// `pulseaudio_cookie_candidates` gives for `HOME` are files.
pub fn find_pulseaudio_cookie(
    pulse_cookie: EnvValue,
    home: EnvValue,
    config_cookie_is_file: bool,
    legacy_cookie_is_file: bool,
) -> (r: Result<String, ErrorWithHint>)
    ensures
        r is Err ==> r->Err_0.hint@.len() == 0,
        text_result(r) == cookie_location(
            pulse_cookie,
            home,
            config_cookie_is_file,
            legacy_cookie_is_file,
        ),
{
    match getenv_optional("PULSE_COOKIE", pulse_cookie) {
        Err(e) => return Err(e),
        Ok(Some(path)) => return Ok(path),
        Ok(None) => {},
    }
    let home = match getenv_path("HOME", home) {
        Err(e) => return Err(e),
        Ok(h) => h,
    };
    let (config_cookie, legacy_cookie) = pulseaudio_cookie_candidates(home.as_str());
    if config_cookie_is_file {
        Ok(config_cookie)
    } else if legacy_cookie_is_file {
        Ok(legacy_cookie)
    } else {
        Err(
            ErrorWithHint::plain(
                String::from_str(
                    "Cannot locate PulseAudio cookie (tried $PULSE_COOKIE, ~/.config/pulse/cookie, ~/.pulse-cookie)",
                ),
            ),
        )
    }
}

/// The cookie is looked for in a fixed order: `PULSE_COOKIE` first (whatever the files),
/// then `~/.config/pulse/cookie`, then `~/.pulse-cookie`; when none is there, the error
/// names all three places.
pub proof fn lemma_cookie_preference(pulse_cookie: String, home: String, a: bool, b: bool)
    ensures
        cookie_location(EnvValue::Value(pulse_cookie), EnvValue::Value(home), a, b) == Ok::<
            Seq<char>,
            Seq<char>,
        >(pulse_cookie@),
        cookie_location(EnvValue::Unset, EnvValue::Value(home), true, b) == Ok::<
            Seq<char>,
            Seq<char>,
        >(joined(home@, ".config/pulse/cookie"@)),
        cookie_location(EnvValue::Unset, EnvValue::Value(home), false, true) == Ok::<
            Seq<char>,
            Seq<char>,
        >(joined(home@, ".pulse-cookie"@)),
        cookie_location(EnvValue::Unset, EnvValue::Value(home), false, false) == Err::<
            Seq<char>,
            Seq<char>,
        >(cookie_not_found()),
{
}

/// The private directory of the tool inside the runtime directory: created (mode 0700) when
/// missing, and traversable by the target user either way.
pub open spec fn ego_dir_steps(runtime_dir: Seq<char>, uid: u32, exists: bool) -> Seq<StepView> {
    (if exists {
        Seq::empty()
    } else {
        seq![StepView::CreatePrivateDir(ego_dir(runtime_dir))]
    }) + seq![StepView::GrantAcl(ego_dir(runtime_dir), uid, ACL_EXECUTE)]
}

/// Prepares the tool's own directory in the runtime directory (e.g. `/run/user/1000/ego`),
/// which holds what is shared with the target user. Gives the steps and the directory.
pub fn ensure_ego_rundir(ctx: &EgoContext, exists: bool) -> (r: (Vec<Step>, String))
    ensures
        r.0@.map_values(|s: Step| s@) == ego_dir_steps(ctx.runtime_dir@, ctx.target_uid, exists),
        r.1@ == ego_dir(ctx.runtime_dir@),
{
    let path = ego_rundir(ctx);
    let mut steps = Vec::new();
    if !exists {
        steps.push(Step::CreatePrivateDir { path: path.clone() });
    }
    steps.push(grant(path.as_str(), ctx.target_uid, ACL_EXECUTE));
    assert(steps@.map_values(|s: Step| s@) =~= ego_dir_steps(
        ctx.runtime_dir@,
        ctx.target_uid,
        exists,
    ));
    (steps, path)
}

/// The cookie is copied into the tool's directory and the copy made readable by the target
/// user; the cookie itself keeps its permissions. The session gets the copy in
/// `PULSE_COOKIE`.
pub open spec fn cookie_plan(
    runtime_dir: Seq<char>,
    uid: u32,
    cookie: Result<Seq<char>, Seq<char>>,
    ego_dir_exists: bool,
) -> Result<Plan, Seq<char>> {
    match cookie {
        Err(e) => Err(e),
        Ok(c) => Ok(
            Plan {
                steps: ego_dir_steps(runtime_dir, uid, ego_dir_exists) + seq![
                    StepView::CopyFile(c, cookie_copy(runtime_dir)),
                    StepView::GrantAcl(cookie_copy(runtime_dir), uid, ACL_READ),
                ],
                vars: seq!["PULSE_COOKIE="@ + cookie_copy(runtime_dir)],
            },
        ),
    }
}

/// Publishes the invoking user's cookie, found as `cookie` says, for the target user.
pub fn prepare_pulseaudio_cookie(
    ctx: &EgoContext,
    cookie: Result<String, ErrorWithHint>,
    ego_dir_exists: bool,
) -> (r: Result<Preparation, ErrorWithHint>)
    ensures
        cookie is Err ==> (r is Err && r->Err_0 == cookie->Err_0),
        outcome(r) == cookie_plan(
            ctx.runtime_dir@,
            ctx.target_uid,
            text_result(cookie),
            ego_dir_exists,
        ),
{
    let cookie_path = match cookie {
        Err(e) => return Err(e),
        Ok(c) => c,
    };
    let (mut steps, dir) = ensure_ego_rundir(ctx, ego_dir_exists);
    let target = path_join(dir.as_str(), "pulse-cookie");
    let ghost cookie_view = cookie_path@;
    steps.push(Step::CopyFile { from: cookie_path, to: target.clone() });
    steps.push(grant(target.as_str(), ctx.target_uid, ACL_READ));
    let mut vars = Vec::new();
    vars.push(binding("PULSE_COOKIE=", target.as_str()));
    let r = Preparation { steps, vars };
    assert(r@.steps =~= cookie_plan(
        ctx.runtime_dir@,
        ctx.target_uid,
        Ok(cookie_view),
        ego_dir_exists,
    )->Ok_0.steps);
    assert(r@.vars =~= seq!["PULSE_COOKIE="@ + cookie_copy(ctx.runtime_dir@)]);
    Ok(r)
}

/// PulseAudio: absent when `<runtime dir>/pulse` is not a directory. Else the target user
/// may traverse that directory, the socket must be open to everybody, and the cookie is
/// published.
pub open spec fn pulse_plan(runtime_dir: Seq<char>, uid: u32, f: PulseFacts) -> Result<
    Plan,
    Seq<char>,
> {
    if !f.dir_is_dir {
        Ok(empty_plan())
    } else {
        match pulse_socket_vars(pulse_dir(runtime_dir), f.native_mode) {
            Err(e) => Err(e),
            Ok(socket_vars) => match cookie_plan(
                runtime_dir,
                uid,
                cookie_location(
                    f.pulse_cookie,
                    f.home,
                    f.config_cookie_is_file,
                    f.legacy_cookie_is_file,
                ),
                f.ego_dir_is_dir,
            ) {
                Err(e) => Err(e),
                Ok(c) => Ok(
                    Plan {
                        steps: seq![StepView::GrantAcl(pulse_dir(runtime_dir), uid, ACL_EXECUTE)]
                            + c.steps,
                        vars: socket_vars + c.vars,
                    },
                ),
            },
        }
    }
}

/// Prepares PulseAudio from what the program found.
pub fn prepare_pulseaudio(ctx: &EgoContext, facts: PulseFacts) -> (r: Result<
    Preparation,
    ErrorWithHint,
>)
    ensures
        r is Err ==> r->Err_0.hint@.len() == 0,
        outcome(r) == pulse_plan(ctx.runtime_dir@, ctx.target_uid, facts),
{
    let ghost f = facts;
    let PulseFacts {
        dir_is_dir,
        native_mode,
        pulse_cookie,
        home,
        config_cookie_is_file,
        legacy_cookie_is_file,
        ego_dir_is_dir,
    } = facts;
    if !dir_is_dir {
        return Ok(empty_preparation());
    }
    let dir = pulseaudio_dir(ctx);
    let socket_vars = match prepare_pulseaudio_socket(dir.as_str(), native_mode) {
        Err(e) => return Err(e),
        Ok(v) => v,
    };
    let cookie = find_pulseaudio_cookie(
        pulse_cookie,
        home,
        config_cookie_is_file,
        legacy_cookie_is_file,
    );
    let published = match prepare_pulseaudio_cookie(ctx, cookie, ego_dir_is_dir) {
        Err(e) => return Err(e),
        Ok(p) => p,
    };
    let mut r = single(grant(dir.as_str(), ctx.target_uid, ACL_EXECUTE), None);
    let socket = Preparation { steps: Vec::new(), vars: socket_vars };
    assert(socket@.steps =~= Seq::<StepView>::empty());
    extend(&mut r, socket);
    extend(&mut r, published);
    proof {
        let p = pulse_plan(ctx.runtime_dir@, ctx.target_uid, f)->Ok_0;
        assert(r@.steps =~= p.steps);
        assert(r@.vars =~= p.vars);
    }
    Ok(r)
}

// ----- the whole session -----

/// What the program found on the system for one run.
pub struct SessionFacts {
    /// Whether the runtime directory is a directory.
    pub runtime_dir_is_dir: bool,
    /// The value of `WAYLAND_DISPLAY`.
    pub wayland_display: EnvValue,
    /// The value of `DISPLAY`.
    pub display: EnvValue,
    pub pulse: PulseFacts,
}

/// The parts of the session, in the order in which they are prepared.
#[derive(Clone, Copy, Debug, PartialEq, Eq, Structural)]
pub enum Subsystem {
    RuntimeDir,
    Wayland,
    X11,
    PulseAudio,
}

impl Subsystem {
    pub open spec fn name(self) -> Seq<char> {
        match self {
            Subsystem::RuntimeDir => "runtime dir"@,
            Subsystem::Wayland => "Wayland"@,
            Subsystem::X11 => "X11"@,
            Subsystem::PulseAudio => "PulseAudio"@,
        }
    }

    /// The name used in error messages.
    pub fn as_str(&self) -> (r: &'static str)
        ensures
            r@ == self.name(),
    {
        match self {
            Subsystem::RuntimeDir => "runtime dir",
            Subsystem::Wayland => "Wayland",
            Subsystem::X11 => "X11",
            Subsystem::PulseAudio => "PulseAudio",
        }
    }
}

/// The error of a subsystem, with the subsystem named.
pub open spec fn failed_in(subsystem: Seq<char>, e: Seq<char>) -> Seq<char> {
    "Error preparing "@ + subsystem + ": "@ + e
}

/// Names the subsystem in an error that arose while preparing it, in its decisions or while
/// its steps were carried out. The hint is kept.
pub fn failed_in_subsystem(subsystem: Subsystem, e: ErrorWithHint) -> (r: ErrorWithHint)
    ensures
        r.err@ == failed_in(subsystem.name(), e.err@),
        r.hint@ == e.hint@,
{
    let mut prefix = String::from_str("Error preparing ");
    prefix.append(subsystem.as_str());
    prefix.append(": ");
    e.with_context(prefix.as_str())
}

/// The preparation of a whole session, subsystem by subsystem. The steps are carried out in
/// the order of `Subsystem`; the bindings are handed on in the same order.
pub struct SessionPreparation {
    pub runtime_dir: Preparation,
    pub wayland: Preparation,
    pub x11: Preparation,
    pub pulseaudio: Preparation,
}

/// A session preparation as text.
pub struct SessionPlan {
    pub runtime_dir: Plan,
    pub wayland: Plan,
    pub x11: Plan,
    pub pulseaudio: Plan,
}

impl View for SessionPreparation {
    type V = SessionPlan;

    open spec fn view(&self) -> SessionPlan {
        SessionPlan {
            runtime_dir: self.runtime_dir@,
            wayland: self.wayland@,
            x11: self.x11@,
            pulseaudio: self.pulseaudio@,
        }
    }
}

impl SessionPlan {
    /// The plan of one subsystem.
    pub open spec fn part(self, s: Subsystem) -> Plan {
        match s {
            Subsystem::RuntimeDir => self.runtime_dir,
            Subsystem::Wayland => self.wayland,
            Subsystem::X11 => self.x11,
            Subsystem::PulseAudio => self.pulseaudio,
        }
    }

    /// All bindings, subsystem after subsystem.
    pub open spec fn vars(self) -> Seq<Seq<char>> {
        self.runtime_dir.vars + self.wayland.vars + self.x11.vars + self.pulseaudio.vars
    }
}

impl SessionPreparation {
    /// The preparation of one subsystem.
    pub fn part(&self, s: Subsystem) -> (r: &Preparation)
        ensures
            r@ == self@.part(s),
    {
        match s {
            Subsystem::RuntimeDir => &self.runtime_dir,
            Subsystem::Wayland => &self.wayland,
            Subsystem::X11 => &self.x11,
            Subsystem::PulseAudio => &self.pulseaudio,
        }
    }

    /// All bindings for the target session, subsystem after subsystem.
    pub fn into_vars(self) -> (r: Vec<String>)
        ensures
            texts(r@) == self@.vars(),
    {
        let ghost plan = self@;
        let mut r = self.runtime_dir.vars;
        let mut w = self.wayland.vars;
        let mut x = self.x11.vars;
        let mut p = self.pulseaudio.vars;
        r.append(&mut w);
        r.append(&mut x);
        r.append(&mut p);
        assert(texts(r@) =~= plan.vars());
        r
    }
}

/// The outcome of a session preparation as text.
pub open spec fn session_outcome(r: Result<SessionPreparation, ErrorWithHint>) -> Result<
    SessionPlan,
    Seq<char>,
> {
    match r {
        Ok(p) => Ok(p@),
        Err(e) => Err(e.err@),
    }
}

/// All subsystems in turn, runtime directory, Wayland, X11, PulseAudio; the first error
/// stops the run and names its subsystem.
pub open spec fn session_plan(ctx: EgoContext, f: SessionFacts, old_xhost: bool) -> Result<
    SessionPlan,
    Seq<char>,
> {
    match runtime_dir_plan(ctx.runtime_dir@, ctx.target_uid, f.runtime_dir_is_dir) {
        Err(e) => Err(failed_in(Subsystem::RuntimeDir.name(), e)),
        Ok(a) => match wayland_plan(ctx.runtime_dir@, ctx.target_uid, f.wayland_display) {
            Err(e) => Err(failed_in(Subsystem::Wayland.name(), e)),
            Ok(b) => match x11_plan(ctx.target_user@, f.display, old_xhost) {
                Err(e) => Err(failed_in(Subsystem::X11.name(), e)),
                Ok(c) => match pulse_plan(ctx.runtime_dir@, ctx.target_uid, f.pulse) {
                    Err(e) => Err(failed_in(Subsystem::PulseAudio.name(), e)),
                    Ok(d) => Ok(SessionPlan { runtime_dir: a, wayland: b, x11: c, pulseaudio: d }),
                },
            },
        },
    }
}

/// Prepares the whole session: per subsystem, the steps to carry out and the bindings for
/// the target session. Every error comes without a hint.
pub fn prepare_session(ctx: &EgoContext, facts: SessionFacts, old_xhost: bool) -> (r: Result<
    SessionPreparation,
    ErrorWithHint,
>)
    ensures
        session_outcome(r) == session_plan(*ctx, facts, old_xhost),
        r is Err ==> r->Err_0.hint@.len() == 0,
{
    let SessionFacts { runtime_dir_is_dir, wayland_display, display, pulse } = facts;
    let runtime_dir = match prepare_runtime_dir(ctx, runtime_dir_is_dir) {
        Err(e) => return Err(failed_in_subsystem(Subsystem::RuntimeDir, e)),
        Ok(p) => p,
    };
    let wayland = match prepare_wayland(ctx, wayland_display) {
        Err(e) => return Err(failed_in_subsystem(Subsystem::Wayland, e)),
        Ok(p) => p,
    };
    let x11 = match prepare_x11(ctx, display, old_xhost) {
        Err(e) => return Err(failed_in_subsystem(Subsystem::X11, e)),
        Ok(p) => p,
    };
    let pulseaudio = match prepare_pulseaudio(ctx, pulse) {
        Err(e) => return Err(failed_in_subsystem(Subsystem::PulseAudio, e)),
        Ok(p) => p,
    };
    Ok(SessionPreparation { runtime_dir, wayland, x11, pulseaudio })
}

/// A PulseAudio socket without read and write permission for everybody stops the whole run
/// with an error that names the socket and shows its permission bits; no plan comes out, so
/// no `PULSE_SERVER` or `PULSE_COOKIE` binding is handed on.
pub proof fn lemma_closed_pulse_socket_aborts(ctx: EgoContext, f: SessionFacts, old_xhost: bool)
    requires
        f.pulse.dir_is_dir,
        f.pulse.native_mode is Ok,
        lacks_world_rw(f.pulse.native_mode->Ok_0),
    ensures
        pulse_plan(ctx.runtime_dir@, ctx.target_uid, f.pulse) == Err::<Plan, Seq<char>>(
            "Unexpected permissions on '"@ + pulse_socket(pulse_dir(ctx.runtime_dir@)) + "': "@
                + octal((f.pulse.native_mode->Ok_0 & 0o777u32) as nat),
        ),
        session_plan(ctx, f, old_xhost) is Err,
{
}

/// With only the runtime directory present (no Wayland, no X11, no PulseAudio), the run makes
/// the runtime directory's grant and nothing else, and hands no binding on.
pub proof fn lemma_bare_session(ctx: EgoContext, f: SessionFacts, old_xhost: bool)
    requires
        f.runtime_dir_is_dir,
        f.wayland_display is Unset,
        f.display is Unset,
        !f.pulse.dir_is_dir,
    ensures
        session_plan(ctx, f, old_xhost) matches Ok(p) && p.runtime_dir.steps == seq![
            StepView::GrantAcl(ctx.runtime_dir@, ctx.target_uid, ACL_EXECUTE),
        ] && p.wayland.steps.len() == 0 && p.x11.steps.len() == 0 && p.pulseaudio.steps.len() == 0
            && p.vars().len() == 0,
{
}

} // verus!
