//! The execution context: who the target user is and where the session's runtime directory
//! lies. It is built once and only read afterwards.
use vstd::prelude::*;
use crate::env::{getenv_path, required_var, EnvValue};
use crate::errors::ErrorWithHint;
use crate::logging::{record_line, Level, SimpleLogger};
use crate::text::{decimal, decimal_string};

verus! {

/// What the user database says of an account.
pub struct UserInfo {
    pub name: String,
    pub uid: u32,
    /// Home directory; `None` when it is not valid Unicode.
    pub home: Option<String>,
    /// Login shell; `None` when it is not valid Unicode.
    pub shell: Option<String>,
}

/// Everything the preparation and the switch need to know of the run.
pub struct EgoContext {
    pub runtime_dir: String,
    pub target_user: String,
    pub target_uid: u32,
    pub target_user_shell: Option<String>,
    pub target_user_homedir: Option<String>,
}

/// Relies on nix's `User::from_name` (getpwnam_r): the account of that name, if there is one.
#[verifier::external_body]
fn lookup_user(name: &str) -> Result<Option<UserInfo>, String> {
    match nix::unistd::User::from_name(name) {
        Ok(Some(u)) => Ok(Some(UserInfo {
            name: u.name,
            uid: u.uid.as_raw(),
            home: u.dir.into_os_string().into_string().ok(),
            shell: u.shell.into_os_string().into_string().ok(),
        })),
        Ok(None) => Ok(None),
        Err(e) => Err(e.to_string()),
    }
}

/// Relies on nix's `User::from_uid` (getpwuid_r): whether some account has `uid`.
#[verifier::external_body]
fn uid_in_use(uid: u32) -> Result<bool, String> {
    match nix::unistd::User::from_uid(nix::unistd::Uid::from_raw(uid)) {
        Ok(found) => Ok(found.is_some()),
        Err(e) => Err(e.to_string()),
    }
}

/// The lowest id tried for a new account. Ids from 1000 up show on login screens, and ids
/// from 100 to 499 are left to administrators.
pub const FIRST_FREE_UID: u32 = 150;

/// The highest id tried for a new account.
pub const LAST_FREE_UID: u32 = 499;

/// The message for an account that does not exist.
pub open spec fn unknown_user_message(name: Seq<char>) -> Seq<char> {
    "Unknown user '"@ + name + "'"@
}

/// The hint for an account that does not exist: how to create it, with a free id if one was
/// found.
pub open spec fn unknown_user_hint(name: Seq<char>, free_uid: Option<u32>) -> Seq<char> {
    "Specify different user with --user= or create a new user"@ + match free_uid {
        Some(uid) => " with the command:\n    sudo useradd '"@ + name + "' --uid "@ + decimal(
            uid as nat,
        ) + " --create-home"@,
        None => Seq::empty(),
    }
}

/// The error for an account that does not exist. `free_uid` is an unused id to suggest.
pub fn unknown_user_error(username: &str, free_uid: Option<u32>) -> (r: ErrorWithHint)
    ensures
        r.err@ == unknown_user_message(username@),
        r.hint@ == unknown_user_hint(username@, free_uid),
{
    let mut err = String::from_str("Unknown user '");
    err.append(username);
    err.append("'");
    let mut hint = String::from_str("Specify different user with --user= or create a new user");
    match free_uid {
        Some(uid) => {
            hint.append(" with the command:\n    sudo useradd '");
            hint.append(username);
            hint.append("' --uid ");
            let digits = decimal_string(uid);
            hint.append(digits.as_str());
            hint.append(" --create-home");
        },
        None => {
            assert(hint@ =~= unknown_user_hint(username@, free_uid));
        },
    }
    ErrorWithHint::new(err, hint)
}

/// How many ids are tried for a new account, from `FIRST_FREE_UID` on.
pub const UIDS_TRIED: usize = 350;

/// The first index from `i` on, below `limit`, whose id is not in use.
pub open spec fn free_from(in_use: Seq<bool>, i: nat, limit: nat) -> Option<nat>
    decreases limit - i,
{
    if i >= limit || i >= in_use.len() {
        None
    } else if !in_use[i as int] {
        Some(i)
    } else {
        free_from(in_use, i + 1, limit)
    }
}

/// The id to suggest for a new account: `in_use[k]` tells whether `FIRST_FREE_UID + k` is
/// taken, and the smallest id of the range that is not taken is chosen.
pub open spec fn first_free(in_use: Seq<bool>) -> Option<u32> {
    match free_from(in_use, 0, UIDS_TRIED as nat) {
        Some(k) => Some((FIRST_FREE_UID + k) as u32),
        None => None,
    }
}

/// Decides the outcome of a lookup. `found` is the account that the name gave, if any;
/// `in_use[k]` tells whether id `FIRST_FREE_UID + k` is taken. Answers past the range are
/// not looked at.
pub fn user_or_unknown(username: &str, found: Option<UserInfo>, in_use: &Vec<bool>) -> (r: Result<
    UserInfo,
    ErrorWithHint,
>)
    ensures
        found is Some ==> r == Ok::<UserInfo, ErrorWithHint>(found->Some_0),
        found is None ==> (r matches Err(e) && e.err@ == unknown_user_message(username@)
            && e.hint@ == unknown_user_hint(username@, first_free(in_use@))),
{
    match found {
        Some(user) => Ok(user),
        None => {
            let limit: usize = if in_use.len() < UIDS_TRIED {
                in_use.len()
            } else {
                UIDS_TRIED
            };
            let mut k: usize = 0;
            while k < limit && in_use[k]
                invariant
                    k <= limit <= UIDS_TRIED,
                    limit <= in_use@.len(),
                    limit == in_use@.len() || limit == UIDS_TRIED,
                    free_from(in_use@, k as nat, UIDS_TRIED as nat) == free_from(
                        in_use@,
                        0,
                        UIDS_TRIED as nat,
                    ),
                decreases limit - k,
            {
                k = k + 1;
            }
            let free: Option<u32> = if k < limit {
                Some(FIRST_FREE_UID + k as u32)
            } else {
                None
            };
            assert(free == first_free(in_use@));
            Err(unknown_user_error(username, free))
        },
    }
}

/// Looks up the target user. The name goes to the user database unchanged; when there is no
/// such account, ids from `FIRST_FREE_UID` up are asked about in order until one is free (at
/// most `UIDS_TRIED` of them), and `user_or_unknown` decides with the answers. A failed lookup
/// gives the system's reason, without a hint.
pub fn get_target_user(username: &str) -> (r: Result<UserInfo, ErrorWithHint>)
    ensures
        r is Err && r->Err_0.hint@.len() > 0 ==> r->Err_0.err@ == unknown_user_message(username@)
            && (r->Err_0.hint@ == unknown_user_hint(username@, None) || exists|uid: u32|
            FIRST_FREE_UID <= uid <= LAST_FREE_UID && r->Err_0.hint@ == unknown_user_hint(
                username@,
                Some(uid),
            )),
{
    let found = match lookup_user(username) {
        Ok(found) => found,
        Err(msg) => return Err(ErrorWithHint::plain(msg)),
    };
    let mut in_use: Vec<bool> = Vec::new();
    if found.is_none() {
        let mut uid: u32 = FIRST_FREE_UID;
        let mut free_seen = false;
        while !free_seen && uid <= LAST_FREE_UID
            invariant
                FIRST_FREE_UID <= uid <= LAST_FREE_UID + 1,
                in_use@.len() == uid - FIRST_FREE_UID,
            decreases LAST_FREE_UID + 1 - uid, (if free_seen { 0int } else { 1int }),
        {
            match uid_in_use(uid) {
                Err(msg) => {
                    return Err(ErrorWithHint::plain(msg));
                },
                Ok(taken) => {
                    in_use.push(taken);
                    uid = uid + 1;
                    free_seen = !taken;
                },
            }
        }
    }
    let r = user_or_unknown(username, found, &in_use);
    proof {
        if r is Err && r->Err_0.hint@.len() > 0 {
            match first_free(in_use@) {
                Some(u) => {
                    lemma_free_from_in_range(in_use@, 0);
                    assert(FIRST_FREE_UID <= u <= LAST_FREE_UID);
                },
                None => {},
            }
        }
    }
    r
}

proof fn lemma_free_from_in_range(in_use: Seq<bool>, i: nat)
    ensures
        free_from(in_use, i, UIDS_TRIED as nat) matches Some(k) ==> i <= k < UIDS_TRIED,
    decreases UIDS_TRIED - i,
{
    if i < UIDS_TRIED && i < in_use.len() && in_use[i as int] {
        lemma_free_from_in_range(in_use, i + 1);
    }
}

/// Builds the context from the target account and `XDG_RUNTIME_DIR`, which must be set.
pub fn create_context(user: UserInfo, runtime_dir: EnvValue) -> (r: Result<EgoContext, ErrorWithHint>)
    ensures
        match required_var("XDG_RUNTIME_DIR"@, runtime_dir) {
            Ok(dir) => r matches Ok(ctx) && ctx.runtime_dir@ == dir && ctx.target_user@ == user.name@
                && ctx.target_uid == user.uid && ctx.target_user_shell == user.shell
                && ctx.target_user_homedir == user.home,
            Err(msg) => r matches Err(e) && e.err@ == msg && e.hint@.len() == 0,
        },
{
    match getenv_path("XDG_RUNTIME_DIR", runtime_dir) {
        Ok(dir) => Ok(EgoContext {
            runtime_dir: dir,
            target_user: user.name,
            target_uid: user.uid,
            target_user_shell: user.shell,
            target_user_homedir: user.home,
        }),
        Err(e) => Err(e),
    }
}

/// What the program found when it looked at the target user's home directory.
pub enum HomeStatus {
    /// The directory exists and belongs to this user id.
    OwnedBy(u32),
    /// Looking at it was not permitted; the system's reason.
    PermissionDenied(String),
    /// It could not be looked at for another reason (e.g. it does not exist).
    Inaccessible(String),
}

/// What to report of the home directory, if anything: a wrong owner and a directory that
/// cannot be looked at are warned about; a denied look is only an informational note, since
/// the directory is then likely inside one that the invoking user may not enter.
pub open spec fn homedir_report(
    user: Seq<char>,
    uid: u32,
    home: Seq<char>,
    status: HomeStatus,
) -> Option<(Level, Seq<char>)> {
    match status {
        HomeStatus::OwnedBy(owner) => if owner == uid {
            None
        } else {
            Some(
                (
                    Level::Warn,
                    "User "@ + user + " home directory "@ + home
                        + " has incorrect ownership (expected UID "@ + decimal(uid as nat)
                        + ", found "@ + decimal(owner as nat) + ")"@,
                ),
            )
        },
        HomeStatus::PermissionDenied(reason) => Some(
            (
                Level::Info,
                "User "@ + user + " home directory "@ + home + " is not accessible: "@ + reason@,
            ),
        ),
        HomeStatus::Inaccessible(reason) => Some(
            (
                Level::Warn,
                "User "@ + user + " home directory "@ + home + " is not accessible: "@ + reason@,
            ),
        ),
    }
}

/// The log lines that a report adds to a sink showing records up to `shown`.
pub open spec fn report_lines(report: Option<(Level, Seq<char>)>, shown: Level) -> Seq<Seq<char>> {
    match report {
        Some((level, message)) => if level.rank() <= shown.rank() {
            seq![record_line(level, "ego"@, "ego"@, message)]
        } else {
            Seq::empty()
        },
        None => Seq::empty(),
    }
}

/// The warning for a home directory whose path is not valid Unicode: it cannot be looked at
/// by its text, so the user is told that it was not checked.
pub open spec fn unchecked_home_message(user: Seq<char>) -> Seq<char> {
    "User "@ + user + " home directory is not valid Unicode and was not checked"@
}

/// Reports a home directory of the target user that is missing, cannot be looked at, or
/// belongs to someone else. `status` is what looking at it found; `None` when it was not
/// looked at. A home directory that is not valid Unicode is warned about as unchecked.
pub fn check_user_homedir(log: &mut SimpleLogger, ctx: &EgoContext, status: Option<HomeStatus>)
    ensures
        final(log).level == old(log).level,
        final(log).lines_view() == old(log).lines_view() + match ctx.target_user_homedir {
            Some(home) => match status {
                Some(st) => report_lines(
                    homedir_report(ctx.target_user@, ctx.target_uid, home@, st),
                    old(log).level,
                ),
                None => Seq::empty(),
            },
            None => report_lines(
                Some((Level::Warn, unchecked_home_message(ctx.target_user@))),
                old(log).level,
            ),
        },
{
    let home = match &ctx.target_user_homedir {
        Some(h) => h,
        None => {
            let mut message = String::from_str("User ");
            message.append(ctx.target_user.as_str());
            message.append(" home directory is not valid Unicode and was not checked");
            log.log(Level::Warn, "ego", message.as_str());
            assert(log.lines_view() =~= old(log).lines_view() + report_lines(
                Some((Level::Warn, unchecked_home_message(ctx.target_user@))),
                old(log).level,
            ));
            return;
        },
    };
    let status = match status {
        Some(st) => st,
        None => {
            assert(log.lines_view() =~= old(log).lines_view() + Seq::empty());
            return;
        },
    };
    let mut message = String::from_str("User ");
    message.append(ctx.target_user.as_str());
    message.append(" home directory ");
    message.append(home.as_str());
    let level = match status {
        HomeStatus::OwnedBy(owner) => {
            if owner == ctx.target_uid {
                assert(log.lines_view() =~= old(log).lines_view() + Seq::empty());
                return;
            }
            message.append(" has incorrect ownership (expected UID ");
            let expected = decimal_string(ctx.target_uid);
            message.append(expected.as_str());
            message.append(", found ");
            let found = decimal_string(owner);
            message.append(found.as_str());
            message.append(")");
            Level::Warn
        },
        HomeStatus::PermissionDenied(reason) => {
            message.append(" is not accessible: ");
            message.append(reason.as_str());
            Level::Info
        },
        HomeStatus::Inaccessible(reason) => {
            message.append(" is not accessible: ");
            message.append(reason.as_str());
            Level::Warn
        },
    };
    log.log(level, "ego", message.as_str());
    assert(log.lines_view() =~= old(log).lines_view() + report_lines(
        homedir_report(ctx.target_user@, ctx.target_uid, home@, status),
        old(log).level,
    ));
}

} // verus!
