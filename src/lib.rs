//! Alter Ego: grant a second local user access to the current desktop session (Wayland,
//! X11, PulseAudio, runtime directory) and build the command that switches into that user.
//!
//! The library decides; the program around it performs the I/O that the decisions ask for:
//! it reads the environment and the file system, carries out the steps of a `Preparation`,
//! and executes the final `ExecCommand`.
pub mod acl;
pub mod cli;
pub mod context;
pub mod env;
pub mod errors;
pub mod logging;
pub mod paths;
pub mod prepare;
pub mod switch;
pub mod text;
pub mod x11;

pub use acl::{
    acl_access_error, acl_validation, invalid_acl_error, Qualifier, ACL_EXECUTE, ACL_READ, ACL_RWX, ACL_WRITE,
};
pub use cli::{level_from_verbosity, method_from_flags, Args, Method};
pub use context::{
    check_user_homedir, create_context, get_target_user, unknown_user_error, user_or_unknown,
    EgoContext, HomeStatus, UserInfo,
};
pub use env::{getenv_optional, getenv_path, EnvValue};
pub use errors::{print_error, ErrorWithHint};
pub use logging::{init_with_level, Colour, Level, SimpleLogger};
pub use paths::path_join;
pub use prepare::{
    ego_rundir, ensure_ego_rundir, failed_in_subsystem, find_pulseaudio_cookie, get_wayland_socket, prepare_pulseaudio,
    prepare_pulseaudio_cookie, prepare_pulseaudio_socket, prepare_runtime_dir, prepare_session,
    prepare_wayland, prepare_x11, pulseaudio_cookie_candidates, pulseaudio_dir, pulseaudio_socket,
    Preparation, PulseFacts, SessionFacts, SessionPreparation, Step, Subsystem,
};
pub use switch::{
    choose_method, command_failed_error, compose_remote_script, detect_method,
    machinectl_remote_command, report_command_error, run_machinectl_command, run_sudo_command,
    session_command, ExecCommand,
};
pub use text::{
    decimal_string, has_leading_dash, name_before_equals, octal_string, replace_newlines,
    signed_decimal_string,
};
pub use x11::x11_host_address;
