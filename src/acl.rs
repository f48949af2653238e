//! POSIX ACL vocabulary: qualifiers, their platform tags, permission bits, and the errors
//! that reading, validating and writing an ACL report.
use vstd::prelude::*;
use crate::errors::ErrorWithHint;
use crate::text::{newlines_to_commas, replace_newlines};

verus! {

/// Read permission.
pub const ACL_READ: u32 = 4;

/// Write permission.
pub const ACL_WRITE: u32 = 2;

/// Execute permission (for a directory: traversal).
pub const ACL_EXECUTE: u32 = 1;

/// Read, write and execute together.
pub const ACL_RWX: u32 = 7;

/// Platform tag of an entry that has no tag yet.
pub const ACL_UNDEFINED_TAG: i32 = 0;

/// Platform tag of the owning user's entry.
pub const ACL_USER_OBJ: i32 = 1;

/// Platform tag of a named user's entry.
pub const ACL_USER: i32 = 2;

/// Platform tag of the owning group's entry.
pub const ACL_GROUP_OBJ: i32 = 4;

/// Platform tag of a named group's entry.
pub const ACL_GROUP: i32 = 8;

/// Platform tag of the mask entry.
pub const ACL_MASK: i32 = 16;

/// Platform tag of the entry for everybody else.
pub const ACL_OTHER: i32 = 32;

/// Whom an ACL entry applies to. Only `User` and `Group` carry a numeric identity.
#[derive(Clone, Copy, Debug, PartialEq, Eq, Structural)]
pub enum Qualifier {
    Undefined,
    UserObj,
    GroupObj,
    Other,
    User(u32),
    Group(u32),
    Mask,
}

impl Qualifier {
    /// The platform's tag type for this qualifier.
    pub fn tag_type(&self) -> (r: i32)
        ensures
            r == match *self {
                Qualifier::Undefined => ACL_UNDEFINED_TAG,
                Qualifier::UserObj => ACL_USER_OBJ,
                Qualifier::GroupObj => ACL_GROUP_OBJ,
                Qualifier::User(_) => ACL_USER,
                Qualifier::Group(_) => ACL_GROUP,
                Qualifier::Mask => ACL_MASK,
                Qualifier::Other => ACL_OTHER,
            },
    {
        match self {
            Qualifier::Undefined => ACL_UNDEFINED_TAG,
            Qualifier::UserObj => ACL_USER_OBJ,
            Qualifier::GroupObj => ACL_GROUP_OBJ,
            Qualifier::User(_) => ACL_USER,
            Qualifier::Group(_) => ACL_GROUP,
            Qualifier::Mask => ACL_MASK,
            Qualifier::Other => ACL_OTHER,
        }
    }

    /// The user or group id that the qualifier names, if it names one.
    pub fn uid(&self) -> (r: Option<u32>)
        ensures
            r == match *self {
                Qualifier::User(id) => Some(id),
                Qualifier::Group(id) => Some(id),
                _ => None::<u32>,
            },
    {
        match self {
            Qualifier::User(id) => Some(*id),
            Qualifier::Group(id) => Some(*id),
            _ => None,
        }
    }
}

/// The error for an ACL that failed validation: it shows the ACL's text on one line, so
/// that the cause can be seen.
pub fn invalid_acl_error(text: &str) -> (r: ErrorWithHint)
    ensures
        r.err@ == "Invalid ACL: "@ + newlines_to_commas(text@),
        r.hint@.len() == 0,
{
    let mut err = String::from_str("Invalid ACL: ");
    let compact = replace_newlines(text);
    err.append(compact.as_str());
    ErrorWithHint::plain(err)
}

/// The outcome of validating an ACL: accepted, or refused with its text shown on one line.
/// `valid` is the platform's verdict; `text` the platform's text of the ACL.
pub fn acl_validation(valid: bool, text: &str) -> (r: Result<(), ErrorWithHint>)
    ensures
        r is Ok <==> valid,
        r is Err ==> r->Err_0.err@ == "Invalid ACL: "@ + newlines_to_commas(text@)
            && r->Err_0.hint@.len() == 0,
{
    if valid {
        Ok(())
    } else {
        Err(invalid_acl_error(text))
    }
}

/// The error for a failed read or write of the ACL of `path`; `detail` is the system's
/// reason.
pub fn acl_access_error(writing: bool, path: &str, detail: &str) -> (r: ErrorWithHint)
    ensures
        r.err@ == (if writing { "Error writing "@ } else { "Error reading "@ }) + path@ + " ACL: "@
            + detail@,
        r.hint@.len() == 0,
{
    let mut err = if writing {
        String::from_str("Error writing ")
    } else {
        String::from_str("Error reading ")
    };
    err.append(path);
    err.append(" ACL: ");
    err.append(detail);
    ErrorWithHint::plain(err)
}

} // verus!
