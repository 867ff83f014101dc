//! The errors that commands report back to the user, and their messages.

use vstd::prelude::*;

verus! {

/// Why a command was refused or failed.
#[derive(Debug)]
pub enum QVError<'a> {
    PermissionError(PermissionType<'a>),
    InvalidArgumentError(&'a str),
    InvalidTargetError(&'a str),
    FailError(&'a str),
    InternalError(&'a str),
}

/// Which permission was missing: the caller's own role, or the rank of the
/// member a command was aimed at.
#[derive(Clone, Copy, Debug)]
pub enum PermissionType<'b> {
    SelfPerm(&'b str),
    Mention(&'b str, &'b str),
}

impl<'b> PermissionType<'b> {
    /// The message shown for this missing permission.
    pub open spec fn message(&self) -> Seq<char> {
        match *self {
            PermissionType::SelfPerm(perm) => "You can't execute this command - you're not a "@
                + perm@ + " on this server"@,
            PermissionType::Mention(cmd, perm) => "I can't "@ + cmd@ + " a(n) "@ + perm@
                + "! Please demote the user first, or enable auto demotion"@,
        }
    }

    /// The message shown for this missing permission.
    pub fn to_string(&self) -> (s: String)
        ensures
            s@ == self.message(),
    {
        match *self {
            PermissionType::SelfPerm(perm) => {
                let mut s = String::from_str("You can't execute this command - you're not a ");
                s.append(perm);
                s.append(" on this server");
                s
            },
            PermissionType::Mention(cmd, perm) => {
                let mut s = String::from_str("I can't ");
                s.append(cmd);
                s.append(" a(n) ");
                s.append(perm);
                s.append("! Please demote the user first, or enable auto demotion");
                s
            },
        }
    }
}

impl<'a> QVError<'a> {
    /// The message shown for this error.
    pub open spec fn message(&self) -> Seq<char> {
        match *self {
            QVError::PermissionError(perm) => perm.message(),
            QVError::InvalidArgumentError(arg) => "Invalid argument: "@ + arg@ + "!"@,
            QVError::InvalidTargetError(cmd) => "Running "@ + cmd@
                + " against yourself is not permitted."@,
            QVError::FailError(cmd) => cmd@ + " failed. Make sure you've followed the setup guide."@,
            QVError::InternalError(message) => message@,
        }
    }

    /// The message shown for this error.
    pub fn to_string(&self) -> (s: String)
        ensures
            s@ == self.message(),
    {
        match *self {
            QVError::PermissionError(perm) => perm.to_string(),
            QVError::InvalidArgumentError(arg) => {
                let mut s = String::from_str("Invalid argument: ");
                s.append(arg);
                s.append("!");
                s
            },
            QVError::InvalidTargetError(cmd) => {
                let mut s = String::from_str("Running ");
                s.append(cmd);
                s.append(" against yourself is not permitted.");
                s
            },
            QVError::FailError(cmd) => {
                let mut s = String::from_str(cmd);
                s.append(" failed. Make sure you've followed the setup guide.");
                s
            },
            QVError::InternalError(message) => String::from_str(message),
        }
    }
}

} // verus!
