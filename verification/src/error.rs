use vstd::prelude::*;

verus! {

/// The error taxonomy of the daemonization sequence.
///
/// The first failure at any step immediately aborts the sequence and is
/// surfaced to the caller as one of these typed values; nothing is retried
/// and nothing is recovered internally.
#[derive(Clone, Copy, Debug, PartialEq, Eq, Structural)]
pub enum DaemonError {
    /// The configuration breaks an invariant: the identity pair is
    /// incomplete, or pid-file ownership was requested without an identity.
    ConfigInvalid,
    /// The fork call failed.
    ForkFailed,
    /// A requested feature is not available on the target platform.
    UnsupportedOnPlatform,
    /// Rewiring a standard stream descriptor failed.
    StreamRedirectFailed,
    /// The configured umask value lies outside the permission-bit range.
    InvalidUmaskBits,
    /// Creating a new session failed.
    SetSessionFailed,
    /// Changing the working directory failed.
    ChangeDirectoryFailed,
    /// Creating or writing the pid file failed.
    WritePidFailed,
    /// The user reference could not be resolved in the account database.
    InvalidUser,
    /// The group reference could not be resolved in the account database.
    InvalidGroup,
    /// Initializing the supplementary groups failed.
    SupplementaryGroupInitFailed,
    /// The set-group-id call failed.
    SetGidFailed,
    /// The set-user-id call failed.
    SetUidFailed,
    /// Changing the pid file's ownership failed.
    ChownPidFailed,
    /// Setting the process display name failed.
    ProcessNameFailed,
}

/// The description that `DaemonError::message` returns for each kind.
pub open spec fn message_of(e: DaemonError) -> Seq<char> {
    match e {
        DaemonError::ConfigInvalid => "invalid daemon configuration"@,
        DaemonError::ForkFailed => "unable to fork"@,
        DaemonError::UnsupportedOnPlatform => "unsupported on this platform"@,
        DaemonError::StreamRedirectFailed => "failed to redirect the standard streams"@,
        DaemonError::InvalidUmaskBits => "umask bits are invalid"@,
        DaemonError::SetSessionFailed => "failed to create a new session"@,
        DaemonError::ChangeDirectoryFailed => "failed to change the working directory"@,
        DaemonError::WritePidFailed => "failed to create or write the pid file"@,
        DaemonError::InvalidUser => "invalid or nonexistent user"@,
        DaemonError::InvalidGroup => "invalid or nonexistent group"@,
        DaemonError::SupplementaryGroupInitFailed => "failed to initialize supplementary groups"@,
        DaemonError::SetGidFailed => "failed to set gid"@,
        DaemonError::SetUidFailed => "failed to set uid"@,
        DaemonError::ChownPidFailed => "failed to chown the pid file"@,
        DaemonError::ProcessNameFailed => "failed to set the process name"@,
    }
}

impl DaemonError {
    /// A human-readable description of the error.
    pub fn message(&self) -> (r: String)
        ensures
            r@ == message_of(*self),
    {
        match self {
            DaemonError::ConfigInvalid => String::from_str("invalid daemon configuration"),
            DaemonError::ForkFailed => String::from_str("unable to fork"),
            DaemonError::UnsupportedOnPlatform => String::from_str("unsupported on this platform"),
            DaemonError::StreamRedirectFailed => String::from_str(
                "failed to redirect the standard streams",
            ),
            DaemonError::InvalidUmaskBits => String::from_str("umask bits are invalid"),
            DaemonError::SetSessionFailed => String::from_str("failed to create a new session"),
            DaemonError::ChangeDirectoryFailed => String::from_str(
                "failed to change the working directory",
            ),
            DaemonError::WritePidFailed => String::from_str(
                "failed to create or write the pid file",
            ),
            DaemonError::InvalidUser => String::from_str("invalid or nonexistent user"),
            DaemonError::InvalidGroup => String::from_str("invalid or nonexistent group"),
            DaemonError::SupplementaryGroupInitFailed => String::from_str(
                "failed to initialize supplementary groups",
            ),
            DaemonError::SetGidFailed => String::from_str("failed to set gid"),
            DaemonError::SetUidFailed => String::from_str("failed to set uid"),
            DaemonError::ChownPidFailed => String::from_str("failed to chown the pid file"),
            DaemonError::ProcessNameFailed => String::from_str("failed to set the process name"),
        }
    }
}

} // verus!
