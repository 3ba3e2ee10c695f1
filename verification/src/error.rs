use vstd::prelude::*;

verus! {

/// Why a step of the updater failed.
#[derive(Clone, Copy, Debug, PartialEq, Eq, Structural)]
pub enum UpdateError {
    /// The feed or the artifact could not be reached, or answered without a success status.
    Network,
    /// The latest release carries no downloadable asset.
    NoAssets,
    /// The version marker or the feed's answer is malformed.
    Parse,
    /// A file could not be created, opened, copied or deleted.
    Io,
    /// The downloaded artifact is corrupt or unreadable.
    Archive,
    /// The running binary's name is neither the primary nor the temp identity.
    UnrecognizedIdentity,
}

impl UpdateError {
    /// The taxonomy's name of this error.
    pub fn name(&self) -> (r: &'static str)
        ensures
            r@ == match *self {
                UpdateError::Network => "NetworkError"@,
                UpdateError::NoAssets => "NoAssetsError"@,
                UpdateError::Parse => "ParseError"@,
                UpdateError::Io => "IoError"@,
                UpdateError::Archive => "ArchiveError"@,
                UpdateError::UnrecognizedIdentity => "UnrecognizedIdentityError"@,
            },
    {
        match self {
            UpdateError::Network => "NetworkError",
            UpdateError::NoAssets => "NoAssetsError",
            UpdateError::Parse => "ParseError",
            UpdateError::Io => "IoError",
            UpdateError::Archive => "ArchiveError",
            UpdateError::UnrecognizedIdentity => "UnrecognizedIdentityError",
        }
    }
}

} // verus!
