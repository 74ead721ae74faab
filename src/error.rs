use vstd::prelude::*;

verus! {

/// The ways a wallpaper session can fail.
#[derive(Debug, Clone, Copy, PartialEq, Eq, Structural)]
pub enum WallError {
    /// The transport could not complete a request.
    Network,
    /// A reply is not JSON, or lacks the fields of a result page.
    Parse,
    /// Image bytes could not be decoded or re-encoded.
    Decode,
    /// A file could not be read or written.
    Io,
    /// There is no way to set a wallpaper on the detected desktop.
    UnsupportedEnvironment,
}

impl WallError {
    /// A human-readable description of the error.
    pub fn message(&self) -> (r: &'static str) {
        match self {
            WallError::Network => "network request failed",
            WallError::Parse => "unexpected reply from the search service",
            WallError::Decode => "the image could not be decoded",
            WallError::Io => "a file could not be read or written",
            WallError::UnsupportedEnvironment => "setting a wallpaper is not implemented for this desktop",
        }
    }
}

} // verus!
