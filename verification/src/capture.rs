//! Window-scoped, read-only frame capture.
//!
//! Two constraints define this module:
//!
//! 1. **Window-scoped only.** Display capture is not a supported mode. A player
//!    coaching a game should not have their notifications, messages, or other
//!    windows leave the machine because they happened to overlap.
//! 2. **Read-only.** Nothing here, or anywhere in Augur, synthesizes input.

use vstd::prelude::*;

use crate::evidence::Privacy;

verus! {

/// The standard library's owned filesystem path, carried by a captured frame.
#[verifier::external_type_specification]
#[verifier::external_body]
pub struct ExPathBuf(std::path::PathBuf);

/// `PathBuf::clone`: a copy of the same path.
pub assume_specification[ <std::path::PathBuf as Clone>::clone ](path: &std::path::PathBuf) -> (r:
    std::path::PathBuf)
    ensures
        r == *path,
;

/// A capturable window, as enumerated by a platform provider.
#[derive(Debug, Clone, PartialEq, Eq)]
pub struct GameWindow {
    /// Opaque, platform-specific handle. Never a filesystem path.
    pub id: String,
    /// Window title, used for adapter detection and shown when the user picks a
    /// capture target.
    pub title: String,
    /// Owning executable name.
    pub process_name: String,
}

/// One captured frame, normalized and hashed.
///
/// The pixels are deliberately not a field here. A frame reaches the model as a
/// content-addressed temp file referenced by path, deleted after the turn; a
/// struct that owned pixel data would make the "never persisted by default"
/// promise depend on everyone downstream remembering to drop it.
#[derive(Debug, Clone, PartialEq, Eq)]
pub struct CapturedFrame {
    /// Window the frame came from.
    pub window_id: String,
    /// Content hash of the normalized frame. Change detection compares these.
    pub frame_hash: String,
    /// Path to the transient frame file.
    pub path: std::path::PathBuf,
    /// Retention classification. Transient by default.
    pub privacy: Privacy,
}

/// Why capture failed.
///
/// `PermissionDenied` is separated from the rest because it is the one failure
/// with a specific, actionable remedy: the interface deep-links to the relevant
/// operating-system settings pane rather than showing a generic error.
#[derive(Debug)]
pub enum CaptureError {
    /// The operating system has not granted screen-recording permission.
    PermissionDenied,
    /// The selected window no longer exists.
    WindowGone(String),
    /// The platform provider failed for another reason.
    Backend(String),
}

impl CaptureError {
    /// The human-readable description of this error.
    pub fn message(&self) -> (r: String)
        ensures
            r@ == match self {
                CaptureError::PermissionDenied => "screen capture permission has not been granted"@,
                CaptureError::WindowGone(id) => "window "@ + id@ + " is no longer available"@,
                CaptureError::Backend(why) => "capture failed: "@ + why@,
            },
    {
        let mut out = String::new();
        match self {
            CaptureError::PermissionDenied => {
                out.append("screen capture permission has not been granted");
            },
            CaptureError::WindowGone(id) => {
                out.append("window ");
                out.append(id.as_str());
                out.append(" is no longer available");
            },
            CaptureError::Backend(why) => {
                out.append("capture failed: ");
                out.append(why.as_str());
            },
        }
        out
    }
}

/// A platform capture backend.
///
/// Implementations are per-operating-system. A replay provider feeding
/// recorded frames through the real pipeline is what lets the whole system be
/// tested without a running game.
pub trait CaptureProvider: Send + Sync {
    /// Enumerate windows that can be captured.
    fn enumerate(&self) -> Result<Vec<GameWindow>, CaptureError>;

    /// Capture one frame from a previously selected window.
    fn capture(&self, window_id: &str) -> Result<CapturedFrame, CaptureError>;
}

} // verus!
