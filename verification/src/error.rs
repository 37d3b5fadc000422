//! Failures of capture commands and of the streaming loop.

use vstd::prelude::*;

verus! {

/// The kind of capture target a command looked for and did not find.
#[derive(Clone, Copy, Debug, PartialEq, Eq, Structural)]
pub enum MissingTarget {
    /// No monitor of the snapshot carries the requested id, or none is primary
    /// where the primary one was asked for.
    Monitor,
    /// The snapshot holds no monitor at all.
    AnyMonitor,
    /// No window of the snapshot carries the requested id.
    Window,
}

/// Why a command failed.
///
/// Variants with a `String` carry the cause as the failing component worded it.
#[derive(Clone, Debug, PartialEq, Eq)]
pub enum CaptureError {
    /// The operating system refused to enumerate monitors or windows.
    Enumeration(String),
    /// The requested target is not part of the current snapshot.
    TargetNotFound(MissingTarget),
    /// The operating system failed to capture the target.
    Capture(String),
    /// Writing the image container failed.
    Encode(String),
    /// The payload handed in for saving is not base64 text.
    InvalidPayload(String),
    /// Writing to the filesystem failed.
    Io(String),
}

/// [`CaptureError`] as contracts see it.
///
/// The wording of an encoder or decoder failure is that component's own affair
/// and is left out; a cause that a caller handed in is kept.
pub enum CaptureErrorView {
    Enumeration(Seq<char>),
    TargetNotFound(MissingTarget),
    Capture(Seq<char>),
    Encode,
    InvalidPayload,
    Io(Seq<char>),
}

impl View for CaptureError {
    type V = CaptureErrorView;

    open spec fn view(&self) -> CaptureErrorView {
        match *self {
            CaptureError::Enumeration(cause) => CaptureErrorView::Enumeration(cause@),
            CaptureError::TargetNotFound(target) => CaptureErrorView::TargetNotFound(target),
            CaptureError::Capture(cause) => CaptureErrorView::Capture(cause@),
            CaptureError::Encode(_) => CaptureErrorView::Encode,
            CaptureError::InvalidPayload(_) => CaptureErrorView::InvalidPayload,
            CaptureError::Io(cause) => CaptureErrorView::Io(cause@),
        }
    }
}

/// The fixed wording for a target that was not found.
pub open spec fn missing_target_text(target: MissingTarget) -> Seq<char> {
    match target {
        MissingTarget::Monitor => "Monitor not found"@,
        MissingTarget::AnyMonitor => "No monitor found"@,
        MissingTarget::Window => "Window not found"@,
    }
}

impl CaptureError {
    /// The descriptive string of this error.
    pub open spec fn text(&self) -> Seq<char> {
        match *self {
            CaptureError::Enumeration(cause) => cause@,
            CaptureError::TargetNotFound(target) => missing_target_text(target),
            CaptureError::Capture(cause) => cause@,
            CaptureError::Encode(cause) => cause@,
            CaptureError::InvalidPayload(cause) => cause@,
            CaptureError::Io(cause) => cause@,
        }
    }

    /// Renders the error as the string a command hands to its caller.
    pub fn message(&self) -> (res: String)
        ensures
            res@ == self.text(),
    {
        match self {
            CaptureError::Enumeration(cause) => cause.clone(),
            CaptureError::TargetNotFound(MissingTarget::Monitor) => "Monitor not found".to_string(),
            CaptureError::TargetNotFound(MissingTarget::AnyMonitor) => "No monitor found".to_string(),
            CaptureError::TargetNotFound(MissingTarget::Window) => "Window not found".to_string(),
            CaptureError::Capture(cause) => cause.clone(),
            CaptureError::Encode(cause) => cause.clone(),
            CaptureError::InvalidPayload(cause) => cause.clone(),
            CaptureError::Io(cause) => cause.clone(),
        }
    }
}

} // verus!
