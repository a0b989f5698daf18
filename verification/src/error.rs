use vstd::prelude::*;
use vstd::string::StringExecFns;

verus! {

/// Everything that can go wrong while the pipeline is set up or torn down.
///
/// Each variant carries the human-readable detail reported by the component
/// that failed.
#[derive(Debug)]
pub enum RStreamerError {
    /// The capture device rejected a request or could not be configured.
    CameraError(String),
    /// An operating-system level input/output failure.
    IoError(String),
    /// The HTTP listener could not be set up or stopped serving.
    ServerError(String),
    /// The fan-out channel refused an operation.
    BroadcastError(String),
}

/// An error as contracts see it: the kind and the characters of the detail.
pub enum ErrorView {
    CameraError(Seq<char>),
    IoError(Seq<char>),
    ServerError(Seq<char>),
    BroadcastError(Seq<char>),
}

impl ErrorView {
    /// The rendered message: a prefix that names the kind, then the detail.
    pub open spec fn rendered(self) -> Seq<char> {
        match self {
            ErrorView::CameraError(detail) => "Camera error: "@ + detail,
            ErrorView::IoError(detail) => "IO error: "@ + detail,
            ErrorView::ServerError(detail) => "axum error: "@ + detail,
            ErrorView::BroadcastError(detail) => "Broadcast error: "@ + detail,
        }
    }
}

impl View for RStreamerError {
    type V = ErrorView;

    open spec fn view(&self) -> ErrorView {
        match *self {
            RStreamerError::CameraError(detail) => ErrorView::CameraError(detail@),
            RStreamerError::IoError(detail) => ErrorView::IoError(detail@),
            RStreamerError::ServerError(detail) => ErrorView::ServerError(detail@),
            RStreamerError::BroadcastError(detail) => ErrorView::BroadcastError(detail@),
        }
    }
}

/// A fallible result as contracts see it: both sides by their views.
pub open spec fn result_view<T: View>(result: Result<T, RStreamerError>) -> Result<T::V, ErrorView> {
    match result {
        Ok(value) => Ok(value@),
        Err(error) => Err(error@),
    }
}

impl RStreamerError {
    /// Renders the error as a single line of text.
    pub fn message(&self) -> (text: String)
        ensures
            text@ == self@.rendered(),
    {
        match self {
            RStreamerError::CameraError(d) => String::from_str("Camera error: ").concat(d.as_str()),
            RStreamerError::IoError(d) => String::from_str("IO error: ").concat(d.as_str()),
            RStreamerError::ServerError(d) => String::from_str("axum error: ").concat(d.as_str()),
            RStreamerError::BroadcastError(d) => String::from_str("Broadcast error: ").concat(
                d.as_str(),
            ),
        }
    }
}

} // verus!
