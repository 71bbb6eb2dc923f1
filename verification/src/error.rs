//! Error values reported by the renderer.

use vstd::prelude::*;

verus! {

/// An error that carries nothing but a description.
#[derive(Debug, Clone, PartialEq, Eq)]
pub struct KappaError {
    info: String,
}

impl View for KappaError {
    type V = Seq<char>;

    closed spec fn view(&self) -> Seq<char> {
        self.info@
    }
}

impl KappaError {
    /// Makes an error whose description is `info`.
    pub fn new(info: &str) -> (e: KappaError)
        ensures
            e@ == info@,
    {
        KappaError { info: info.to_owned() }
    }

    /// The cause of this error: there never is one.
    pub fn source(&self) -> (cause: Option<&KappaError>)
        ensures
            cause is None,
    {
        None
    }

    /// The description that the error was made with.
    pub fn message(&self) -> (text: String)
        ensures
            text@ == self@,
    {
        self.info.clone()
    }
}

/// Why the next image of a surface could not be acquired.
#[derive(Clone, Copy, Debug, PartialEq, Eq, Structural)]
pub enum SurfaceError {
    /// The image did not become available in time.
    Timeout,
    /// The surface has changed and must be configured again.
    Outdated,
    /// The surface is gone and must be made again.
    Lost,
    /// No memory is left for a new frame.
    OutOfMemory,
}

/// What can go wrong while the renderer starts or draws. None of it ends the
/// process: a failed start is reported to the host, a failed frame is
/// skipped.
#[derive(Debug, Clone, PartialEq, Eq)]
pub enum RenderError {
    /// No adapter is compatible with the surface.
    AdapterUnavailable(KappaError),
    /// The adapter did not hand out a device and a queue.
    DeviceRequestFailed,
    /// No surface could be made for the window.
    SurfaceCreationFailed,
    /// The shader did not compile.
    ShaderCompileFailed,
    /// No pipeline is stored under the name a frame asked for.
    PipelineLookupFailed(KappaError),
    /// The next image of the surface could not be acquired.
    SurfaceAcquireFailed(SurfaceError),
    /// A buffer of the frame was missing when it was to be bound.
    BufferOrSubmissionFailed(KappaError),
}

impl RenderError {
    /// Whether this is the error of an adapter that was not found, with the
    /// description `info`.
    pub open spec fn is_adapter_unavailable(self, info: Seq<char>) -> bool {
        self matches RenderError::AdapterUnavailable(e) && e@ == info
    }

    /// Whether this is the error of a pipeline that was not found, with the
    /// description `info`.
    pub open spec fn is_pipeline_lookup_failed(self, info: Seq<char>) -> bool {
        self matches RenderError::PipelineLookupFailed(e) && e@ == info
    }
}

} // verus!
