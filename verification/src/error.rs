use vstd::prelude::*;

verus! {

/// An error of DLSS Ray Reconstruction.
#[derive(Clone, Copy, Debug, PartialEq, Eq, Structural)]
pub enum DlssError {
    /// An NGX call reported failure with this `NVSDK_NGX_Result` code.
    NgxFailure(u32),
    /// The feature flags ask for auto exposure, which Ray Reconstruction does
    /// not support.
    AutoExposureUnsupported,
    /// An error that NGX does not describe further.
    Unknown,
}

} // verus!
