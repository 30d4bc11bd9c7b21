use vstd::prelude::*;

verus! {

/// The reason a candidate physical device was rejected by the
/// suitability evaluator.
#[derive(Clone, Copy, Debug, PartialEq, Eq, Structural)]
pub enum SuitabilityReason {
    /// No queue family supports graphics, or none can present to the
    /// active surface.
    MissingQueueFamilies,
    /// At least one required device extension is missing from the
    /// device's enumerated extensions.
    MissingDeviceExtensions,
    /// The device reports no supported surface format or no present
    /// mode for the surface.
    InsufficientSwapchainSupport,
}

/// A per-device rejection verdict. Such an error is never fatal on its
/// own: the physical-device selector logs it and moves to the next
/// candidate.
#[derive(Clone, Copy, Debug, PartialEq, Eq, Structural)]
pub struct SuitabilityError(pub SuitabilityReason);

impl SuitabilityError {
    /// A short description of the rejection, for the log.
    pub fn message(&self) -> (r: &'static str)
        ensures
            self.0 == SuitabilityReason::MissingQueueFamilies ==> r@ == "Missing required queue families"@,
            self.0 == SuitabilityReason::MissingDeviceExtensions ==> r@ == "Missing required device extensions"@,
            self.0 == SuitabilityReason::InsufficientSwapchainSupport ==> r@ == "Insufficient swapchain support"@,
    {
        match self.0 {
            SuitabilityReason::MissingQueueFamilies => "Missing required queue families",
            SuitabilityReason::MissingDeviceExtensions => "Missing required device extensions",
            SuitabilityReason::InsufficientSwapchainSupport => "Insufficient swapchain support",
        }
    }
}

/// A fatal initialization failure: it propagates to the caller of the
/// initialization sequence, which treats it as fatal to the process.
#[derive(Clone, Copy, Debug, PartialEq, Eq, Structural)]
pub enum InitError {
    /// Diagnostics were requested but the required validation layer is
    /// absent from the driver's enumerated available layers.
    MissingValidationLayer,
    /// Every enumerated physical device was rejected, or none was
    /// enumerated at all.
    NoSuitableDevice,
}

impl InitError {
    /// A short description of the failure, for the log.
    pub fn message(&self) -> (r: &'static str)
        ensures
            *self == InitError::MissingValidationLayer ==> r@ == "Validation layer requested but not supported"@,
            *self == InitError::NoSuitableDevice ==> r@ == "No suitable physical device found"@,
    {
        match self {
            InitError::MissingValidationLayer => "Validation layer requested but not supported",
            InitError::NoSuitableDevice => "No suitable physical device found",
        }
    }
}

} // verus!
