use vstd::prelude::*;
use crate::errors::{InitError, SuitabilityError, SuitabilityReason};
use crate::extensions::{all_listed, supports_all};
use crate::queue_family::{some_graphics, some_presentation, QueueFamilyIndices, QueueFamilyInfo};
use crate::swapchain::SwapchainSupport;

verus! {

/// Everything the suitability evaluator reads of one candidate device,
/// as queried against the active surface: its queue family list in
/// enumeration order, its enumerated device extension names, and its
/// swapchain probe result.
#[derive(Clone, Debug)]
pub struct DeviceCandidate {
    pub queue_families: Vec<QueueFamilyInfo>,
    pub extensions: Vec<String>,
    pub swapchain: SwapchainSupport,
}

/// The evaluator's verdict on one candidate, checked in order: queue
/// families first, then extension support, then swapchain adequacy.
/// `None` means suitable.
pub open spec fn spec_verdict(c: DeviceCandidate, required: Seq<String>) -> Option<
    SuitabilityReason,
> {
    if !(some_graphics(c.queue_families@) && some_presentation(c.queue_families@)) {
        Some(SuitabilityReason::MissingQueueFamilies)
    } else if !all_listed(c.extensions@, required) {
        Some(SuitabilityReason::MissingDeviceExtensions)
    } else if !c.swapchain.spec_adequate() {
        Some(SuitabilityReason::InsufficientSwapchainSupport)
    } else {
        None
    }
}

/// A candidate is suitable exactly when the evaluator has no verdict
/// against it.
pub open spec fn spec_suitable(c: DeviceCandidate, required: Seq<String>) -> bool {
    spec_verdict(c, required) is None
}

/// The device suitability evaluator: a pure filter, no scoring. A
/// candidate is accepted iff, in order, (a) its queue families resolve,
/// (b) every required device extension is enumerated, and (c) its
/// swapchain probe reports at least one format and one present mode.
/// On rejection the error names the first failed check.
pub fn check_physical_device(candidate: &DeviceCandidate, required: &Vec<String>) -> (r: Result<
    (),
    SuitabilityError,
>)
    requires
        candidate.queue_families@.len() <= u32::MAX,
    ensures
        r is Ok <==> spec_suitable(*candidate, required@),
        r matches Err(e) ==> Some(e.0) == spec_verdict(*candidate, required@),
{
    QueueFamilyIndices::get(&candidate.queue_families)?;
    if !supports_all(&candidate.extensions, required) {
        return Err(SuitabilityError(SuitabilityReason::MissingDeviceExtensions));
    }
    if !candidate.swapchain.is_adequate() {
        return Err(SuitabilityError(SuitabilityReason::InsufficientSwapchainSupport));
    }
    Ok(())
}

/// A device whose queue families resolve and whose enumerated extensions
/// list every required name — a superset of the required set, strict or
/// not — passes the extension check; with an adequate swapchain probe it
/// is suitable.
pub proof fn lemma_superset_passes(c: DeviceCandidate, required: Seq<String>)
    requires
        some_graphics(c.queue_families@),
        some_presentation(c.queue_families@),
        all_listed(c.extensions@, required),
        c.swapchain.spec_adequate(),
    ensures
        spec_suitable(c, required),
{
}

/// A device whose queue families resolve but whose enumerated extensions
/// miss even one required name is rejected with the missing-extensions
/// reason — not with any other reason.
pub proof fn lemma_missing_extension_reason(c: DeviceCandidate, required: Seq<String>)
    requires
        some_graphics(c.queue_families@),
        some_presentation(c.queue_families@),
        !all_listed(c.extensions@, required),
    ensures
        spec_verdict(c, required) == Some(SuitabilityReason::MissingDeviceExtensions),
{
}

/// A device that passes the queue-family and extension checks but whose
/// probe reports an empty format list or an empty present-mode list is
/// rejected with the insufficient-swapchain-support reason; it never
/// counts as suitable.
pub proof fn lemma_inadequate_swapchain_reason(c: DeviceCandidate, required: Seq<String>)
    requires
        some_graphics(c.queue_families@),
        some_presentation(c.queue_families@),
        all_listed(c.extensions@, required),
        !c.swapchain.spec_adequate(),
    ensures
        spec_verdict(c, required) == Some(SuitabilityReason::InsufficientSwapchainSupport),
        !spec_suitable(c, required),
{
}

/// Selection is determined: when the device at position `k` is suitable
/// and every device before it is not, any index that satisfies the
/// selector's guarantee — suitable, with nothing suitable before it —
/// is exactly `k`. In particular, when only one device passes, the
/// selector returns that device's position.
pub proof fn lemma_selection_determined(
    candidates: Seq<DeviceCandidate>,
    required: Seq<String>,
    k: int,
    chosen: int,
)
    requires
        0 <= k < candidates.len(),
        spec_suitable(candidates[k], required),
        forall|j: int| 0 <= j < k ==> !spec_suitable(#[trigger] candidates[j], required),
        0 <= chosen < candidates.len(),
        spec_suitable(candidates[chosen], required),
        forall|j: int| 0 <= j < chosen ==> !spec_suitable(#[trigger] candidates[j], required),
    ensures
        chosen == k,
{
}

/// The outcome of physical-device selection: the position of the chosen
/// device in enumeration order, and the rejection verdicts of every
/// device scanned before it, in order, for the log.
#[derive(Clone, Debug)]
pub struct Selection {
    pub index: usize,
    pub skipped: Vec<SuitabilityError>,
}

/// The physical-device selector: applies the evaluator to the
/// candidates in enumeration order and accepts the first suitable one,
/// short-circuiting. Fails with the exhaustion error exactly when no
/// candidate is suitable — in particular when there are none at all.
pub fn select_physical_device(candidates: &Vec<DeviceCandidate>, required: &Vec<String>) -> (r:
    Result<Selection, InitError>)
    requires
        forall|i: int|
            0 <= i < candidates@.len() ==> (#[trigger] candidates@[i]).queue_families@.len()
                <= u32::MAX,
    ensures
        r is Ok <==> exists|i: int|
            0 <= i < candidates@.len() && spec_suitable(#[trigger] candidates@[i], required@),
        match r {
            Ok(sel) => {
                &&& sel.index < candidates@.len()
                &&& spec_suitable(candidates@[sel.index as int], required@)
                &&& forall|j: int|
                    0 <= j < sel.index ==> !spec_suitable(#[trigger] candidates@[j], required@)
                &&& sel.skipped@.len() == sel.index
                &&& forall|j: int|
                    0 <= j < sel.index ==> Some((#[trigger] sel.skipped@[j]).0) == spec_verdict(
                        candidates@[j],
                        required@,
                    )
            },
            Err(e) => e == InitError::NoSuitableDevice && forall|j: int|
                0 <= j < candidates@.len() ==> !spec_suitable(#[trigger] candidates@[j], required@),
        },
{
    let mut skipped: Vec<SuitabilityError> = Vec::new();
    let mut i: usize = 0;
    while i < candidates.len()
        invariant
            i <= candidates@.len(),
            skipped@.len() == i,
            forall|k: int|
                0 <= k < candidates@.len() ==> (#[trigger] candidates@[k]).queue_families@.len()
                    <= u32::MAX,
            forall|j: int| 0 <= j < i ==> !spec_suitable(#[trigger] candidates@[j], required@),
            forall|j: int|
                0 <= j < i ==> Some((#[trigger] skipped@[j]).0) == spec_verdict(
                    candidates@[j],
                    required@,
                ),
        decreases candidates@.len() - i,
    {
        match check_physical_device(&candidates[i], required) {
            Ok(_) => {
                return Ok(Selection { index: i, skipped });
            },
            Err(e) => {
                skipped.push(e);
            },
        }
        i += 1;
    }
    Err(InitError::NoSuitableDevice)
}

} // verus!
