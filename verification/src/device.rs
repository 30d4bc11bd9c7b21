use vstd::prelude::*;
use crate::extensions::{
    spec_instance_extensions, spec_instance_layers, spec_portability_enumeration_extension,
    spec_portability_subset_extension, views_of,
};
use crate::extensions::portability_subset_extension;
use crate::queue_family::QueueFamilyIndices;

verus! {

/// One queue-creation request handed to device creation: a family
/// index, asking for exactly one queue in that family. The embedding
/// program submits each request at the top queue priority.
#[derive(Clone, Copy, Debug, PartialEq, Eq, Structural)]
pub struct QueueCreateRequest {
    pub family_index: u32,
    pub queue_count: u32,
}

/// Builds the queue-creation requests for the resolved indices: one
/// request per unique family index, each for a single queue. When the
/// graphics and presentation indices coincide there is exactly one
/// request, never two.
pub fn build_queue_requests(indices: &QueueFamilyIndices) -> (r: Vec<QueueCreateRequest>)
    ensures
        r@[0] == (QueueCreateRequest { family_index: indices.graphics, queue_count: 1 }),
        indices.graphics == indices.presentation ==> r@.len() == 1,
        indices.graphics != indices.presentation ==> r@.len() == 2 && r@[1] == (QueueCreateRequest {
            family_index: indices.presentation,
            queue_count: 1,
        }),
        forall|i: int| 0 <= i < r@.len() ==> (#[trigger] r@[i]).queue_count == 1,
{
    let mut r: Vec<QueueCreateRequest> = Vec::new();
    r.push(QueueCreateRequest { family_index: indices.graphics, queue_count: 1 });
    if indices.presentation != indices.graphics {
        r.push(QueueCreateRequest { family_index: indices.presentation, queue_count: 1 });
    }
    r
}

/// The device extension list as a function of its inputs: the required
/// list, plus the portability-subset extension exactly on the
/// portability path.
pub open spec fn spec_device_extensions(required: Seq<Seq<char>>, portability: bool) -> Seq<
    Seq<char>,
> {
    required + if portability {
        seq![spec_portability_subset_extension()]
    } else {
        Seq::<Seq<char>>::empty()
    }
}

/// Appends the device-level portability extension to the required list
/// exactly when the portability path is taken.
pub fn device_extension_list(required: &Vec<String>, portability: bool) -> (r: Vec<String>)
    ensures
        views_of(r@) == spec_device_extensions(views_of(required@), portability),
        r@.len() == required@.len() + (if portability {
            1int
        } else {
            0int
        }),
{
    let mut r: Vec<String> = Vec::new();
    let mut i: usize = 0;
    while i < required.len()
        invariant
            i <= required@.len(),
            r@.len() == i,
            forall|j: int| 0 <= j < i ==> r@[j] == required@[j],
        decreases required@.len() - i,
    {
        r.push(required[i].clone());
        i += 1;
    }
    if portability {
        r.push(portability_subset_extension());
    }
    proof {
        assert(views_of(r@) =~= spec_device_extensions(views_of(required@), portability));
    }
    r
}

/// Everything logical-device creation needs beyond the selected device:
/// the queue-creation requests for the unique resolved indices, the
/// device extension list, and the layer list mirroring the
/// instance-level decision. The feature-enable set stays default/empty.
pub struct DeviceConfig {
    pub queue_requests: Vec<QueueCreateRequest>,
    pub extensions: Vec<String>,
    pub layers: Vec<String>,
}

/// The logical-device factory's decision half: deduplicates the
/// resolved indices into queue requests, extends the required extension
/// list on the portability path, and mirrors the instance-level layer
/// decision.
pub fn plan_logical_device(
    indices: &QueueFamilyIndices,
    required: &Vec<String>,
    diagnostics: bool,
    portability: bool,
) -> (c: DeviceConfig)
    ensures
        c.queue_requests@[0] == (QueueCreateRequest {
            family_index: indices.graphics,
            queue_count: 1,
        }),
        indices.graphics == indices.presentation ==> c.queue_requests@.len() == 1,
        indices.graphics != indices.presentation ==> c.queue_requests@.len() == 2
            && c.queue_requests@[1] == (QueueCreateRequest {
            family_index: indices.presentation,
            queue_count: 1,
        }),
        views_of(c.extensions@) == spec_device_extensions(views_of(required@), portability),
        views_of(c.layers@) == spec_instance_layers(diagnostics),
{
    let queue_requests = build_queue_requests(indices);
    let extensions = device_extension_list(required, portability);
    let mut layers: Vec<String> = Vec::new();
    if diagnostics {
        layers.push(crate::extensions::validation_layer());
    }
    proof {
        assert(views_of(layers@) =~= spec_instance_layers(diagnostics));
    }
    DeviceConfig { queue_requests, extensions, layers }
}

/// What the portability path adds. The device extension list gains
/// exactly one name beyond the base list — the portability-subset
/// extension — and is otherwise unchanged. The instance extension list
/// gains two names — the properties-query extension and then the
/// portability-enumeration extension — and is otherwise unchanged.
pub proof fn lemma_portability_deltas(
    window_extensions: Seq<Seq<char>>,
    required: Seq<Seq<char>>,
    diagnostics: bool,
)
    ensures
        spec_device_extensions(required, true).len() == spec_device_extensions(
            required,
            false,
        ).len() + 1,
        spec_device_extensions(required, true).last() == spec_portability_subset_extension(),
        spec_device_extensions(required, true).take(required.len() as int)
            == spec_device_extensions(required, false),
        spec_instance_extensions(window_extensions, diagnostics, true).len()
            == spec_instance_extensions(window_extensions, diagnostics, false).len() + 2,
        spec_instance_extensions(window_extensions, diagnostics, true).last()
            == spec_portability_enumeration_extension(),
        spec_instance_extensions(window_extensions, diagnostics, true).take(
            spec_instance_extensions(window_extensions, diagnostics, false).len() as int,
        ) == spec_instance_extensions(window_extensions, diagnostics, false),
{
    assert(spec_device_extensions(required, true).take(required.len() as int)
        =~= spec_device_extensions(required, false));
    assert(spec_instance_extensions(window_extensions, diagnostics, true).take(
        spec_instance_extensions(window_extensions, diagnostics, false).len() as int,
    ) =~= spec_instance_extensions(window_extensions, diagnostics, false));
}

} // verus!
