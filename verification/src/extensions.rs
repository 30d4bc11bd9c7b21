use vstd::prelude::*;
use crate::errors::InitError;

verus! {

// ---------------------------------------------------------------------
// Name lists
// ---------------------------------------------------------------------

/// The views of a list of names: the same list, each name as its
/// character sequence.
pub open spec fn views_of(names: Seq<String>) -> Seq<Seq<char>> {
    names.map_values(|s: String| s@)
}

/// `target` occurs somewhere in `names`.
pub open spec fn name_listed(names: Seq<String>, target: Seq<char>) -> bool {
    exists|i: int| 0 <= i < names.len() && names[i]@ == target
}

/// Every name in `required` occurs in `available`.
pub open spec fn all_listed(available: Seq<String>, required: Seq<String>) -> bool {
    forall|i: int| 0 <= i < required.len() ==> name_listed(available, #[trigger] required[i]@)
}

/// Linear scan for one name.
pub fn contains_name(names: &Vec<String>, target: &String) -> (r: bool)
    ensures
        r == name_listed(names@, target@),
{
    let mut i: usize = 0;
    while i < names.len()
        invariant
            i <= names@.len(),
            forall|j: int| 0 <= j < i ==> names@[j]@ != target@,
        decreases names@.len() - i,
    {
        if names[i] == *target {
            return true;
        }
        i += 1;
    }
    false
}

/// Membership of every required name in the available set; the check
/// behind the extension-support verdict.
pub fn supports_all(available: &Vec<String>, required: &Vec<String>) -> (r: bool)
    ensures
        r == all_listed(available@, required@),
{
    let mut i: usize = 0;
    while i < required.len()
        invariant
            i <= required@.len(),
            forall|j: int| 0 <= j < i ==> name_listed(available@, #[trigger] required@[j]@),
        decreases required@.len() - i,
    {
        if !contains_name(available, &required[i]) {
            return false;
        }
        i += 1;
    }
    true
}

// ---------------------------------------------------------------------
// The well-known extension and layer names
// ---------------------------------------------------------------------

/// The single validation layer enabled when diagnostics are on.
pub open spec fn spec_validation_layer() -> Seq<char> {
    "VK_LAYER_KHRONOS_validation"@
}

/// The instance extension that carries diagnostic messages.
pub open spec fn spec_debug_utils_extension() -> Seq<char> {
    "VK_EXT_debug_utils"@
}

/// The first instance extension of the portability path.
pub open spec fn spec_properties2_extension() -> Seq<char> {
    "VK_KHR_get_physical_device_properties2"@
}

/// The second instance extension of the portability path.
pub open spec fn spec_portability_enumeration_extension() -> Seq<char> {
    "VK_KHR_portability_enumeration"@
}

/// The device-level extension of the portability path.
pub open spec fn spec_portability_subset_extension() -> Seq<char> {
    "VK_KHR_portability_subset"@
}

/// The one device extension required of every candidate device.
pub open spec fn spec_swapchain_extension() -> Seq<char> {
    "VK_KHR_swapchain"@
}

/// The validation layer name, as the driver spells it.
pub fn validation_layer() -> (r: String)
    ensures
        r@ == spec_validation_layer(),
{
    "VK_LAYER_KHRONOS_validation".to_owned()
}

/// The diagnostics instance extension name.
pub fn debug_utils_extension() -> (r: String)
    ensures
        r@ == spec_debug_utils_extension(),
{
    "VK_EXT_debug_utils".to_owned()
}

/// The properties-query instance extension name of the portability path.
pub fn properties2_extension() -> (r: String)
    ensures
        r@ == spec_properties2_extension(),
{
    "VK_KHR_get_physical_device_properties2".to_owned()
}

/// The portability-enumeration instance extension name.
pub fn portability_enumeration_extension() -> (r: String)
    ensures
        r@ == spec_portability_enumeration_extension(),
{
    "VK_KHR_portability_enumeration".to_owned()
}

/// The device-level portability extension name.
pub fn portability_subset_extension() -> (r: String)
    ensures
        r@ == spec_portability_subset_extension(),
{
    "VK_KHR_portability_subset".to_owned()
}

/// The device extensions every candidate must enumerate: exactly the
/// swapchain extension.
pub fn required_device_extensions() -> (r: Vec<String>)
    ensures
        views_of(r@) == seq![spec_swapchain_extension()],
{
    let mut r: Vec<String> = Vec::new();
    r.push("VK_KHR_swapchain".to_owned());
    proof {
        assert(views_of(r@) =~= seq![spec_swapchain_extension()]);
    }
    r
}

// ---------------------------------------------------------------------
// Instance negotiation
// ---------------------------------------------------------------------

/// The instance extension list as a function of its inputs: the
/// windowing-required names, then the diagnostics extension when
/// diagnostics are on, then the two portability extensions when the
/// portability path is taken.
pub open spec fn spec_instance_extensions(
    window_extensions: Seq<Seq<char>>,
    diagnostics: bool,
    portability: bool,
) -> Seq<Seq<char>> {
    window_extensions + (if diagnostics {
        seq![spec_debug_utils_extension()]
    } else {
        Seq::<Seq<char>>::empty()
    }) + (if portability {
        seq![spec_properties2_extension(), spec_portability_enumeration_extension()]
    } else {
        Seq::<Seq<char>>::empty()
    })
}

/// The instance layer list as a function of the diagnostics flag: the
/// validation layer alone when diagnostics are on, nothing otherwise.
pub open spec fn spec_instance_layers(diagnostics: bool) -> Seq<Seq<char>> {
    if diagnostics {
        seq![spec_validation_layer()]
    } else {
        Seq::<Seq<char>>::empty()
    }
}

/// Everything instance creation needs beyond the fixed application
/// constants: the negotiated extension list, the negotiated layer list,
/// and whether the portability-enumeration flag must be set on the
/// create call.
pub struct InstanceConfig {
    pub extensions: Vec<String>,
    pub layers: Vec<String>,
    pub portability_flag: bool,
}

/// The extension/layer negotiator. Starts from the windowing-required
/// extension list, appends the diagnostics extension when diagnostics
/// are enabled, and on the portability path appends the two portability
/// extensions and demands the portability-enumeration flag. The layer
/// list is the validation layer exactly when diagnostics are enabled.
pub fn negotiate_instance_config(
    window_extensions: &Vec<String>,
    diagnostics: bool,
    portability: bool,
) -> (c: InstanceConfig)
    ensures
        views_of(c.extensions@) == spec_instance_extensions(
            views_of(window_extensions@),
            diagnostics,
            portability,
        ),
        views_of(c.layers@) == spec_instance_layers(diagnostics),
        c.portability_flag == portability,
        c.extensions@.len() == window_extensions@.len() + (if diagnostics {
            1int
        } else {
            0int
        }) + (if portability {
            2int
        } else {
            0int
        }),
        c.layers@.len() == (if diagnostics {
            1int
        } else {
            0int
        }),
{
    let mut extensions: Vec<String> = Vec::new();
    let mut i: usize = 0;
    while i < window_extensions.len()
        invariant
            i <= window_extensions@.len(),
            extensions@.len() == i,
            forall|j: int| 0 <= j < i ==> extensions@[j] == window_extensions@[j],
        decreases window_extensions@.len() - i,
    {
        extensions.push(window_extensions[i].clone());
        i += 1;
    }
    if diagnostics {
        extensions.push(debug_utils_extension());
    }
    if portability {
        extensions.push(properties2_extension());
        extensions.push(portability_enumeration_extension());
    }
    let mut layers: Vec<String> = Vec::new();
    if diagnostics {
        layers.push(validation_layer());
    }
    proof {
        assert(views_of(extensions@) =~= spec_instance_extensions(
            views_of(window_extensions@),
            diagnostics,
            portability,
        ));
        assert(views_of(layers@) =~= spec_instance_layers(diagnostics));
    }
    InstanceConfig { extensions, layers, portability_flag: portability }
}

/// Whether the validation layer is among the driver's available layers.
pub fn validation_layer_available(available_layers: &Vec<String>) -> (r: bool)
    ensures
        r == name_listed(available_layers@, spec_validation_layer()),
{
    let layer = validation_layer();
    contains_name(available_layers, &layer)
}

/// The instance factory's layer gate, checked before any creation call:
/// with diagnostics enabled the validation layer must be among the
/// driver's enumerated available layers, and its absence is the fatal
/// missing-layer error; with diagnostics disabled nothing is required.
pub fn check_validation_layer_support(
    diagnostics: bool,
    available_layers: &Vec<String>,
) -> (r: Result<(), InitError>)
    ensures
        r is Ok <==> (!diagnostics || name_listed(available_layers@, spec_validation_layer())),
        r matches Err(e) ==> e == InitError::MissingValidationLayer,
{
    if diagnostics && !validation_layer_available(available_layers) {
        Err(InitError::MissingValidationLayer)
    } else {
        Ok(())
    }
}

} // verus!
