use vstd::prelude::*;

verus! {

/// One step of the teardown sequence. Each step destroys one handle of
/// the ownership chain.
#[derive(Clone, Copy, Debug, PartialEq, Eq, Structural)]
pub enum DestroyStep {
    Device,
    Surface,
    Messenger,
    Instance,
}

/// The teardown plan: the strict reverse of the creation order. With
/// diagnostics enabled the plan is device, surface, messenger,
/// instance; with diagnostics disabled the messenger step never
/// appears and the plan is device, surface, instance. The embedding
/// program executes the steps in the returned order.
pub fn teardown_plan(diagnostics_enabled: bool) -> (r: Vec<DestroyStep>)
    ensures
        diagnostics_enabled ==> r@ == seq![
            DestroyStep::Device,
            DestroyStep::Surface,
            DestroyStep::Messenger,
            DestroyStep::Instance,
        ],
        !diagnostics_enabled ==> r@ == seq![
            DestroyStep::Device,
            DestroyStep::Surface,
            DestroyStep::Instance,
        ],
{
    let mut r: Vec<DestroyStep> = Vec::new();
    r.push(DestroyStep::Device);
    r.push(DestroyStep::Surface);
    if diagnostics_enabled {
        r.push(DestroyStep::Messenger);
    }
    r.push(DestroyStep::Instance);
    proof {
        if diagnostics_enabled {
            assert(r@ =~= seq![
                DestroyStep::Device,
                DestroyStep::Surface,
                DestroyStep::Messenger,
                DestroyStep::Instance,
            ]);
        } else {
            assert(r@ =~= seq![DestroyStep::Device, DestroyStep::Surface, DestroyStep::Instance]);
        }
    }
    r
}

} // verus!
