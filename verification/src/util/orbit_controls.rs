use vstd::prelude::*;
use crate::engine::service::{EnabledServices, ServiceType};

verus! {

/// Orbiting the camera follows the pointer, so it needs the mouse service:
/// this switches it on and leaves the other switches alone.
pub fn init_orbit_controls(enabled_services: &mut EnabledServices)
    ensures
        *final(enabled_services) == old(enabled_services).with(ServiceType::MouseService),
{
    enabled_services.enable(ServiceType::MouseService);
}

} // verus!
