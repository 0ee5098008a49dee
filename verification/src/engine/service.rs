use vstd::prelude::*;

verus! {

/// The optional services an application can switch on.
#[derive(Clone, Copy, Debug, PartialEq, Eq)]
pub enum ServiceType {
    MouseService,
    TweeningService,
}

/// Which services are switched on.
#[derive(Clone, Copy, Debug, PartialEq, Eq)]
pub struct EnabledServices {
    pub mouse_service: bool,
    pub tweening_service: bool,
}

impl Default for EnabledServices {
    /// Nothing is switched on at the start.
    fn default() -> (r: Self)
        ensures
            !r.mouse_service,
            !r.tweening_service,
    {
        Self { mouse_service: false, tweening_service: false }
    }
}

impl EnabledServices {
    /// The switches once `service` is on as well.
    pub open spec fn with(self, service: ServiceType) -> EnabledServices {
        match service {
            ServiceType::MouseService => EnabledServices { mouse_service: true, ..self },
            ServiceType::TweeningService => EnabledServices { tweening_service: true, ..self },
        }
    }

    /// Switches `service` on and hands the switches back for chaining.
    pub fn enable(&mut self, service: ServiceType) -> (r: &mut Self)
        ensures
            *r == old(self).with(service),
            *final(self) == *final(r),
    {
        match service {
            ServiceType::MouseService => self.mouse_service = true,
            ServiceType::TweeningService => self.tweening_service = true,
        };
        self
    }
}

} // verus!
