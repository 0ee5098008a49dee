use vstd::prelude::*;

verus! {

/// The size of the window to open, in physical pixels.
#[derive(Clone, Copy, Debug, PartialEq, Eq)]
pub struct WinitSettings {
    pub window_width: u32,
    pub window_height: u32,
}

} // verus!
