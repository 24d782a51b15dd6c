//! What the controller is configured with: the hardware it is given and
//! the choices of its user.

pub mod customization;
pub mod peripherals;

use customization::Customization;
use peripherals::Peripherals;
use vstd::prelude::*;

verus! {

/// The whole configuration of a controller.
pub trait Configuration {
    type Peripherals: Peripherals;

    type Customization: Customization;

    /// The hardware. It can be asked for once.
    fn peripherals(&mut self) -> Self::Peripherals;

    /// The choices of the user.
    fn customization(&mut self) -> Self::Customization;
}

} // verus!
