//! Bring-up of the USB device engine on the board's differential pair.

use crate::clock::{ClockController, ClockError, Pm, UsbClock};
use crate::pin::{PAD_USB_DM, PAD_USB_DP, Pin, PinMode, Port};
use vstd::prelude::*;

verus! {

/// Ownership token for the USB engine. Non-duplicable: two bring-up calls
/// cannot both claim the engine. The application must create it at most
/// once, at startup.
pub struct UsbEngine {
    _own: (),
}

impl UsbEngine {
    /// Claims the USB engine. Must be called at most once per program.
    pub fn new() -> UsbEngine {
        UsbEngine { _own: () }
    }
}

/// A ready USB device bus on the one differential pair the board routes
/// to the engine: D- on pad PA24 and D+ on pad PA25, both in multiplexer
/// function G. The handle owns the two pins for its lifetime; there is no
/// teardown path.
pub struct UsbBus {
    usb: UsbEngine,
    clock: UsbClock,
    dm: Pin<PAD_USB_DM>,
    dp: Pin<PAD_USB_DP>,
}

impl UsbBus {
    /// The frequency of the clock branch driving the engine.
    pub closed spec fn clock_hz(self) -> u32 {
        self.clock.freq_hz()
    }

    /// The owned pins are wired to their signal function.
    pub closed spec fn wf(self) -> bool {
        &&& self.dm.mode() == PinMode::FunctionG
        &&& self.dp.mode() == PinMode::FunctionG
    }
}

/// Sets up the labelled USB pins as a USB device bus. The parameter types
/// affirm the one differential pair the board wires to the engine: only
/// usb_dm and usb_dp fit. Succeeds if and only if the USB clock branch is
/// still free; on failure the clock tree and the power manager are
/// unchanged.
pub fn usb_bus(
    usb: UsbEngine,
    clocks: &mut ClockController,
    pm: &mut Pm,
    dm: Pin<PAD_USB_DM>,
    dp: Pin<PAD_USB_DP>,
    port: &mut Port,
) -> (r: Result<UsbBus, ClockError>)
    requires
        dm.mode() == PinMode::FloatingInput,
        dp.mode() == PinMode::FloatingInput,
    ensures
        r is Err <==> old(clocks).usb_clock_taken(),
        old(clocks).usb_clock_taken() ==> r == Err::<UsbBus, ClockError>(
            ClockError::ClockUnavailable,
        ) && *final(clocks) == *old(clocks) && *final(pm) == *old(pm),
        !old(clocks).usb_clock_taken() ==> (r matches Ok(b) && b.wf()
            && b.clock_hz() == old(clocks).gclk0_hz()
            && final(clocks).usb_clock_taken()
            && final(clocks).gclk0_hz() == old(clocks).gclk0_hz()
            && final(clocks).sercom3_core_taken() == old(clocks).sercom3_core_taken()
            && final(clocks).sercom4_core_taken() == old(clocks).sercom4_core_taken()
            && final(pm).usb_enabled()
            && final(pm).sercom3_enabled() == old(pm).sercom3_enabled()
            && final(pm).sercom4_enabled() == old(pm).sercom4_enabled()),
{
    let gclk0 = clocks.gclk0();
    let usb_clock = match clocks.usb(&gclk0) {
        Some(c) => c,
        None => {
            return Err(ClockError::ClockUnavailable);
        },
    };
    pm.enable_usb();
    let dm = dm.into_function_g(port);
    let dp = dp.into_function_g(port);
    Ok(UsbBus { usb: usb, clock: usb_clock, dm: dm, dp: dp })
}

} // verus!
