//! The shared clock and power-management singletons: the base clock
//! source, the one-shot derivation of peripheral core clocks, and the
//! power manager that gates each peripheral engine.

use vstd::prelude::*;

verus! {

/// A frequency in hertz.
#[derive(Clone, Copy, PartialEq, Eq, Structural, Debug)]
pub struct Hertz(pub u32);

impl Hertz {
    /// `k` kilohertz, as hertz.
    pub fn from_khz(k: u32) -> (r: Hertz)
        requires
            k * 1000 <= u32::MAX,
        ensures
            r.0 == k * 1000,
    {
        Hertz(k * 1000)
    }

    /// `m` megahertz, as hertz.
    pub fn from_mhz(m: u32) -> (r: Hertz)
        requires
            m * 1000000 <= u32::MAX,
        ensures
            r.0 == m * 1000000,
    {
        Hertz(m * 1000000)
    }
}

/// Read-only handle on generic clock generator 0, the board's primary
/// clock source; carries the frequency peripheral clocks derive from.
#[derive(Clone, Copy)]
pub struct Gclk0 {
    freq_hz: u32,
}

impl Gclk0 {
    /// The generator's output frequency, in hertz.
    pub closed spec fn freq_hz(self) -> u32 {
        self.freq_hz
    }
}

/// The derived core clock of the SERCOM3 engine.
pub struct Sercom3CoreClock {
    freq_hz: u32,
}

impl Sercom3CoreClock {
    /// The derived branch frequency, in hertz.
    pub closed spec fn freq_hz(self) -> u32 {
        self.freq_hz
    }
}

/// The derived core clock of the SERCOM4 engine.
pub struct Sercom4CoreClock {
    freq_hz: u32,
}

impl Sercom4CoreClock {
    /// The derived branch frequency, in hertz.
    pub closed spec fn freq_hz(self) -> u32 {
        self.freq_hz
    }
}

/// The derived clock of the USB engine.
pub struct UsbClock {
    freq_hz: u32,
}

impl UsbClock {
    /// The derived branch frequency, in hertz.
    pub closed spec fn freq_hz(self) -> u32 {
        self.freq_hz
    }
}

/// The shared clock-tree singleton. Each peripheral core clock can be
/// derived from the base source exactly once; a second derivation finds
/// the branch already allocated and fails.
pub struct ClockController {
    gclk0_hz: u32,
    sercom3_core_taken: bool,
    sercom4_core_taken: bool,
    usb_clock_taken: bool,
}

impl ClockController {
    /// The frequency of generic clock generator 0, in hertz.
    pub closed spec fn gclk0_hz(self) -> u32 {
        self.gclk0_hz
    }

    /// Whether the SERCOM3 core clock branch has already been derived.
    pub closed spec fn sercom3_core_taken(self) -> bool {
        self.sercom3_core_taken
    }

    /// Whether the SERCOM4 core clock branch has already been derived.
    pub closed spec fn sercom4_core_taken(self) -> bool {
        self.sercom4_core_taken
    }

    /// Whether the USB clock branch has already been derived.
    pub closed spec fn usb_clock_taken(self) -> bool {
        self.usb_clock_taken
    }

    /// Claims the clock tree, with generic clock generator 0 running at
    /// `gclk0` and no peripheral branch derived yet. Must be called at
    /// most once per program.
    pub fn new(gclk0: Hertz) -> (c: ClockController)
        ensures
            c.gclk0_hz() == gclk0.0,
            !c.sercom3_core_taken(),
            !c.sercom4_core_taken(),
            !c.usb_clock_taken(),
    {
        ClockController {
            gclk0_hz: gclk0.0,
            sercom3_core_taken: false,
            sercom4_core_taken: false,
            usb_clock_taken: false,
        }
    }

    /// The board's primary clock source (shared, read-only).
    pub fn gclk0(&self) -> (g: Gclk0)
        ensures
            g.freq_hz() == self.gclk0_hz(),
    {
        Gclk0 { freq_hz: self.gclk0_hz }
    }

    /// Derives the SERCOM3 core clock from the given source. Succeeds if
    /// and only if that branch has not been derived before; on failure
    /// the clock tree is unchanged.
    pub fn sercom3_core(&mut self, gclk: &Gclk0) -> (r: Option<Sercom3CoreClock>)
        ensures
            old(self).sercom3_core_taken() ==> r is None && *final(self) == *old(self),
            !old(self).sercom3_core_taken() ==> (r matches Some(c) && c.freq_hz() == gclk.freq_hz()
                && final(self).sercom3_core_taken()
                && final(self).gclk0_hz() == old(self).gclk0_hz()
                && final(self).sercom4_core_taken() == old(self).sercom4_core_taken()
                && final(self).usb_clock_taken() == old(self).usb_clock_taken()),
    {
        if self.sercom3_core_taken {
            None
        } else {
            self.sercom3_core_taken = true;
            Some(Sercom3CoreClock { freq_hz: gclk.freq_hz })
        }
    }

    /// Derives the SERCOM4 core clock from the given source. Succeeds if
    /// and only if that branch has not been derived before; on failure
    /// the clock tree is unchanged.
    pub fn sercom4_core(&mut self, gclk: &Gclk0) -> (r: Option<Sercom4CoreClock>)
        ensures
            old(self).sercom4_core_taken() ==> r is None && *final(self) == *old(self),
            !old(self).sercom4_core_taken() ==> (r matches Some(c) && c.freq_hz() == gclk.freq_hz()
                && final(self).sercom4_core_taken()
                && final(self).gclk0_hz() == old(self).gclk0_hz()
                && final(self).sercom3_core_taken() == old(self).sercom3_core_taken()
                && final(self).usb_clock_taken() == old(self).usb_clock_taken()),
    {
        if self.sercom4_core_taken {
            None
        } else {
            self.sercom4_core_taken = true;
            Some(Sercom4CoreClock { freq_hz: gclk.freq_hz })
        }
    }

    /// Derives the USB clock from the given source. Succeeds if and only
    /// if that branch has not been derived before; on failure the clock
    /// tree is unchanged.
    pub fn usb(&mut self, gclk: &Gclk0) -> (r: Option<UsbClock>)
        ensures
            old(self).usb_clock_taken() ==> r is None && *final(self) == *old(self),
            !old(self).usb_clock_taken() ==> (r matches Some(c) && c.freq_hz() == gclk.freq_hz()
                && final(self).usb_clock_taken()
                && final(self).gclk0_hz() == old(self).gclk0_hz()
                && final(self).sercom3_core_taken() == old(self).sercom3_core_taken()
                && final(self).sercom4_core_taken() == old(self).sercom4_core_taken()),
    {
        if self.usb_clock_taken {
            None
        } else {
            self.usb_clock_taken = true;
            Some(UsbClock { freq_hz: gclk.freq_hz })
        }
    }

    /// Reports whether the SERCOM3 core clock branch is already derived.
    pub fn is_sercom3_core_taken(&self) -> (b: bool)
        ensures
            b == self.sercom3_core_taken(),
    {
        self.sercom3_core_taken
    }

    /// Reports whether the SERCOM4 core clock branch is already derived.
    pub fn is_sercom4_core_taken(&self) -> (b: bool)
        ensures
            b == self.sercom4_core_taken(),
    {
        self.sercom4_core_taken
    }

    /// Reports whether the USB clock branch is already derived.
    pub fn is_usb_clock_taken(&self) -> (b: bool)
        ensures
            b == self.usb_clock_taken(),
    {
        self.usb_clock_taken
    }
}

/// The shared power-management singleton: gates the bus clock of each
/// peripheral engine. Enabling is a register-level side effect that is
/// defined to always succeed, and this layer provides no teardown path.
pub struct Pm {
    sercom3_enabled: bool,
    sercom4_enabled: bool,
    usb_enabled: bool,
}

impl Pm {
    /// Whether the SERCOM3 engine is powered.
    pub closed spec fn sercom3_enabled(self) -> bool {
        self.sercom3_enabled
    }

    /// Whether the SERCOM4 engine is powered.
    pub closed spec fn sercom4_enabled(self) -> bool {
        self.sercom4_enabled
    }

    /// Whether the USB engine is powered.
    pub closed spec fn usb_enabled(self) -> bool {
        self.usb_enabled
    }

    /// Claims the power manager, with every engine still unpowered.
    /// Must be called at most once per program.
    pub fn new() -> (p: Pm)
        ensures
            !p.sercom3_enabled(),
            !p.sercom4_enabled(),
            !p.usb_enabled(),
    {
        Pm { sercom3_enabled: false, sercom4_enabled: false, usb_enabled: false }
    }

    /// Powers the SERCOM3 engine on.
    pub(crate) fn enable_sercom3(&mut self)
        ensures
            final(self).sercom3_enabled(),
            final(self).sercom4_enabled() == old(self).sercom4_enabled(),
            final(self).usb_enabled() == old(self).usb_enabled(),
    {
        self.sercom3_enabled = true;
    }

    /// Powers the SERCOM4 engine on.
    pub(crate) fn enable_sercom4(&mut self)
        ensures
            final(self).sercom4_enabled(),
            final(self).sercom3_enabled() == old(self).sercom3_enabled(),
            final(self).usb_enabled() == old(self).usb_enabled(),
    {
        self.sercom4_enabled = true;
    }

    /// Powers the USB engine on.
    pub(crate) fn enable_usb(&mut self)
        ensures
            final(self).usb_enabled(),
            final(self).sercom3_enabled() == old(self).sercom3_enabled(),
            final(self).sercom4_enabled() == old(self).sercom4_enabled(),
    {
        self.usb_enabled = true;
    }

    /// Reports whether the SERCOM3 engine is powered.
    pub fn is_sercom3_enabled(&self) -> (b: bool)
        ensures
            b == self.sercom3_enabled(),
    {
        self.sercom3_enabled
    }

    /// Reports whether the SERCOM4 engine is powered.
    pub fn is_sercom4_enabled(&self) -> (b: bool)
        ensures
            b == self.sercom4_enabled(),
    {
        self.sercom4_enabled
    }

    /// Reports whether the USB engine is powered.
    pub fn is_usb_enabled(&self) -> (b: bool)
        ensures
            b == self.usb_enabled(),
    {
        self.usb_enabled
    }
}

/// The one runtime failure this layer can observe: deriving a peripheral
/// clock branch found the branch already allocated. Surfaced to the
/// caller of a bring-up function instead of halting.
#[derive(Clone, Copy, PartialEq, Eq, Structural, Debug)]
pub enum ClockError {
    /// The requested peripheral clock branch was already derived.
    ClockUnavailable,
}

} // verus!
