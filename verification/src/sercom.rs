//! Bring-up of the shared serial engines: SPI master on SERCOM4 and I2C
//! master on SERCOM3. Each bring-up runs the fixed sequence base clock ->
//! derived core clock -> engine power -> pad reconfiguration -> handle.

use crate::clock::{ClockController, ClockError, Hertz, Pm, Sercom3CoreClock, Sercom4CoreClock};
use crate::pin::{PAD_MISO, PAD_MOSI, PAD_SCK, PAD_SCL, PAD_SDA, Pin, PinMode, Port};
use vstd::prelude::*;

verus! {

/// Ownership token for the SERCOM3 serial engine. Non-duplicable: two
/// bring-up calls cannot both claim the engine. The application must
/// create it at most once, at startup.
pub struct Sercom3 {
    _own: (),
}

impl Sercom3 {
    /// Claims the SERCOM3 engine. Must be called at most once per program.
    pub fn new() -> Sercom3 {
        Sercom3 { _own: () }
    }
}

/// Ownership token for the SERCOM4 serial engine. Non-duplicable: two
/// bring-up calls cannot both claim the engine. The application must
/// create it at most once, at startup.
pub struct Sercom4 {
    _own: (),
}

impl Sercom4 {
    /// Claims the SERCOM4 engine. Must be called at most once per program.
    pub fn new() -> Sercom4 {
        Sercom4 { _own: () }
    }
}

/// The clock phase of an SPI mode.
#[derive(Clone, Copy, PartialEq, Eq, Structural, Debug)]
pub enum Phase {
    /// Data is captured on the first clock transition of a pulse.
    CaptureOnFirstTransition,
    /// Data is captured on the second clock transition of a pulse.
    CaptureOnSecondTransition,
}

/// The idle clock polarity of an SPI mode.
#[derive(Clone, Copy, PartialEq, Eq, Structural, Debug)]
pub enum Polarity {
    /// The clock line idles low.
    IdleLow,
    /// The clock line idles high.
    IdleHigh,
}

/// An SPI operating mode: clock phase and polarity.
#[derive(Clone, Copy, PartialEq, Eq, Structural, Debug)]
pub struct SpiMode {
    /// The clock phase.
    pub phase: Phase,
    /// The idle clock polarity.
    pub polarity: Polarity,
}

/// SPI mode 0, the one operating mode the SPI bring-up ever configures:
/// capture on the first transition of a clock line that idles low.
pub open spec fn spi_mode_0() -> SpiMode {
    SpiMode { phase: Phase::CaptureOnFirstTransition, polarity: Polarity::IdleLow }
}

/// A ready SPI master on the SERCOM4 engine, wired as the board routes it:
/// controller-in on pad PA12, controller-out on pad PB10 and clock on pad
/// PB11, all in multiplexer function D. The handle owns the three pins for
/// its lifetime; there is no teardown path.
pub struct SpiMaster4 {
    sercom: Sercom4,
    clock: Sercom4CoreClock,
    mode: SpiMode,
    speed: Hertz,
    miso: Pin<PAD_MISO>,
    mosi: Pin<PAD_MOSI>,
    sck: Pin<PAD_SCK>,
}

impl SpiMaster4 {
    /// The operating mode the engine was configured with.
    pub closed spec fn configured_mode(self) -> SpiMode {
        self.mode
    }

    /// The bus speed the engine was configured with.
    pub closed spec fn configured_speed(self) -> Hertz {
        self.speed
    }

    /// The frequency of the core clock branch driving the engine.
    pub closed spec fn core_clock_hz(self) -> u32 {
        self.clock.freq_hz()
    }

    /// The owned pins are wired to their signal function.
    pub closed spec fn wf(self) -> bool {
        &&& self.miso.mode() == PinMode::FunctionD
        &&& self.mosi.mode() == PinMode::FunctionD
        &&& self.sck.mode() == PinMode::FunctionD
    }

    /// Reports the configured operating mode.
    pub fn mode(&self) -> (m: SpiMode)
        ensures
            m == self.configured_mode(),
    {
        self.mode
    }

    /// Reports the configured bus speed.
    pub fn speed(&self) -> (s: Hertz)
        ensures
            s == self.configured_speed(),
    {
        self.speed
    }
}

/// A ready I2C master on the SERCOM3 engine, wired as the board routes it:
/// data on pad PA22 and clock on pad PA23, both in multiplexer function C.
/// The handle owns the two pins for its lifetime; there is no teardown path.
pub struct I2cMaster3 {
    sercom: Sercom3,
    clock: Sercom3CoreClock,
    speed: Hertz,
    sda: Pin<PAD_SDA>,
    scl: Pin<PAD_SCL>,
}

impl I2cMaster3 {
    /// The bus speed the engine was configured with.
    pub closed spec fn configured_speed(self) -> Hertz {
        self.speed
    }

    /// The frequency of the core clock branch driving the engine.
    pub closed spec fn core_clock_hz(self) -> u32 {
        self.clock.freq_hz()
    }

    /// The owned pins are wired to their signal function.
    pub closed spec fn wf(self) -> bool {
        &&& self.sda.mode() == PinMode::FunctionC
        &&& self.scl.mode() == PinMode::FunctionC
    }

    /// Reports the configured bus speed.
    pub fn speed(&self) -> (s: Hertz)
        ensures
            s == self.configured_speed(),
    {
        self.speed
    }
}

/// Sets up the labelled SPI pins as an SPI master on the SERCOM4 engine,
/// always in SPI mode 0 and always as bus controller. The parameter types
/// pin the wiring: only the board's sck, mosi and miso pins fit, so the
/// engine cannot be built on swapped or foreign pads. Succeeds if and only
/// if the SERCOM4 core clock branch is still free; on failure the clock
/// tree and the power manager are unchanged.
pub fn spi_master(
    clocks: &mut ClockController,
    bus_speed: Hertz,
    sercom4: Sercom4,
    pm: &mut Pm,
    sck: Pin<PAD_SCK>,
    mosi: Pin<PAD_MOSI>,
    miso: Pin<PAD_MISO>,
    port: &mut Port,
) -> (r: Result<SpiMaster4, ClockError>)
    requires
        sck.mode() == PinMode::FloatingInput,
        mosi.mode() == PinMode::FloatingInput,
        miso.mode() == PinMode::FloatingInput,
    ensures
        r is Err <==> old(clocks).sercom4_core_taken(),
        old(clocks).sercom4_core_taken() ==> r == Err::<SpiMaster4, ClockError>(
            ClockError::ClockUnavailable,
        ) && *final(clocks) == *old(clocks) && *final(pm) == *old(pm),
        !old(clocks).sercom4_core_taken() ==> (r matches Ok(s) && s.wf()
            && s.configured_mode() == spi_mode_0()
            && s.configured_speed() == bus_speed
            && s.core_clock_hz() == old(clocks).gclk0_hz()
            && final(clocks).sercom4_core_taken()
            && final(clocks).gclk0_hz() == old(clocks).gclk0_hz()
            && final(clocks).sercom3_core_taken() == old(clocks).sercom3_core_taken()
            && final(clocks).usb_clock_taken() == old(clocks).usb_clock_taken()
            && final(pm).sercom4_enabled()
            && final(pm).sercom3_enabled() == old(pm).sercom3_enabled()
            && final(pm).usb_enabled() == old(pm).usb_enabled()),
{
    let gclk0 = clocks.gclk0();
    let core = match clocks.sercom4_core(&gclk0) {
        Some(c) => c,
        None => {
            return Err(ClockError::ClockUnavailable);
        },
    };
    pm.enable_sercom4();
    let miso = miso.into_function_d(port);
    let mosi = mosi.into_function_d(port);
    let sck = sck.into_function_d(port);
    Ok(
        SpiMaster4 {
            sercom: sercom4,
            clock: core,
            mode: SpiMode { phase: Phase::CaptureOnFirstTransition, polarity: Polarity::IdleLow },
            speed: bus_speed,
            miso: miso,
            mosi: mosi,
            sck: sck,
        },
    )
}

/// Sets up the labelled SDA and SCL pins as an I2C master on the SERCOM3
/// engine running at the requested bus speed. The parameter types pin the
/// wiring: only the board's sda and scl pins fit. Succeeds if and only if
/// the SERCOM3 core clock branch is still free; on failure the clock tree
/// and the power manager are unchanged.
pub fn i2c_master(
    clocks: &mut ClockController,
    bus_speed: Hertz,
    sercom3: Sercom3,
    pm: &mut Pm,
    sda: Pin<PAD_SDA>,
    scl: Pin<PAD_SCL>,
    port: &mut Port,
) -> (r: Result<I2cMaster3, ClockError>)
    requires
        sda.mode() == PinMode::FloatingInput,
        scl.mode() == PinMode::FloatingInput,
    ensures
        r is Err <==> old(clocks).sercom3_core_taken(),
        old(clocks).sercom3_core_taken() ==> r == Err::<I2cMaster3, ClockError>(
            ClockError::ClockUnavailable,
        ) && *final(clocks) == *old(clocks) && *final(pm) == *old(pm),
        !old(clocks).sercom3_core_taken() ==> (r matches Ok(i) && i.wf()
            && i.configured_speed() == bus_speed
            && i.core_clock_hz() == old(clocks).gclk0_hz()
            && final(clocks).sercom3_core_taken()
            && final(clocks).gclk0_hz() == old(clocks).gclk0_hz()
            && final(clocks).sercom4_core_taken() == old(clocks).sercom4_core_taken()
            && final(clocks).usb_clock_taken() == old(clocks).usb_clock_taken()
            && final(pm).sercom3_enabled()
            && final(pm).sercom4_enabled() == old(pm).sercom4_enabled()
            && final(pm).usb_enabled() == old(pm).usb_enabled()),
{
    let gclk0 = clocks.gclk0();
    let core = match clocks.sercom3_core(&gclk0) {
        Some(c) => c,
        None => {
            return Err(ClockError::ClockUnavailable);
        },
    };
    pm.enable_sercom3();
    let sda = sda.into_function_c(port);
    let scl = scl.into_function_c(port);
    Ok(I2cMaster3 { sercom: sercom3, clock: core, speed: bus_speed, sda: sda, scl: scl })
}

} // verus!
