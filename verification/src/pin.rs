//! The pin registry: the fixed table from the board's silkscreen names to
//! silicon pads, the pad-bound pin handle, and the one-time `Pins` aggregate.

use vstd::prelude::*;

verus! {

/// Pad code of analog pin 0 (pad PA02).
pub const PAD_A0: u8 = 2;
/// Pad code of analog pin 1 (pad PB08).
pub const PAD_A1: u8 = 40;
/// Pad code of analog pin 2 (pad PB09).
pub const PAD_A2: u8 = 41;
/// Pad code of analog pin 3 (pad PA04).
pub const PAD_A3: u8 = 4;
/// Pad code of analog pin 4 (pad PA05).
pub const PAD_A4: u8 = 5;
/// Pad code of analog pin 5 (pad PB02).
pub const PAD_A5: u8 = 34;
/// Pad code of digital pin 0 (pad PA11).
pub const PAD_D0: u8 = 11;
/// Pad code of digital pin 1 (pad PA10).
pub const PAD_D1: u8 = 10;
/// Pad code of digital pin 5 (pad PA15).
pub const PAD_D5: u8 = 15;
/// Pad code of digital pin 6 (pad PA20).
pub const PAD_D6: u8 = 20;
/// Pad code of digital pin 9 (pad PA07).
pub const PAD_D9: u8 = 7;
/// Pad code of digital pin 10 (pad PA18).
pub const PAD_D10: u8 = 18;
/// Pad code of digital pin 11 (pad PA16).
pub const PAD_D11: u8 = 16;
/// Pad code of digital pin 12 (pad PA19).
pub const PAD_D12: u8 = 19;
/// Pad code of digital pin 13 (pad PA17).
pub const PAD_D13: u8 = 17;
/// Pad code of the I2C data line (pad PA22).
pub const PAD_SDA: u8 = 22;
/// Pad code of the I2C clock line (pad PA23).
pub const PAD_SCL: u8 = 23;
/// Pad code of the SPI clock line (pad PB11).
pub const PAD_SCK: u8 = 43;
/// Pad code of the SPI controller-out line (pad PB10).
pub const PAD_MOSI: u8 = 42;
/// Pad code of the SPI controller-in line (pad PA12).
pub const PAD_MISO: u8 = 12;
/// Pad code of the USB D- line (pad PA24).
pub const PAD_USB_DM: u8 = 24;
/// Pad code of the USB D+ line (pad PA25).
pub const PAD_USB_DP: u8 = 25;

/// The board's silkscreen pin names.
#[derive(Clone, Copy, PartialEq, Eq, Structural, Debug)]
pub enum PinName {
    /// Analog pin 0. Can act as a true analog output as it has a DAC
    /// (not exposed by this layer) as well as input.
    A0,
    /// Analog pin 1.
    A1,
    /// Analog pin 2.
    A2,
    /// Analog pin 3.
    A3,
    /// Analog pin 4.
    A4,
    /// Analog pin 5.
    A5,
    /// Digital pin 0, rx.
    D0,
    /// Digital pin 1, tx.
    D1,
    /// Digital pin 5, PWM capable.
    D5,
    /// Digital pin 6, PWM capable.
    D6,
    /// Digital pin 9, PWM capable. Also analog input (A7).
    D9,
    /// Digital pin 10, PWM capable.
    D10,
    /// Digital pin 11, PWM capable.
    D11,
    /// Digital pin 12, PWM capable.
    D12,
    /// Digital pin 13, which is also attached to the red LED. PWM capable.
    D13,
    /// The I2C data line.
    Sda,
    /// The I2C clock line.
    Scl,
    /// The SPI clock line.
    Sck,
    /// The SPI controller-out line.
    Mosi,
    /// The SPI controller-in line.
    Miso,
    /// The USB D- line.
    UsbDm,
    /// The USB D+ line.
    UsbDp,
}

/// The electrical capability state of a pad.
#[derive(Clone, Copy, PartialEq, Eq, Structural, Debug)]
pub enum PinMode {
    /// Default post-reset state: floating digital input.
    FloatingInput,
    /// Peripheral multiplexer function C (SERCOM).
    FunctionC,
    /// Peripheral multiplexer function D (SERCOM alternate).
    FunctionD,
    /// Peripheral multiplexer function G (USB).
    FunctionG,
}

/// Ownership token for the whole GPIO subsystem, as handed over by the
/// silicon at reset. The application must create it exactly once, at
/// startup, and hand it to [`Pins::new`].
pub struct PortController {
    _own: (),
}

impl PortController {
    /// Claims the GPIO subsystem. Must be called at most once per program:
    /// the returned token stands for exclusive ownership of every pad.
    pub fn new() -> PortController {
        PortController { _own: () }
    }
}

/// Exclusive access to the pad-multiplexer registers, needed to move a pin
/// from one capability state to another. Obtained only by splitting a
/// [`PortController`] through [`Pins::new`].
pub struct Port {
    _own: (),
}

/// A pad-bound pin handle. The const parameter is the pad code: bank A
/// pads are `0..=31`, bank B pads are `32 + index`. Ownership is linear:
/// the handle is neither `Copy` nor `Clone`, and every reconfiguration
/// consumes it, so no two consumers can hold the same pad at once.
pub struct Pin<const PAD: u8> {
    state: PinMode,
}

impl<const PAD: u8> Pin<PAD> {
    /// The pad this handle is bound to.
    pub open spec fn pad(self) -> u8 {
        PAD
    }

    /// The capability state the pad is currently configured in.
    pub closed spec fn mode(self) -> PinMode {
        self.state
    }

    /// Reports the current capability state.
    pub fn current_mode(&self) -> (m: PinMode)
        ensures
            m == self.mode(),
    {
        self.state
    }

    /// Rewires the pad to peripheral multiplexer function C (SERCOM),
    /// consuming the handle: the pad cannot be claimed twice.
    pub fn into_function_c(self, _port: &mut Port) -> (r: Pin<PAD>)
        ensures
            r.mode() == PinMode::FunctionC,
    {
        Pin { state: PinMode::FunctionC }
    }

    /// Rewires the pad to peripheral multiplexer function D (SERCOM
    /// alternate), consuming the handle: the pad cannot be claimed twice.
    pub fn into_function_d(self, _port: &mut Port) -> (r: Pin<PAD>)
        ensures
            r.mode() == PinMode::FunctionD,
    {
        Pin { state: PinMode::FunctionD }
    }

    /// Rewires the pad to peripheral multiplexer function G (USB),
    /// consuming the handle: the pad cannot be claimed twice.
    pub fn into_function_g(self, _port: &mut Port) -> (r: Pin<PAD>)
        ensures
            r.mode() == PinMode::FunctionG,
    {
        Pin { state: PinMode::FunctionG }
    }
}

/// The board's wiring table: the pad each silkscreen name is routed to.
/// Fixed by the board layout; total over the declared names.
pub open spec fn pad_of_name(n: PinName) -> u8 {
    match n {
        PinName::A0 => PAD_A0,
        PinName::A1 => PAD_A1,
        PinName::A2 => PAD_A2,
        PinName::A3 => PAD_A3,
        PinName::A4 => PAD_A4,
        PinName::A5 => PAD_A5,
        PinName::D0 => PAD_D0,
        PinName::D1 => PAD_D1,
        PinName::D5 => PAD_D5,
        PinName::D6 => PAD_D6,
        PinName::D9 => PAD_D9,
        PinName::D10 => PAD_D10,
        PinName::D11 => PAD_D11,
        PinName::D12 => PAD_D12,
        PinName::D13 => PAD_D13,
        PinName::Sda => PAD_SDA,
        PinName::Scl => PAD_SCL,
        PinName::Sck => PAD_SCK,
        PinName::Mosi => PAD_MOSI,
        PinName::Miso => PAD_MISO,
        PinName::UsbDm => PAD_USB_DM,
        PinName::UsbDp => PAD_USB_DP,
    }
}

/// Looks a silkscreen name up in the wiring table.
pub fn pad_of(n: PinName) -> (p: u8)
    ensures
        p == pad_of_name(n),
{
    match n {
        PinName::A0 => PAD_A0,
        PinName::A1 => PAD_A1,
        PinName::A2 => PAD_A2,
        PinName::A3 => PAD_A3,
        PinName::A4 => PAD_A4,
        PinName::A5 => PAD_A5,
        PinName::D0 => PAD_D0,
        PinName::D1 => PAD_D1,
        PinName::D5 => PAD_D5,
        PinName::D6 => PAD_D6,
        PinName::D9 => PAD_D9,
        PinName::D10 => PAD_D10,
        PinName::D11 => PAD_D11,
        PinName::D12 => PAD_D12,
        PinName::D13 => PAD_D13,
        PinName::Sda => PAD_SDA,
        PinName::Scl => PAD_SCL,
        PinName::Sck => PAD_SCK,
        PinName::Mosi => PAD_MOSI,
        PinName::Miso => PAD_MISO,
        PinName::UsbDm => PAD_USB_DM,
        PinName::UsbDp => PAD_USB_DP,
    }
}

/// The wiring table never routes two distinct silkscreen names to the
/// same pad: the name-to-pad mapping is injective, so together with its
/// totality it is a bijection between the declared names and their pads.
pub proof fn lemma_pad_table_injective(m: PinName, n: PinName)
    ensures
        pad_of_name(m) == pad_of_name(n) ==> m == n,
{
}

/// One exclusively-owned handle per silkscreen name, built exactly once
/// per program from the port controller. Each field may be moved out by
/// the application; after the move the aggregate no longer holds that pin,
/// and a second extraction is rejected by the compiler, because the pin
/// handles are neither `Copy` nor `Clone`.
pub struct Pins {
    /// Exclusive access to the pad multiplexer, for later reconfiguration.
    pub port: Port,
    /// Analog pin 0. Has a DAC (not exposed by this layer).
    pub a0: Pin<PAD_A0>,
    /// Analog pin 1.
    pub a1: Pin<PAD_A1>,
    /// Analog pin 2.
    pub a2: Pin<PAD_A2>,
    /// Analog pin 3.
    pub a3: Pin<PAD_A3>,
    /// Analog pin 4.
    pub a4: Pin<PAD_A4>,
    /// Analog pin 5.
    pub a5: Pin<PAD_A5>,
    /// Digital pin 0, rx.
    pub d0: Pin<PAD_D0>,
    /// Digital pin 1, tx.
    pub d1: Pin<PAD_D1>,
    /// Digital pin 5, PWM capable.
    pub d5: Pin<PAD_D5>,
    /// Digital pin 6, PWM capable.
    pub d6: Pin<PAD_D6>,
    /// Digital pin 9, PWM capable. Also analog input (A7).
    pub d9: Pin<PAD_D9>,
    /// Digital pin 10, PWM capable.
    pub d10: Pin<PAD_D10>,
    /// Digital pin 11, PWM capable.
    pub d11: Pin<PAD_D11>,
    /// Digital pin 12, PWM capable.
    pub d12: Pin<PAD_D12>,
    /// Digital pin 13, also attached to the red LED. PWM capable.
    pub d13: Pin<PAD_D13>,
    /// The I2C data line.
    pub sda: Pin<PAD_SDA>,
    /// The I2C clock line.
    pub scl: Pin<PAD_SCL>,
    /// The SPI clock line.
    pub sck: Pin<PAD_SCK>,
    /// The SPI controller-out line.
    pub mosi: Pin<PAD_MOSI>,
    /// The SPI controller-in line.
    pub miso: Pin<PAD_MISO>,
    /// The USB D- line.
    pub usb_dm: Pin<PAD_USB_DM>,
    /// The USB D+ line.
    pub usb_dp: Pin<PAD_USB_DP>,
}

impl Pins {
    /// All handles are still in the default post-reset capability state.
    pub open spec fn all_floating(self) -> bool {
        &&& self.a0.mode() == PinMode::FloatingInput
        &&& self.a1.mode() == PinMode::FloatingInput
        &&& self.a2.mode() == PinMode::FloatingInput
        &&& self.a3.mode() == PinMode::FloatingInput
        &&& self.a4.mode() == PinMode::FloatingInput
        &&& self.a5.mode() == PinMode::FloatingInput
        &&& self.d0.mode() == PinMode::FloatingInput
        &&& self.d1.mode() == PinMode::FloatingInput
        &&& self.d5.mode() == PinMode::FloatingInput
        &&& self.d6.mode() == PinMode::FloatingInput
        &&& self.d9.mode() == PinMode::FloatingInput
        &&& self.d10.mode() == PinMode::FloatingInput
        &&& self.d11.mode() == PinMode::FloatingInput
        &&& self.d12.mode() == PinMode::FloatingInput
        &&& self.d13.mode() == PinMode::FloatingInput
        &&& self.sda.mode() == PinMode::FloatingInput
        &&& self.scl.mode() == PinMode::FloatingInput
        &&& self.sck.mode() == PinMode::FloatingInput
        &&& self.mosi.mode() == PinMode::FloatingInput
        &&& self.miso.mode() == PinMode::FloatingInput
        &&& self.usb_dm.mode() == PinMode::FloatingInput
        &&& self.usb_dp.mode() == PinMode::FloatingInput
    }

    /// Each field is bound to the pad the wiring table declares for its name.
    pub open spec fn pads_match_table(self) -> bool {
        &&& self.a0.pad() == pad_of_name(PinName::A0)
        &&& self.a1.pad() == pad_of_name(PinName::A1)
        &&& self.a2.pad() == pad_of_name(PinName::A2)
        &&& self.a3.pad() == pad_of_name(PinName::A3)
        &&& self.a4.pad() == pad_of_name(PinName::A4)
        &&& self.a5.pad() == pad_of_name(PinName::A5)
        &&& self.d0.pad() == pad_of_name(PinName::D0)
        &&& self.d1.pad() == pad_of_name(PinName::D1)
        &&& self.d5.pad() == pad_of_name(PinName::D5)
        &&& self.d6.pad() == pad_of_name(PinName::D6)
        &&& self.d9.pad() == pad_of_name(PinName::D9)
        &&& self.d10.pad() == pad_of_name(PinName::D10)
        &&& self.d11.pad() == pad_of_name(PinName::D11)
        &&& self.d12.pad() == pad_of_name(PinName::D12)
        &&& self.d13.pad() == pad_of_name(PinName::D13)
        &&& self.sda.pad() == pad_of_name(PinName::Sda)
        &&& self.scl.pad() == pad_of_name(PinName::Scl)
        &&& self.sck.pad() == pad_of_name(PinName::Sck)
        &&& self.mosi.pad() == pad_of_name(PinName::Mosi)
        &&& self.miso.pad() == pad_of_name(PinName::Miso)
        &&& self.usb_dm.pad() == pad_of_name(PinName::UsbDm)
        &&& self.usb_dp.pad() == pad_of_name(PinName::UsbDp)
    }

    /// The pad held by the aggregate's field for the given name.
    pub open spec fn field_pad(self, n: PinName) -> u8 {
        match n {
            PinName::A0 => self.a0.pad(),
            PinName::A1 => self.a1.pad(),
            PinName::A2 => self.a2.pad(),
            PinName::A3 => self.a3.pad(),
            PinName::A4 => self.a4.pad(),
            PinName::A5 => self.a5.pad(),
            PinName::D0 => self.d0.pad(),
            PinName::D1 => self.d1.pad(),
            PinName::D5 => self.d5.pad(),
            PinName::D6 => self.d6.pad(),
            PinName::D9 => self.d9.pad(),
            PinName::D10 => self.d10.pad(),
            PinName::D11 => self.d11.pad(),
            PinName::D12 => self.d12.pad(),
            PinName::D13 => self.d13.pad(),
            PinName::Sda => self.sda.pad(),
            PinName::Scl => self.scl.pad(),
            PinName::Sck => self.sck.pad(),
            PinName::Mosi => self.mosi.pad(),
            PinName::Miso => self.miso.pad(),
            PinName::UsbDm => self.usb_dm.pad(),
            PinName::UsbDp => self.usb_dp.pad(),
        }
    }

    /// Builds the one aggregate of named pins from the port controller.
    /// Every declared name receives exactly one handle, bound to the pad
    /// the wiring table declares and still in the default post-reset
    /// state. No hardware register is touched: the capability state only
    /// changes when a pin is later reconfigured.
    pub fn new(controller: PortController) -> (p: Pins)
        ensures
            p.all_floating(),
            p.pads_match_table(),
    {
        Pins {
            port: Port { _own: controller._own },
            a0: Pin { state: PinMode::FloatingInput },
            a1: Pin { state: PinMode::FloatingInput },
            a2: Pin { state: PinMode::FloatingInput },
            a3: Pin { state: PinMode::FloatingInput },
            a4: Pin { state: PinMode::FloatingInput },
            a5: Pin { state: PinMode::FloatingInput },
            d0: Pin { state: PinMode::FloatingInput },
            d1: Pin { state: PinMode::FloatingInput },
            d5: Pin { state: PinMode::FloatingInput },
            d6: Pin { state: PinMode::FloatingInput },
            d9: Pin { state: PinMode::FloatingInput },
            d10: Pin { state: PinMode::FloatingInput },
            d11: Pin { state: PinMode::FloatingInput },
            d12: Pin { state: PinMode::FloatingInput },
            d13: Pin { state: PinMode::FloatingInput },
            sda: Pin { state: PinMode::FloatingInput },
            scl: Pin { state: PinMode::FloatingInput },
            sck: Pin { state: PinMode::FloatingInput },
            mosi: Pin { state: PinMode::FloatingInput },
            miso: Pin { state: PinMode::FloatingInput },
            usb_dm: Pin { state: PinMode::FloatingInput },
            usb_dp: Pin { state: PinMode::FloatingInput },
        }
    }
}

/// In any aggregate whose fields follow the wiring table, two distinct
/// silkscreen names hold handles on two distinct pads: the registry can
/// introduce neither a duplicate nor a missing mapping.
pub proof fn lemma_named_pins_hold_distinct_pads(p: Pins, m: PinName, n: PinName)
    requires
        p.pads_match_table(),
        m != n,
    ensures
        p.field_pad(m) != p.field_pad(n),
{
    lemma_pad_table_injective(m, n);
}

} // verus!
