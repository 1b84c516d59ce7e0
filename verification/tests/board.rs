use feather_m0::clock::{ClockController, ClockError, Hertz, Pm};
use feather_m0::pin::{pad_of, PinMode, PinName, Pins, PortController};
use feather_m0::sercom::{i2c_master, spi_master, Phase, Polarity, Sercom3, Sercom4};
use feather_m0::usb::{usb_bus, UsbEngine};

fn all_names() -> Vec<PinName> {
    vec![
        PinName::A0,
        PinName::A1,
        PinName::A2,
        PinName::A3,
        PinName::A4,
        PinName::A5,
        PinName::D0,
        PinName::D1,
        PinName::D5,
        PinName::D6,
        PinName::D9,
        PinName::D10,
        PinName::D11,
        PinName::D12,
        PinName::D13,
        PinName::Sda,
        PinName::Scl,
        PinName::Sck,
        PinName::Mosi,
        PinName::Miso,
        PinName::UsbDm,
        PinName::UsbDp,
    ]
}

#[test]
fn pad_table_matches_board_layout() {
    // Bank A pads are 0..=31, bank B pads are 32 + index.
    assert_eq!(pad_of(PinName::A0), 2); // PA02
    assert_eq!(pad_of(PinName::A1), 32 + 8); // PB08
    assert_eq!(pad_of(PinName::A2), 32 + 9); // PB09
    assert_eq!(pad_of(PinName::A3), 4); // PA04
    assert_eq!(pad_of(PinName::A4), 5); // PA05
    assert_eq!(pad_of(PinName::A5), 32 + 2); // PB02
    assert_eq!(pad_of(PinName::D0), 11); // PA11
    assert_eq!(pad_of(PinName::D1), 10); // PA10
    assert_eq!(pad_of(PinName::D5), 15); // PA15
    assert_eq!(pad_of(PinName::D6), 20); // PA20
    assert_eq!(pad_of(PinName::D9), 7); // PA07
    assert_eq!(pad_of(PinName::D10), 18); // PA18
    assert_eq!(pad_of(PinName::D11), 16); // PA16
    assert_eq!(pad_of(PinName::D12), 19); // PA19
    assert_eq!(pad_of(PinName::D13), 17); // PA17
    assert_eq!(pad_of(PinName::Sda), 22); // PA22
    assert_eq!(pad_of(PinName::Scl), 23); // PA23
    assert_eq!(pad_of(PinName::Sck), 32 + 11); // PB11
    assert_eq!(pad_of(PinName::Mosi), 32 + 10); // PB10
    assert_eq!(pad_of(PinName::Miso), 12); // PA12
    assert_eq!(pad_of(PinName::UsbDm), 24); // PA24
    assert_eq!(pad_of(PinName::UsbDp), 25); // PA25
}

#[test]
fn pad_table_has_no_duplicates() {
    let names = all_names();
    for i in 0..names.len() {
        for j in 0..names.len() {
            if i != j {
                assert_ne!(pad_of(names[i]), pad_of(names[j]));
            }
        }
    }
}

#[test]
fn pins_start_floating() {
    let pins = Pins::new(PortController::new());
    let modes = vec![
        pins.a0.current_mode(),
        pins.a1.current_mode(),
        pins.a2.current_mode(),
        pins.a3.current_mode(),
        pins.a4.current_mode(),
        pins.a5.current_mode(),
        pins.d0.current_mode(),
        pins.d1.current_mode(),
        pins.d5.current_mode(),
        pins.d6.current_mode(),
        pins.d9.current_mode(),
        pins.d10.current_mode(),
        pins.d11.current_mode(),
        pins.d12.current_mode(),
        pins.d13.current_mode(),
        pins.sda.current_mode(),
        pins.scl.current_mode(),
        pins.sck.current_mode(),
        pins.mosi.current_mode(),
        pins.miso.current_mode(),
        pins.usb_dm.current_mode(),
        pins.usb_dp.current_mode(),
    ];
    for m in modes {
        assert_eq!(m, PinMode::FloatingInput);
    }
}

#[test]
fn reconfiguring_a_pin_changes_its_capability_state() {
    let pins = Pins::new(PortController::new());
    let mut port = pins.port;
    let sda = pins.sda.into_function_c(&mut port);
    assert_eq!(sda.current_mode(), PinMode::FunctionC);
    let sck = pins.sck.into_function_d(&mut port);
    assert_eq!(sck.current_mode(), PinMode::FunctionD);
    let dp = pins.usb_dp.into_function_g(&mut port);
    assert_eq!(dp.current_mode(), PinMode::FunctionG);
}

#[test]
fn spi_bring_up_is_always_mode_zero() {
    // Repeated bring-ups with fresh pins and engines configure the same
    // fixed mode: capture on first transition, clock idles low.
    for _ in 0..2 {
        let pins = Pins::new(PortController::new());
        let mut port = pins.port;
        let mut clocks = ClockController::new(Hertz(48_000_000));
        let mut pm = Pm::new();
        let spi = spi_master(
            &mut clocks,
            Hertz(1_000_000),
            Sercom4::new(),
            &mut pm,
            pins.sck,
            pins.mosi,
            pins.miso,
            &mut port,
        )
        .unwrap();
        let mode = spi.mode();
        assert_eq!(mode.phase, Phase::CaptureOnFirstTransition);
        assert_eq!(mode.polarity, Polarity::IdleLow);
    }
}

#[test]
fn i2c_reports_requested_speed() {
    let pins = Pins::new(PortController::new());
    let mut port = pins.port;
    let mut clocks = ClockController::new(Hertz(48_000_000));
    let mut pm = Pm::new();
    let speed = Hertz::from_khz(400);
    assert_eq!(speed, Hertz(400_000));
    let i2c = i2c_master(
        &mut clocks,
        speed,
        Sercom3::new(),
        &mut pm,
        pins.sda,
        pins.scl,
        &mut port,
    )
    .unwrap();
    assert_eq!(i2c.speed(), Hertz(400_000));
    assert!(pm.is_sercom3_enabled());
    assert!(clocks.is_sercom3_core_taken());
}

#[test]
fn spi_end_to_end_four_megahertz() {
    // Fresh port controller -> Pins; extract sck/mosi/miso; SPI bring-up
    // at 4 MHz on the SERCOM4 engine with a fresh power manager.
    let pins = Pins::new(PortController::new());
    let mut port = pins.port;
    let sck = pins.sck;
    let mosi = pins.mosi;
    let miso = pins.miso;
    let mut clocks = ClockController::new(Hertz(48_000_000));
    let mut pm = Pm::new();
    let r = spi_master(
        &mut clocks,
        Hertz::from_mhz(4),
        Sercom4::new(),
        &mut pm,
        sck,
        mosi,
        miso,
        &mut port,
    );
    let spi = r.unwrap();
    assert_eq!(spi.mode().phase, Phase::CaptureOnFirstTransition);
    assert_eq!(spi.mode().polarity, Polarity::IdleLow);
    assert_eq!(spi.speed(), Hertz(4_000_000));
    assert!(clocks.is_sercom4_core_taken());
    assert!(pm.is_sercom4_enabled());
    assert!(!pm.is_sercom3_enabled());
    assert!(!pm.is_usb_enabled());
}

#[test]
fn second_spi_bring_up_reports_clock_unavailable() {
    let mut clocks = ClockController::new(Hertz(48_000_000));
    let mut pm = Pm::new();
    let first = Pins::new(PortController::new());
    let mut port = first.port;
    let r1 = spi_master(
        &mut clocks,
        Hertz(1_000_000),
        Sercom4::new(),
        &mut pm,
        first.sck,
        first.mosi,
        first.miso,
        &mut port,
    );
    assert!(r1.is_ok());
    // The SERCOM4 core clock branch is now allocated: a second bring-up on
    // the same clock tree must fail, even with fresh pins and engine.
    let second = Pins::new(PortController::new());
    let mut port2 = second.port;
    let r2 = spi_master(
        &mut clocks,
        Hertz(1_000_000),
        Sercom4::new(),
        &mut pm,
        second.sck,
        second.mosi,
        second.miso,
        &mut port2,
    );
    match r2 {
        Err(e) => assert_eq!(e, ClockError::ClockUnavailable),
        Ok(_) => panic!("second bring-up must not find a free clock branch"),
    }
    assert!(clocks.is_sercom4_core_taken());
}

#[test]
fn second_i2c_bring_up_reports_clock_unavailable() {
    let mut clocks = ClockController::new(Hertz(48_000_000));
    let mut pm = Pm::new();
    let first = Pins::new(PortController::new());
    let mut port = first.port;
    let r1 = i2c_master(
        &mut clocks,
        Hertz(100_000),
        Sercom3::new(),
        &mut pm,
        first.sda,
        first.scl,
        &mut port,
    );
    assert!(r1.is_ok());
    let second = Pins::new(PortController::new());
    let mut port2 = second.port;
    let r2 = i2c_master(
        &mut clocks,
        Hertz(100_000),
        Sercom3::new(),
        &mut pm,
        second.sda,
        second.scl,
        &mut port2,
    );
    match r2 {
        Err(e) => assert_eq!(e, ClockError::ClockUnavailable),
        Ok(_) => panic!("second bring-up must not find a free clock branch"),
    }
}

#[test]
fn usb_bring_up_binds_differential_pair() {
    let pins = Pins::new(PortController::new());
    let mut port = pins.port;
    let mut clocks = ClockController::new(Hertz(48_000_000));
    let mut pm = Pm::new();
    let r = usb_bus(
        UsbEngine::new(),
        &mut clocks,
        &mut pm,
        pins.usb_dm,
        pins.usb_dp,
        &mut port,
    );
    assert!(r.is_ok());
    assert!(pm.is_usb_enabled());
    assert!(clocks.is_usb_clock_taken());
    // The USB clock branch is gone: a second bring-up must fail.
    let again = Pins::new(PortController::new());
    let mut port2 = again.port;
    let r2 = usb_bus(
        UsbEngine::new(),
        &mut clocks,
        &mut pm,
        again.usb_dm,
        again.usb_dp,
        &mut port2,
    );
    match r2 {
        Err(e) => assert_eq!(e, ClockError::ClockUnavailable),
        Ok(_) => panic!("second bring-up must not find a free clock branch"),
    }
}

#[test]
fn independent_engines_share_one_clock_tree() {
    // SPI, I2C and USB derive three distinct branches: all three succeed
    // on one clock tree, in sequence.
    let pins = Pins::new(PortController::new());
    let mut port = pins.port;
    let mut clocks = ClockController::new(Hertz(48_000_000));
    let mut pm = Pm::new();
    let spi = spi_master(
        &mut clocks,
        Hertz(4_000_000),
        Sercom4::new(),
        &mut pm,
        pins.sck,
        pins.mosi,
        pins.miso,
        &mut port,
    );
    assert!(spi.is_ok());
    let i2c = i2c_master(
        &mut clocks,
        Hertz(400_000),
        Sercom3::new(),
        &mut pm,
        pins.sda,
        pins.scl,
        &mut port,
    );
    assert!(i2c.is_ok());
    let usb = usb_bus(
        UsbEngine::new(),
        &mut clocks,
        &mut pm,
        pins.usb_dm,
        pins.usb_dp,
        &mut port,
    );
    assert!(usb.is_ok());
    assert!(pm.is_sercom3_enabled() && pm.is_sercom4_enabled() && pm.is_usb_enabled());
}

#[test]
fn hertz_helpers_scale_exactly() {
    assert_eq!(Hertz::from_khz(1), Hertz(1_000));
    assert_eq!(Hertz::from_khz(400), Hertz(400_000));
    assert_eq!(Hertz::from_mhz(1), Hertz(1_000_000));
    assert_eq!(Hertz::from_mhz(48), Hertz(48_000_000));
}
