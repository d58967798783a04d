//! The firmware's bookkeeping of its GPIO pins: the direction mode of
//! each pin, which pins are handed to an edge monitor, and which request
//! may use a pin; plus the board's USB identity, whose serial number is
//! derived from the chip ID.
//!
//! A pin starts in the legacy automatic mode, where reading switches it
//! to input and writing switches it to output. Configuring a pin fixes its
//! direction until the firmware restarts. While a pin is monitored for
//! edge events no other GPIO request may touch it.

use vstd::prelude::*;
use crate::peripherals::{GpioDirection, GpioError};
use crate::text::push_char;

verus! {

/// Number of GPIO pins the firmware exposes.
pub const NUM_GPIOS: usize = 4;

/// How a pin's direction is managed.
#[derive(Debug, Clone, Copy, PartialEq, Eq, Structural)]
pub enum PinMode {
    /// Reads switch the pin to input, writes switch it to output.
    LegacyAuto,
    /// Configured as input: writes are refused.
    ExplicitInput,
    /// Configured as output: reads are refused.
    ExplicitOutput,
}

/// What the firmware must do to the pin before the request proceeds.
#[derive(Debug, Clone, Copy, PartialEq, Eq, Structural)]
pub enum PinPreparation {
    /// Switch the pin's direction first (legacy automatic mode).
    SwitchDirection,
    /// Use the pin as it is.
    AsIs,
}

/// The mode and monitoring state of every pin.
#[derive(Debug, Clone)]
pub struct GpioPins {
    /// Direction mode of each pin.
    pub modes: Vec<PinMode>,
    /// Whether each pin is handed to an edge monitor.
    pub monitored: Vec<bool>,
}

/// The mode a pin gets from a configuration request.
pub open spec fn spec_explicit_mode(direction: GpioDirection) -> PinMode {
    match direction {
        GpioDirection::Input => PinMode::ExplicitInput,
        GpioDirection::Output => PinMode::ExplicitOutput,
    }
}

/// Which request a pin admits: an unknown pin is `InvalidPin`, a monitored
/// one `PinMonitored`, a pin fixed to the other direction
/// `WrongDirection`; in legacy mode the pin is switched first.
pub open spec fn spec_access(mode: PinMode, monitored: bool, reading: bool) -> Result<PinPreparation, GpioError> {
    if monitored {
        Err(GpioError::PinMonitored)
    } else {
        match mode {
            PinMode::LegacyAuto => Ok(PinPreparation::SwitchDirection),
            PinMode::ExplicitInput => if reading {
                Ok(PinPreparation::AsIs)
            } else {
                Err(GpioError::WrongDirection)
            },
            PinMode::ExplicitOutput => if reading {
                Err(GpioError::WrongDirection)
            } else {
                Ok(PinPreparation::AsIs)
            },
        }
    }
}

/// Number of `true` entries.
pub open spec fn spec_count_true(s: Seq<bool>) -> nat
    decreases s.len(),
{
    if s.len() == 0 {
        0
    } else {
        spec_count_true(s.drop_last()) + if s.last() {
            1nat
        } else {
            0nat
        }
    }
}

impl GpioPins {
    /// One mode and one monitoring flag per pin.
    pub open spec fn wf(&self) -> bool {
        self.modes@.len() == NUM_GPIOS && self.monitored@.len() == NUM_GPIOS
    }

    /// All pins in legacy mode, none monitored: the state after reset.
    pub fn new() -> (res: GpioPins)
        ensures
            res.wf(),
            forall|i: int| 0 <= i < NUM_GPIOS ==> res.modes@[i] == PinMode::LegacyAuto,
            forall|i: int| 0 <= i < NUM_GPIOS ==> !res.monitored@[i],
    {
        let mut modes: Vec<PinMode> = Vec::new();
        let mut monitored: Vec<bool> = Vec::new();
        let mut i: usize = 0;
        while i < NUM_GPIOS
            invariant
                i <= NUM_GPIOS,
                modes@.len() == i,
                monitored@.len() == i,
                forall|j: int| 0 <= j < i ==> modes@[j] == PinMode::LegacyAuto,
                forall|j: int| 0 <= j < i ==> !monitored@[j],
            decreases NUM_GPIOS - i,
        {
            modes.push(PinMode::LegacyAuto);
            monitored.push(false);
            i = i + 1;
        }
        GpioPins { modes, monitored }
    }

    /// Whether a read-like request (get, or any wait) may use `pin`, and
    /// how the pin must be prepared.
    pub fn for_input(&self, pin: u8) -> (res: Result<PinPreparation, GpioError>)
        requires
            self.wf(),
        ensures
            pin as int >= NUM_GPIOS ==> res == Err::<PinPreparation, GpioError>(GpioError::InvalidPin),
            pin as int <= NUM_GPIOS - 1 ==> res == spec_access(
                self.modes@[pin as int],
                self.monitored@[pin as int],
                true,
            ),
    {
        self.access(pin, true)
    }

    /// Whether a write (put) may use `pin`, and how the pin must be
    /// prepared.
    pub fn for_output(&self, pin: u8) -> (res: Result<PinPreparation, GpioError>)
        requires
            self.wf(),
        ensures
            pin as int >= NUM_GPIOS ==> res == Err::<PinPreparation, GpioError>(GpioError::InvalidPin),
            pin as int <= NUM_GPIOS - 1 ==> res == spec_access(
                self.modes@[pin as int],
                self.monitored@[pin as int],
                false,
            ),
    {
        self.access(pin, false)
    }

    fn access(&self, pin: u8, reading: bool) -> (res: Result<PinPreparation, GpioError>)
        requires
            self.wf(),
        ensures
            pin as int >= NUM_GPIOS ==> res == Err::<PinPreparation, GpioError>(GpioError::InvalidPin),
            pin as int <= NUM_GPIOS - 1 ==> res == spec_access(
                self.modes@[pin as int],
                self.monitored@[pin as int],
                reading,
            ),
    {
        let idx = pin as usize;
        if idx >= NUM_GPIOS {
            return Err(GpioError::InvalidPin);
        }
        if self.monitored[idx] {
            return Err(GpioError::PinMonitored);
        }
        match self.modes[idx] {
            PinMode::LegacyAuto => Ok(PinPreparation::SwitchDirection),
            PinMode::ExplicitInput => if reading {
                Ok(PinPreparation::AsIs)
            } else {
                Err(GpioError::WrongDirection)
            },
            PinMode::ExplicitOutput => if reading {
                Err(GpioError::WrongDirection)
            } else {
                Ok(PinPreparation::AsIs)
            },
        }
    }

    /// Configures `pin`'s direction, which then stays fixed. Refused for
    /// an unknown or monitored pin, leaving everything unchanged.
    pub fn set_config(&mut self, pin: u8, direction: GpioDirection) -> (res: Result<(), GpioError>)
        requires
            old(self).wf(),
        ensures
            final(self).wf(),
            final(self).monitored@ == old(self).monitored@,
            pin as int >= NUM_GPIOS ==> res == Err::<(), GpioError>(GpioError::InvalidPin)
                && final(self).modes@ == old(self).modes@,
            pin as int <= NUM_GPIOS - 1 && old(self).monitored@[pin as int] ==> res == Err::<
                (),
                GpioError,
            >(GpioError::PinMonitored) && final(self).modes@ == old(self).modes@,
            pin as int <= NUM_GPIOS - 1 && !old(self).monitored@[pin as int] ==> res == Ok::<
                (),
                GpioError,
            >(()) && final(self).modes@ == old(self).modes@.update(
                pin as int,
                spec_explicit_mode(direction),
            ),
    {
        let idx = pin as usize;
        if idx >= NUM_GPIOS {
            return Err(GpioError::InvalidPin);
        }
        if self.monitored[idx] {
            return Err(GpioError::PinMonitored);
        }
        let mode = match direction {
            GpioDirection::Input => PinMode::ExplicitInput,
            GpioDirection::Output => PinMode::ExplicitOutput,
        };
        self.modes.set(idx, mode);
        Ok(())
    }

    /// Hands `pin` to its edge monitor. Refused for an unknown pin or one
    /// already monitored.
    pub fn subscribe(&mut self, pin: u8) -> (res: Result<(), GpioError>)
        requires
            old(self).wf(),
        ensures
            final(self).wf(),
            final(self).modes@ == old(self).modes@,
            pin as int >= NUM_GPIOS ==> res == Err::<(), GpioError>(GpioError::InvalidPin)
                && final(self).monitored@ == old(self).monitored@,
            pin as int <= NUM_GPIOS - 1 && old(self).monitored@[pin as int] ==> res == Err::<
                (),
                GpioError,
            >(GpioError::PinMonitored) && final(self).monitored@ == old(self).monitored@,
            pin as int <= NUM_GPIOS - 1 && !old(self).monitored@[pin as int] ==> res == Ok::<
                (),
                GpioError,
            >(()) && final(self).monitored@ == old(self).monitored@.update(pin as int, true),
    {
        let idx = pin as usize;
        if idx >= NUM_GPIOS {
            return Err(GpioError::InvalidPin);
        }
        if self.monitored[idx] {
            return Err(GpioError::PinMonitored);
        }
        self.monitored.set(idx, true);
        Ok(())
    }

    /// Takes `pin` back from its edge monitor. Refused for an unknown pin
    /// or one not monitored.
    pub fn unsubscribe(&mut self, pin: u8) -> (res: Result<(), GpioError>)
        requires
            old(self).wf(),
        ensures
            final(self).wf(),
            final(self).modes@ == old(self).modes@,
            pin as int >= NUM_GPIOS ==> res == Err::<(), GpioError>(GpioError::InvalidPin)
                && final(self).monitored@ == old(self).monitored@,
            pin as int <= NUM_GPIOS - 1 && !old(self).monitored@[pin as int] ==> res == Err::<
                (),
                GpioError,
            >(GpioError::PinNotMonitored) && final(self).monitored@ == old(self).monitored@,
            pin as int <= NUM_GPIOS - 1 && old(self).monitored@[pin as int] ==> res == Ok::<
                (),
                GpioError,
            >(()) && final(self).monitored@ == old(self).monitored@.update(pin as int, false),
    {
        let idx = pin as usize;
        if idx >= NUM_GPIOS {
            return Err(GpioError::InvalidPin);
        }
        if !self.monitored[idx] {
            return Err(GpioError::PinNotMonitored);
        }
        self.monitored.set(idx, false);
        Ok(())
    }

    /// Takes every pin back from its monitor and reports how many were
    /// monitored (saturating at 255).
    pub fn reset_subscriptions(&mut self) -> (res: u8)
        requires
            old(self).wf(),
        ensures
            final(self).wf(),
            final(self).modes@ == old(self).modes@,
            forall|i: int| 0 <= i < NUM_GPIOS ==> !final(self).monitored@[i],
            res == spec_count_true(old(self).monitored@),
    {
        let ghost orig = self.monitored@;
        let mut reset: u8 = 0;
        let mut idx: usize = 0;
        while idx < NUM_GPIOS
            invariant
                idx <= NUM_GPIOS,
                self.wf(),
                self.modes@ == old(self).modes@,
                orig == old(self).monitored@,
                orig.len() == NUM_GPIOS,
                forall|j: int| 0 <= j < idx ==> !self.monitored@[j],
                forall|j: int| idx <= j < NUM_GPIOS ==> self.monitored@[j] == orig[j],
                reset == spec_count_true(orig.take(idx as int)),
                reset <= idx,
            decreases NUM_GPIOS - idx,
        {
            assert(orig.take(idx + 1).drop_last() =~= orig.take(idx as int));
            assert(orig.take(idx + 1).last() == orig[idx as int]);
            if self.monitored[idx] {
                self.monitored.set(idx, false);
                reset = reset + 1;
            }
            idx = idx + 1;
        }
        assert(orig.take(NUM_GPIOS as int) =~= orig);
        reset
    }
}

/// Subscribing a pin and then unsubscribing it restores the pins exactly,
/// and while it is monitored every other request on it is refused with
/// `PinMonitored`.
pub proof fn lemma_subscribe_round_trip(pins: GpioPins, pin: u8, reading: bool)
    requires
        pins.wf(),
        pin as int <= NUM_GPIOS - 1,
        !pins.monitored@[pin as int],
    ensures
        pins.monitored@.update(pin as int, true).update(pin as int, false) == pins.monitored@,
        spec_access(pins.modes@[pin as int], true, reading) == Err::<PinPreparation, GpioError>(
            GpioError::PinMonitored,
        ),
{
    assert(pins.monitored@.update(pin as int, true).update(pin as int, false) =~= pins.monitored@);
}

/// After a configuration a pin keeps to its direction: the other
/// direction is refused with `WrongDirection` and its own is used as is.
pub proof fn lemma_configured_direction_sticks(direction: GpioDirection)
    ensures
        spec_access(spec_explicit_mode(direction), false, direction == GpioDirection::Input)
            == Ok::<PinPreparation, GpioError>(PinPreparation::AsIs),
        spec_access(spec_explicit_mode(direction), false, direction == GpioDirection::Output)
            == Err::<PinPreparation, GpioError>(GpioError::WrongDirection),
{
}

/// Resetting subscriptions twice finds nothing the second time.
pub proof fn lemma_reset_idempotent(monitored: Seq<bool>)
    requires
        forall|i: int| 0 <= i < monitored.len() ==> !monitored[i],
    ensures
        spec_count_true(monitored) == 0,
    decreases monitored.len(),
{
    if monitored.len() > 0 {
        lemma_reset_idempotent(monitored.drop_last());
    }
}

/// The upper-case hexadecimal digit of a value below sixteen.
pub open spec fn spec_upper_digit(d: nat) -> char {
    if d < 10 {
        (48 + d) as char
    } else {
        (55 + d) as char
    }
}

/// The nibble of `chip_id` that the `i`-th character of its serial
/// number shows, counting from the most significant.
pub open spec fn spec_serial_nibble(chip_id: u64, i: int) -> u64 {
    (chip_id >> ((15 - i) * 4) as u64) & 15
}

/// The sixteen upper-case hexadecimal digits of a chip ID, most
/// significant first.
pub open spec fn spec_serial_number(chip_id: u64) -> Seq<char> {
    Seq::new(16, |i: int| spec_upper_digit(spec_serial_nibble(chip_id, i) as nat))
}

/// The USB serial number of a board: its 64-bit chip ID as sixteen
/// upper-case hexadecimal digits, most significant first.
pub fn serial_number(chip_id: u64) -> (res: String)
    ensures
        res@ == spec_serial_number(chip_id),
        res@.len() == 16,
        forall|i: int| 0 <= i < 16 ==> res@[i] == spec_upper_digit(#[trigger] spec_serial_nibble(chip_id, i) as nat),
{
    let mut s = String::new();
    let mut i: usize = 0;
    while i < 16
        invariant
            i <= 16,
            s@.len() == i,
            forall|j: int| 0 <= j < i ==> s@[j] == spec_upper_digit(#[trigger] spec_serial_nibble(chip_id, j) as nat),
        decreases 16 - i,
    {
        let shift: u64 = ((15 - i) * 4) as u64;
        let d: u64 = (chip_id >> shift) & 15;
        assert(d < 16) by (bit_vector)
            requires
                d == (chip_id >> shift) & 15,
        ;
        let c = if d < 10 {
            ((48 + d) as u8) as char
        } else {
            ((55 + d) as u8) as char
        };
        assert(d == spec_serial_nibble(chip_id, i as int));
        push_char(&mut s, c);
        i = i + 1;
    }
    assert(s@ =~= spec_serial_number(chip_id));
    s
}

/// How the board presents itself on USB.
#[derive(Debug, Clone)]
pub struct UsbIdentity {
    /// USB vendor ID.
    pub vendor_id: u16,
    /// USB product ID.
    pub product_id: u16,
    /// Manufacturer string.
    pub manufacturer: String,
    /// Product string.
    pub product: String,
    /// Serial number string.
    pub serial_number: String,
    /// Maximum bus power drawn, in mA.
    pub max_power: u16,
    /// Maximum packet size of the control endpoint.
    pub max_packet_size_0: u8,
    /// Whether the board powers itself.
    pub self_powered: bool,
    /// Whether the device uses interface association descriptors.
    pub composite_with_iads: bool,
    /// Device class (vendor-specific).
    pub device_class: u8,
    /// Device subclass (vendor-specific).
    pub device_sub_class: u8,
    /// Device protocol (vendor-specific).
    pub device_protocol: u8,
}

/// The USB identity of a board whose chip ID read gave `chip_id`:
/// Microsoft's vendor ID and the board's product ID, manufacturer
/// "Microsoft", product "Pico de Gallo", the chip ID as the serial number
/// (all zeros when the chip ID could not be read), 100 mA, 64-byte control
/// packets, bus powered, no interface associations, vendor-specific class.
pub fn usb_identity(chip_id: Option<u64>) -> (res: UsbIdentity)
    ensures
        res.vendor_id == crate::wire::MICROSOFT_VID,
        res.product_id == crate::wire::PICO_DE_GALLO_PID,
        res.manufacturer@ == "Microsoft"@,
        res.product@ == "Pico de Gallo"@,
        res.serial_number@ == spec_serial_number(
            match chip_id {
                Some(id) => id,
                None => 0,
            },
        ),
        res.max_power == 100,
        res.max_packet_size_0 == 64,
        !res.self_powered,
        !res.composite_with_iads,
        res.device_class == 0xff,
        res.device_sub_class == 0xff,
        res.device_protocol == 0xff,
{
    let id: u64 = match chip_id {
        Some(id) => id,
        None => 0,
    };
    UsbIdentity {
        vendor_id: crate::wire::MICROSOFT_VID,
        product_id: crate::wire::PICO_DE_GALLO_PID,
        manufacturer: crate::text::text_of("Microsoft"),
        product: crate::text::text_of("Pico de Gallo"),
        serial_number: serial_number(id),
        max_power: 100,
        max_packet_size_0: 64,
        self_powered: false,
        composite_with_iads: false,
        device_class: 0xff,
        device_sub_class: 0xff,
        device_protocol: 0xff,
    }
}

/// A pin left in the legacy automatic mode and not monitored is admitted
/// for reading and for writing, and is switched to the needed direction
/// first: a read never uses a pin last driven as an output as it is.
pub proof fn lemma_legacy_pin_switches_direction(pins: GpioPins, pin: u8, reading: bool)
    requires
        pins.wf(),
        pin as int <= NUM_GPIOS - 1,
        pins.modes@[pin as int] == PinMode::LegacyAuto,
        !pins.monitored@[pin as int],
    ensures
        spec_access(pins.modes@[pin as int], pins.monitored@[pin as int], reading) == Ok::<
            PinPreparation,
            GpioError,
        >(PinPreparation::SwitchDirection),
{
}

} // verus!
