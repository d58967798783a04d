//! Version and device-information records, and the capability bit set.

use vstd::prelude::*;

verus! {

/// Firmware version information.
#[derive(Debug, Clone, Copy, PartialEq, Eq, Structural)]
pub struct VersionInfo {
    /// Major version number.
    pub major: u16,
    /// Minor version number.
    pub minor: u16,
    /// Patch version number.
    pub patch: u32,
}

/// Hardware capabilities: a bit set in which each peripheral is one bit.
#[derive(Debug, Clone, Copy, PartialEq, Eq, Structural)]
pub struct Capabilities(pub u64);

impl Capabilities {
    /// No capabilities.
    #[allow(non_snake_case)]
    pub fn NONE() -> (r: Capabilities)
        ensures
            r.0 == 0,
    {
        Capabilities(0)
    }
    /// I2C bus support (bit 0).
    #[allow(non_snake_case)]
    pub fn I2C() -> (r: Capabilities)
        ensures
            r.0 == 1,
    {
        Capabilities(1)
    }
    /// SPI bus support (bit 1).
    #[allow(non_snake_case)]
    pub fn SPI() -> (r: Capabilities)
        ensures
            r.0 == 2,
    {
        Capabilities(2)
    }
    /// UART support (bit 2).
    #[allow(non_snake_case)]
    pub fn UART() -> (r: Capabilities)
        ensures
            r.0 == 4,
    {
        Capabilities(4)
    }
    /// GPIO support (bit 3).
    #[allow(non_snake_case)]
    pub fn GPIO() -> (r: Capabilities)
        ensures
            r.0 == 8,
    {
        Capabilities(8)
    }
    /// PWM output support (bit 4).
    #[allow(non_snake_case)]
    pub fn PWM() -> (r: Capabilities)
        ensures
            r.0 == 16,
    {
        Capabilities(16)
    }
    /// ADC input support (bit 5).
    #[allow(non_snake_case)]
    pub fn ADC() -> (r: Capabilities)
        ensures
            r.0 == 32,
    {
        Capabilities(32)
    }
    /// 1-Wire bus support (bit 6).
    #[allow(non_snake_case)]
    pub fn ONEWIRE() -> (r: Capabilities)
        ensures
            r.0 == 64,
    {
        Capabilities(64)
    }

    /// All bits of `other` are set in `self`.
    pub open spec fn spec_contains(self, other: Capabilities) -> bool {
        (self.0 & other.0) == other.0
    }

    /// Returns `true` if all bits in `other` are set in `self`.
    pub fn contains(self, other: Capabilities) -> (r: bool)
        ensures
            r == self.spec_contains(other),
    {
        (self.0 & other.0) == other.0
    }

    /// Returns the raw bit field.
    pub fn bits(self) -> (r: u64)
        ensures
            r == self.0,
    {
        self.0
    }

    /// The union of two sets of capabilities.
    pub fn union(self, other: Capabilities) -> (r: Capabilities)
        ensures
            r.0 == self.0 | other.0,
    {
        Capabilities(self.0 | other.0)
    }

    /// The capabilities present in both sets.
    pub fn intersection(self, other: Capabilities) -> (r: Capabilities)
        ensures
            r.0 == self.0 & other.0,
    {
        Capabilities(self.0 & other.0)
    }
}

impl core::ops::BitOr for Capabilities {
    type Output = Capabilities;

    fn bitor(self, rhs: Capabilities) -> (r: Capabilities)
        ensures
            r.0 == self.0 | rhs.0,
    {
        Capabilities(self.0 | rhs.0)
    }
}

impl vstd::std_specs::ops::BitOrSpecImpl for Capabilities {
    open spec fn obeys_bitor_spec() -> bool {
        true
    }

    open spec fn bitor_req(self, rhs: Capabilities) -> bool {
        true
    }

    open spec fn bitor_spec(self, rhs: Capabilities) -> Capabilities {
        Capabilities(self.0 | rhs.0)
    }
}

impl core::ops::BitAnd for Capabilities {
    type Output = Capabilities;

    fn bitand(self, rhs: Capabilities) -> (r: Capabilities)
        ensures
            r.0 == self.0 & rhs.0,
    {
        Capabilities(self.0 & rhs.0)
    }
}

impl vstd::std_specs::ops::BitAndSpecImpl for Capabilities {
    open spec fn obeys_bitand_spec() -> bool {
        true
    }

    open spec fn bitand_req(self, rhs: Capabilities) -> bool {
        true
    }

    open spec fn bitand_spec(self, rhs: Capabilities) -> Capabilities {
        Capabilities(self.0 & rhs.0)
    }
}

/// Capability-set laws: every set contains itself and the empty set; a
/// union contains both operands; containment is transitive; a set
/// contains another exactly when their union is the set itself; and the
/// intersection of two sets is contained in each.
pub proof fn lemma_capabilities_laws(a: Capabilities, b: Capabilities, c: Capabilities)
    ensures
        a.spec_contains(a),
        a.spec_contains(Capabilities(0)),
        Capabilities(a.0 | b.0).spec_contains(a),
        Capabilities(a.0 | b.0).spec_contains(b),
        a.spec_contains(b) && b.spec_contains(c) ==> a.spec_contains(c),
        a.spec_contains(b) <==> (a.0 | b.0) == a.0,
        a.spec_contains(Capabilities(a.0 & b.0)),
        b.spec_contains(Capabilities(a.0 & b.0)),
        (a.0 | b.0) == (b.0 | a.0),
{
    let (x, y, z) = (a.0, b.0, c.0);
    assert((x & x) == x) by (bit_vector);
    assert((x & 0u64) == 0u64) by (bit_vector);
    assert(((x | y) & x) == x) by (bit_vector);
    assert(((x | y) & y) == y) by (bit_vector);
    assert(((x & y) == y && (y & z) == z) ==> (x & z) == z) by (bit_vector);
    assert(((x & y) == y) <==> ((x | y) == x)) by (bit_vector);
    assert((x & (x & y)) == (x & y)) by (bit_vector);
    assert((y & (x & y)) == (x & y)) by (bit_vector);
    assert((x | y) == (y | x)) by (bit_vector);
}

/// The named single-peripheral capabilities are distinct one-bit sets, and
/// none contains another.
pub proof fn lemma_capability_bits_distinct()
    ensures
        !Capabilities(1).spec_contains(Capabilities(2)),
        !Capabilities(2).spec_contains(Capabilities(1)),
        !Capabilities(4).spec_contains(Capabilities(8)),
        !Capabilities(16).spec_contains(Capabilities(32)),
        !Capabilities(32).spec_contains(Capabilities(64)),
        !Capabilities(0).spec_contains(Capabilities(1)),
{
    assert((1u64 & 2u64) != 2u64) by (bit_vector);
    assert((2u64 & 1u64) != 1u64) by (bit_vector);
    assert((4u64 & 8u64) != 8u64) by (bit_vector);
    assert((16u64 & 32u64) != 32u64) by (bit_vector);
    assert((32u64 & 64u64) != 64u64) by (bit_vector);
    assert((0u64 & 1u64) != 1u64) by (bit_vector);
}

/// Extended device information: firmware, schema and hardware versions and
/// the peripheral capabilities.
#[derive(Debug, Clone, Copy, PartialEq, Eq, Structural)]
pub struct DeviceInfo {
    /// Firmware version, major.
    pub fw_major: u16,
    /// Firmware version, minor.
    pub fw_minor: u16,
    /// Firmware version, patch.
    pub fw_patch: u32,
    /// Schema version, major.
    pub schema_major: u16,
    /// Schema version, minor.
    pub schema_minor: u16,
    /// Schema version, patch.
    pub schema_patch: u32,
    /// Hardware revision number.
    pub hw_version: u8,
    /// Peripheral capabilities of the device.
    pub capabilities: Capabilities,
}

/// Whether a USB device is a Pico de Gallo: Microsoft's vendor ID and the
/// board's product ID.
pub fn is_pico_de_gallo(vendor_id: u16, product_id: u16) -> (res: bool)
    ensures
        res == (vendor_id == crate::wire::MICROSOFT_VID && product_id == crate::wire::PICO_DE_GALLO_PID),
{
    vendor_id == crate::wire::MICROSOFT_VID && product_id == crate::wire::PICO_DE_GALLO_PID
}

/// Whether a USB device is the Pico de Gallo with the wanted serial
/// number.
pub fn is_pico_de_gallo_with_serial(vendor_id: u16, product_id: u16, serial: Option<&str>, wanted: &str) -> (res: bool)
    ensures
        res == (vendor_id == crate::wire::MICROSOFT_VID && product_id == crate::wire::PICO_DE_GALLO_PID
            && (serial matches Some(s) && s@ == wanted@)),
{
    if !is_pico_de_gallo(vendor_id, product_id) {
        return false;
    }
    match serial {
        Some(s) => {
            let a = crate::numbers::chars_of(s);
            let b = crate::numbers::chars_of(wanted);
            crate::scan::chars_eq(a.as_slice(), b.as_slice())
        },
        None => false,
    }
}

} // verus!
