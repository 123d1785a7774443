//! The status byte of the device-info record.
//!
//! One byte carries the output, interlock and temperature flags. Firmware
//! 0.13 moved three of them and added an error counter in the upper nibble,
//! so the same byte reads differently under the two firmware generations.
//! The byte is kept as received; every reader takes the firmware version.

use vstd::prelude::*;

verus! {

/// The raw status byte of a device (byte 5 of the full-info response).
#[derive(Debug, Clone, Copy, PartialEq, Eq, Structural)]
pub struct StatusFlags {
    /// The byte as the device sent it.
    pub bits: u8,
}

/// Whether the bit of weight `weight` (a power of two) is set in `byte`.
pub open spec fn flag_set(byte: u8, weight: u8) -> bool {
    (byte as int / weight as int) % 2 == 1
}

/// Whether a firmware version uses the layout introduced with 0.13.
pub open spec fn uses_current_layout(fw_major: u8, fw_minor: u8) -> bool {
    fw_major > 0 || fw_minor >= 13
}

impl StatusFlags {
    /// Output is enabled.
    pub const OUTPUT_ENABLED: u8 = 0b0000_0001;

    /// Interlock is enabled (firmware version >= 0.13).
    pub const INTERLOCK_ENABLED_V013: u8 = 0b0000_0010;

    /// Temperature warning (firmware version >= 0.13).
    pub const TEMPERATURE_WARNING_V013: u8 = 0b0000_0100;

    /// Over temperature condition (firmware version >= 0.13).
    pub const OVER_TEMPERATURE_V013: u8 = 0b0000_1000;

    /// Packet errors mask (firmware version >= 0.13, upper 4 bits).
    pub const PACKET_ERRORS_MASK: u8 = 0b1111_0000;

    /// Interlock is enabled (firmware version <= 0.12).
    pub const INTERLOCK_ENABLED_V012: u8 = 0b0000_1000;

    /// Temperature warning (firmware version <= 0.12).
    pub const TEMPERATURE_WARNING_V012: u8 = 0b0001_0000;

    /// Over temperature condition (firmware version <= 0.12).
    pub const OVER_TEMPERATURE_V012: u8 = 0b0010_0000;

    /// Whether output is enabled: bit 0 under every firmware.
    pub open spec fn spec_output_enabled(self) -> bool {
        flag_set(self.bits, Self::OUTPUT_ENABLED)
    }

    /// Whether the interlock is enabled: bit 1, or bit 3 before firmware 0.13.
    pub open spec fn spec_interlock_enabled(self, fw_major: u8, fw_minor: u8) -> bool {
        if uses_current_layout(fw_major, fw_minor) {
            flag_set(self.bits, Self::INTERLOCK_ENABLED_V013)
        } else {
            flag_set(self.bits, Self::INTERLOCK_ENABLED_V012)
        }
    }

    /// Whether a temperature warning is active: bit 2, or bit 4 before
    /// firmware 0.13.
    pub open spec fn spec_temperature_warning(self, fw_major: u8, fw_minor: u8) -> bool {
        if uses_current_layout(fw_major, fw_minor) {
            flag_set(self.bits, Self::TEMPERATURE_WARNING_V013)
        } else {
            flag_set(self.bits, Self::TEMPERATURE_WARNING_V012)
        }
    }

    /// Whether the device is over temperature: bit 3, or bit 5 before
    /// firmware 0.13.
    pub open spec fn spec_over_temperature(self, fw_major: u8, fw_minor: u8) -> bool {
        if uses_current_layout(fw_major, fw_minor) {
            flag_set(self.bits, Self::OVER_TEMPERATURE_V013)
        } else {
            flag_set(self.bits, Self::OVER_TEMPERATURE_V012)
        }
    }

    /// The packet-error counter: the upper nibble of the byte.
    pub open spec fn spec_packet_errors(self) -> int {
        self.bits as int / 16
    }

    /// Wraps a status byte, keeping every bit.
    pub fn from_bits_retain(bits: u8) -> (flags: StatusFlags)
        ensures
            flags.bits == bits,
    {
        StatusFlags { bits }
    }

    /// Wraps a status byte. Every bit of the byte has a meaning under one
    /// firmware or the other, so none is dropped.
    pub fn from_bits_truncate(bits: u8) -> (flags: StatusFlags)
        ensures
            flags.bits == bits,
    {
        StatusFlags { bits }
    }

    /// The status byte with no bit set.
    pub fn empty() -> (flags: StatusFlags)
        ensures
            flags.bits == 0,
    {
        StatusFlags { bits: 0 }
    }

    /// The raw byte.
    pub fn bits(self) -> (bits: u8)
        ensures
            bits == self.bits,
    {
        self.bits
    }

    /// Whether no bit is set.
    pub fn is_empty(self) -> (empty: bool)
        ensures
            empty == (self.bits == 0),
    {
        self.bits == 0
    }

    /// Whether the single-bit flag `flag` is set.
    fn has_flag(self, flag: u8) -> (set: bool)
        requires
            flag == 1 || flag == 2 || flag == 4 || flag == 8 || flag == 16 || flag == 32 || flag
                == 64 || flag == 128,
        ensures
            set == flag_set(self.bits, flag),
    {
        let bits = self.bits;
        assert((bits & flag == flag) == ((bits / flag) % 2 == 1)) by (bit_vector)
            requires
                flag == 1 || flag == 2 || flag == 4 || flag == 8 || flag == 16 || flag == 32
                    || flag == 64 || flag == 128,
        ;
        bits & flag == flag
    }

    /// Get whether output is enabled.
    pub fn output_enabled(self) -> (enabled: bool)
        ensures
            enabled == self.spec_output_enabled(),
    {
        self.has_flag(Self::OUTPUT_ENABLED)
    }

    /// Get whether interlock is enabled, handling firmware version differences.
    pub fn interlock_enabled(self, fw_major: u8, fw_minor: u8) -> (enabled: bool)
        ensures
            enabled == self.spec_interlock_enabled(fw_major, fw_minor),
    {
        if fw_major > 0 || fw_minor >= 13 {
            self.has_flag(Self::INTERLOCK_ENABLED_V013)
        } else {
            self.has_flag(Self::INTERLOCK_ENABLED_V012)
        }
    }

    /// Get whether there's a temperature warning, handling firmware version
    /// differences.
    pub fn temperature_warning(self, fw_major: u8, fw_minor: u8) -> (warning: bool)
        ensures
            warning == self.spec_temperature_warning(fw_major, fw_minor),
    {
        if fw_major > 0 || fw_minor >= 13 {
            self.has_flag(Self::TEMPERATURE_WARNING_V013)
        } else {
            self.has_flag(Self::TEMPERATURE_WARNING_V012)
        }
    }

    /// Get whether there's an over-temperature condition, handling firmware
    /// version differences.
    pub fn over_temperature(self, fw_major: u8, fw_minor: u8) -> (over: bool)
        ensures
            over == self.spec_over_temperature(fw_major, fw_minor),
    {
        if fw_major > 0 || fw_minor >= 13 {
            self.has_flag(Self::OVER_TEMPERATURE_V013)
        } else {
            self.has_flag(Self::OVER_TEMPERATURE_V012)
        }
    }

    /// Get the packet errors count (firmware version >= 0.13 only).
    pub fn packet_errors(self) -> (errors: u8)
        ensures
            errors == self.spec_packet_errors(),
            errors <= 15,
    {
        let bits = self.bits;
        assert((bits & 0xf0) >> 4 == bits / 16) by (bit_vector);
        if self.is_empty() {
            0
        } else {
            (bits & Self::PACKET_ERRORS_MASK) >> 4
        }
    }
}

/// Firmware before 0.13 reports the interlock in the bit that later firmware
/// uses for over-temperature, so one byte gives both readings.
pub proof fn lemma_legacy_interlock_is_current_over_temperature(
    flags: StatusFlags,
    legacy_minor: u8,
    fw_major: u8,
    fw_minor: u8,
)
    requires
        legacy_minor < 13,
        uses_current_layout(fw_major, fw_minor),
    ensures
        flags.spec_interlock_enabled(0, legacy_minor) == flags.spec_over_temperature(
            fw_major,
            fw_minor,
        ),
{
}

/// Under firmware 0.13 and later the four flags and the error counter make
/// up the whole byte: two status bytes that agree on all five are equal.
pub proof fn lemma_current_layout_reads_whole_byte(
    a: StatusFlags,
    b: StatusFlags,
    fw_major: u8,
    fw_minor: u8,
)
    requires
        uses_current_layout(fw_major, fw_minor),
        a.spec_output_enabled() == b.spec_output_enabled(),
        a.spec_interlock_enabled(fw_major, fw_minor) == b.spec_interlock_enabled(
            fw_major,
            fw_minor,
        ),
        a.spec_temperature_warning(fw_major, fw_minor) == b.spec_temperature_warning(
            fw_major,
            fw_minor,
        ),
        a.spec_over_temperature(fw_major, fw_minor) == b.spec_over_temperature(
            fw_major,
            fw_minor,
        ),
        a.spec_packet_errors() == b.spec_packet_errors(),
    ensures
        a == b,
{
    let x = a.bits;
    let y = b.bits;
    assert(x == y) by (bit_vector)
        requires
            (x / 1u8) % 2 == (y / 1u8) % 2,
            (x / 2u8) % 2 == (y / 2u8) % 2,
            (x / 4u8) % 2 == (y / 4u8) % 2,
            (x / 8u8) % 2 == (y / 8u8) % 2,
            x / 16u8 == y / 16u8,
    ;
}

} // verus!
