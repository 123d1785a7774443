//! The device-info record: a fixed 38-byte header and a model name.

use crate::status::StatusFlags;
use crate::text::{
    colon_hex, decimal, decode_lossy, decoded_text, push_char, push_decimal, push_hex_pair,
};
use crate::wire::{read_u16_le, read_u32_le, u16_from_le, u32_from_le};
use vstd::prelude::*;
use vstd::std_specs::convert::FromSpecImpl;
use vstd::std_specs::convert::TryFromSpecImpl;

verus! {

/// Connection type for the LaserCube.
#[derive(Debug, Clone, Copy, PartialEq, Eq, Structural)]
pub enum ConnectionType {
    /// Unknown connection type.
    Unknown,
    /// Connected via USB.
    Usb,
    /// Connected via Ethernet.
    Ethernet,
    /// Connected via Wifi.
    Wifi,
}

impl ConnectionType {
    /// The connection type that a wire byte names: 1, 2 and 3 are USB,
    /// Ethernet and Wifi; every other value is unknown.
    pub open spec fn of_byte(value: u8) -> ConnectionType {
        if value == 1 {
            ConnectionType::Usb
        } else if value == 2 {
            ConnectionType::Ethernet
        } else if value == 3 {
            ConnectionType::Wifi
        } else {
            ConnectionType::Unknown
        }
    }
}

impl From<u8> for ConnectionType {
    fn from(value: u8) -> (conn: ConnectionType)
        ensures
            conn == ConnectionType::of_byte(value),
    {
        match value {
            1 => ConnectionType::Usb,
            2 => ConnectionType::Ethernet,
            3 => ConnectionType::Wifi,
            _ => ConnectionType::Unknown,
        }
    }
}

impl FromSpecImpl<u8> for ConnectionType {
    open spec fn obeys_from_spec() -> bool {
        true
    }

    open spec fn from_spec(value: u8) -> ConnectionType {
        ConnectionType::of_byte(value)
    }
}

/// Why bytes could not be read as a device-info record.
#[derive(Debug, Clone, Copy, PartialEq, Eq, Structural)]
pub enum LaserInfoParseError {
    /// Fewer bytes than the fixed header takes.
    ResponseTooShort { expected: usize, actual: usize },
    /// No zero byte ends the model name.
    MissingNullTerminator,
}

/// Fixed-size header portion of the LaserInfo response.
#[derive(Debug, Clone, Copy, PartialEq, Eq)]
pub struct LaserInfoHeader {
    /// Firmware major version.
    pub fw_major: u8,
    /// Firmware minor version.
    pub fw_minor: u8,
    /// Status flags containing output enabled, interlock status, etc.
    pub status: StatusFlags,
    /// Current DAC rate.
    pub dac_rate: u32,
    /// Maximum DAC rate.
    pub max_dac_rate: u32,
    /// Current free space in the RX buffer.
    pub rx_buffer_free: u16,
    /// Total size of the RX buffer.
    pub rx_buffer_size: u16,
    /// Battery percentage.
    pub battery_percent: u8,
    /// Device temperature.
    pub temperature: u8,
    /// Model number.
    pub model_number: u8,
    /// The type of connection (usb, ethernet, wifi, unknown).
    pub conn_type: ConnectionType,
    /// Serial number.
    pub serial_number: [u8; 6],
    /// IPv4 address, first octet first.
    pub ip_addr: [u8; 4],
}

/// The fixed-size header along with the variable length model name.
#[derive(Debug, PartialEq, Eq)]
pub struct LaserInfo {
    /// Fixed-size header fields.
    pub header: LaserInfoHeader,
    /// Model name (variable length, no greater than 26 bytes).
    pub model_name: String,
}

/// A device-info record as specifications see it: the model name is the
/// sequence of its characters.
pub struct LaserInfoView {
    pub header: LaserInfoHeader,
    pub model_name: Seq<char>,
}

impl View for LaserInfo {
    type V = LaserInfoView;

    open spec fn view(&self) -> LaserInfoView {
        LaserInfoView { header: self.header, model_name: self.model_name@ }
    }
}

impl Clone for LaserInfo {
    fn clone(&self) -> (copy: LaserInfo)
        ensures
            copy == *self,
    {
        LaserInfo { header: self.header, model_name: self.model_name.clone() }
    }
}

/// Whether a zero byte occurs in `bytes`.
pub open spec fn has_terminator(bytes: Seq<u8>) -> bool {
    exists|i: int| 0 <= i < bytes.len() && bytes[i] == 0
}

/// Whether `i` is the place of the first zero byte of `bytes`.
pub open spec fn is_terminator(bytes: Seq<u8>, i: int) -> bool {
    &&& 0 <= i < bytes.len()
    &&& bytes[i] == 0
    &&& forall|j: int| 0 <= j < i ==> bytes[j] != 0
}

/// The bytes that come before the first zero byte of `bytes`.
pub open spec fn until_terminator(bytes: Seq<u8>) -> Seq<u8> {
    bytes.take(choose|i: int| is_terminator(bytes, i))
}

/// What decoding `bytes` as a device-info record gives: the header read
/// from the first 38 bytes and the name that the following bytes spell up to
/// their first zero byte, or the reason why there is none.
pub open spec fn decode_laser_info(bytes: Seq<u8>) -> Result<LaserInfoView, LaserInfoParseError> {
    if bytes.len() < LaserInfoHeader::SIZE {
        Err(
            LaserInfoParseError::ResponseTooShort {
                expected: LaserInfoHeader::SIZE,
                actual: bytes.len() as usize,
            },
        )
    } else if !has_terminator(bytes.skip(LaserInfoHeader::SIZE as int)) {
        Err(LaserInfoParseError::MissingNullTerminator)
    } else {
        Ok(
            LaserInfoView {
                header: LaserInfoHeader::from_wire(bytes),
                model_name: decoded_text(
                    until_terminator(bytes.skip(LaserInfoHeader::SIZE as int)),
                ),
            },
        )
    }
}

/// Finds the first zero byte at or after `start`.
fn find_terminator(bytes: &[u8], start: usize) -> (found: Option<usize>)
    requires
        start <= bytes@.len(),
    ensures
        match found {
            Some(end) => start <= end < bytes@.len() && is_terminator(
                bytes@.skip(start as int),
                end - start,
            ),
            None => !has_terminator(bytes@.skip(start as int)),
        },
{
    let mut i: usize = start;
    while i < bytes.len()
        invariant
            start <= i <= bytes@.len(),
            forall|j: int| start <= j < i ==> bytes@[j] != 0,
        decreases bytes@.len() - i,
    {
        if bytes[i] == 0 {
            return Some(i);
        }
        i += 1;
    }
    None
}

impl LaserInfoHeader {
    /// The size of the header encoded as bytes.
    pub const SIZE: usize = 38;

    /// The header that the first 38 of `b` hold. Bytes 0 to 2, 6 to 9, 18
    /// and 36 are reserved and not read.
    pub open spec fn from_wire(b: Seq<u8>) -> LaserInfoHeader {
        LaserInfoHeader {
            fw_major: b[3],
            fw_minor: b[4],
            status: StatusFlags { bits: b[5] },
            dac_rate: u32_from_le(b[10], b[11], b[12], b[13]),
            max_dac_rate: u32_from_le(b[14], b[15], b[16], b[17]),
            rx_buffer_free: u16_from_le(b[19], b[20]),
            rx_buffer_size: u16_from_le(b[21], b[22]),
            battery_percent: b[23],
            temperature: b[24],
            model_number: b[37],
            conn_type: ConnectionType::of_byte(b[25]),
            serial_number: [b[26], b[27], b[28], b[29], b[30], b[31]],
            ip_addr: [b[32], b[33], b[34], b[35]],
        }
    }

    /// Reads the header from the start of a slice.
    fn read(b: &[u8]) -> (header: LaserInfoHeader)
        requires
            b@.len() >= LaserInfoHeader::SIZE,
        ensures
            header == LaserInfoHeader::from_wire(b@),
    {
        LaserInfoHeader {
            fw_major: b[3],
            fw_minor: b[4],
            status: StatusFlags::from_bits_retain(b[5]),
            dac_rate: read_u32_le(b[10], b[11], b[12], b[13]),
            max_dac_rate: read_u32_le(b[14], b[15], b[16], b[17]),
            rx_buffer_free: read_u16_le(b[19], b[20]),
            rx_buffer_size: read_u16_le(b[21], b[22]),
            battery_percent: b[23],
            temperature: b[24],
            model_number: b[37],
            conn_type: ConnectionType::from(b[25]),
            serial_number: [b[26], b[27], b[28], b[29], b[30], b[31]],
            ip_addr: [b[32], b[33], b[34], b[35]],
        }
    }

    /// Whether two headers hold the same values.
    pub fn same_as(&self, other: &LaserInfoHeader) -> (same: bool)
        ensures
            same == (*self == *other),
    {
        let same = self.fw_major == other.fw_major && self.fw_minor == other.fw_minor
            && self.status.bits == other.status.bits && self.dac_rate == other.dac_rate
            && self.max_dac_rate == other.max_dac_rate && self.rx_buffer_free
            == other.rx_buffer_free && self.rx_buffer_size == other.rx_buffer_size
            && self.battery_percent == other.battery_percent && self.temperature
            == other.temperature && self.model_number == other.model_number && self.conn_type
            == other.conn_type && self.serial_number[0] == other.serial_number[0]
            && self.serial_number[1] == other.serial_number[1] && self.serial_number[2]
            == other.serial_number[2] && self.serial_number[3] == other.serial_number[3]
            && self.serial_number[4] == other.serial_number[4] && self.serial_number[5]
            == other.serial_number[5] && self.ip_addr[0] == other.ip_addr[0] && self.ip_addr[1]
            == other.ip_addr[1] && self.ip_addr[2] == other.ip_addr[2] && self.ip_addr[3]
            == other.ip_addr[3];
        assert(same ==> self.serial_number =~= other.serial_number);
        assert(same ==> self.ip_addr =~= other.ip_addr);
        same
    }

    /// Get whether interlock is enabled.
    pub fn interlock_enabled(&self) -> (enabled: bool)
        ensures
            enabled == self.status.spec_interlock_enabled(self.fw_major, self.fw_minor),
    {
        self.status.interlock_enabled(self.fw_major, self.fw_minor)
    }

    /// Get whether a temperature warning is active.
    pub fn temperature_warning(&self) -> (warning: bool)
        ensures
            warning == self.status.spec_temperature_warning(self.fw_major, self.fw_minor),
    {
        self.status.temperature_warning(self.fw_major, self.fw_minor)
    }

    /// Get whether an over-temperature condition is active.
    pub fn over_temperature(&self) -> (over: bool)
        ensures
            over == self.status.spec_over_temperature(self.fw_major, self.fw_minor),
    {
        self.status.over_temperature(self.fw_major, self.fw_minor)
    }
}

impl From<[u8; 38]> for LaserInfoHeader {
    fn from(bytes: [u8; 38]) -> (header: LaserInfoHeader)
        ensures
            header == LaserInfoHeader::from_wire(bytes@),
    {
        LaserInfoHeader::read(bytes.as_slice())
    }
}

impl FromSpecImpl<[u8; 38]> for LaserInfoHeader {
    open spec fn obeys_from_spec() -> bool {
        true
    }

    open spec fn from_spec(bytes: [u8; 38]) -> LaserInfoHeader {
        LaserInfoHeader::from_wire(bytes@)
    }
}

impl LaserInfo {
    /// The minimum size of the `LaserInfo` in bytes.
    pub const MIN_SIZE: usize = 38;

    /// The maximum size of the `LaserInfo` in bytes.
    pub const MAX_SIZE: usize = 64;

    /// The maximum size of the `LaserInfo`'s model name field in bytes.
    pub const MAX_MODEL_NAME_SIZE: usize = 26;

    /// The firmware version as text: major, a dot, minor.
    pub open spec fn spec_firmware_version(self) -> Seq<char> {
        decimal(self.header.fw_major as nat) + seq!['.'] + decimal(self.header.fw_minor as nat)
    }

    /// The serial number as text: six hexadecimal pairs joined by colons.
    pub open spec fn spec_serial_number_string(self) -> Seq<char> {
        colon_hex(self.header.serial_number@)
    }

    /// A record made of a header and a model name.
    pub fn new(header: LaserInfoHeader, model_name: String) -> (info: LaserInfo)
        ensures
            info@ == (LaserInfoView { header, model_name: model_name@ }),
    {
        LaserInfo { header, model_name }
    }

    /// Whether two records hold the same header and spell the same name.
    pub fn same_as(&self, other: &LaserInfo) -> (same: bool)
        ensures
            same == (self@ == other@),
    {
        self.header.same_as(&other.header) && self.model_name == other.model_name
    }

    /// Get the firmware version as a string (e.g., "1.2").
    pub fn firmware_version(&self) -> (version: String)
        ensures
            version@ == self.spec_firmware_version(),
    {
        let mut version = String::new();
        push_decimal(&mut version, self.header.fw_major);
        push_char(&mut version, '.');
        push_decimal(&mut version, self.header.fw_minor);
        assert(version@ =~= self.spec_firmware_version());
        version
    }

    /// Get the serial number as a formatted string (xx:xx:xx:xx:xx:xx).
    pub fn serial_number_string(&self) -> (serial: String)
        ensures
            serial@ == self.spec_serial_number_string(),
    {
        let mut serial = String::new();
        let mut i: usize = 0;
        while i < 6
            invariant
                i <= 6,
                serial@ == colon_hex(self.header.serial_number@.take(i as int)),
            decreases 6 - i,
        {
            let ghost before = self.header.serial_number@.take(i as int);
            let ghost after = self.header.serial_number@.take(i + 1);
            assert(after.drop_last() =~= before);
            if i > 0 {
                push_char(&mut serial, ':');
            }
            push_hex_pair(&mut serial, self.header.serial_number[i]);
            assert(serial@ =~= colon_hex(after));
            i += 1;
        }
        assert(self.header.serial_number@.take(6) =~= self.header.serial_number@);
        serial
    }
}

impl<'a> TryFrom<&'a [u8]> for LaserInfo {
    type Error = LaserInfoParseError;

    fn try_from(bytes: &'a [u8]) -> (decoded: Result<LaserInfo, LaserInfoParseError>)
        ensures
            match decoded {
                Ok(info) => decode_laser_info(bytes@) == Ok::<LaserInfoView, LaserInfoParseError>(
                    info@,
                ),
                Err(e) => decode_laser_info(bytes@) == Err::<LaserInfoView, LaserInfoParseError>(
                    e,
                ),
            },
    {
        if bytes.len() < LaserInfoHeader::SIZE {
            return Err(
                LaserInfoParseError::ResponseTooShort {
                    expected: LaserInfoHeader::SIZE,
                    actual: bytes.len(),
                },
            );
        }
        let header = LaserInfoHeader::read(bytes);
        let start = LaserInfoHeader::SIZE;
        match find_terminator(bytes, start) {
            None => Err(LaserInfoParseError::MissingNullTerminator),
            Some(end) => {
                let name_bytes = vstd::slice::slice_subrange(bytes, start, end);
                proof {
                    let tail = bytes@.skip(start as int);
                    let n = end - start;
                    assert(is_terminator(tail, n));
                    assert(tail[n] == 0);
                    let chosen = choose|i: int| is_terminator(tail, i);
                    assert(is_terminator(tail, chosen));
                    assert(chosen == n) by {
                        if chosen < n {
                            assert(tail[chosen] != 0);
                        } else if n < chosen {
                            assert(tail[n] != 0);
                        }
                    }
                    assert(name_bytes@ =~= until_terminator(tail));
                }
                let model_name = decode_lossy(name_bytes);
                Ok(LaserInfo::new(header, model_name))
            },
        }
    }
}

impl<'a> TryFromSpecImpl<&'a [u8]> for LaserInfo {
    /// A record holds a `String`, which specifications see through its view
    /// only: what `try_from` returns is stated in its own `ensures`.
    open spec fn obeys_try_from_spec() -> bool {
        false
    }

    open spec fn try_from_spec(bytes: &'a [u8]) -> Result<LaserInfo, LaserInfoParseError> {
        arbitrary()
    }
}

} // verus!
