//! Commands sent to a LaserCube and the responses it sends back.

use crate::info::{decode_laser_info, LaserInfo, LaserInfoParseError, LaserInfoView};
use crate::point::Point;
use crate::wire::{read_u16_le, u16_from_le};
use vstd::prelude::*;
use vstd::std_specs::convert::FromSpecImpl;
use vstd::std_specs::convert::TryFromSpecImpl;

verus! {

/// Command types supported by the LaserCube protocol.
#[derive(Debug, Clone, Copy, PartialEq, Eq, Structural)]
pub enum CommandType {
    /// Get detailed device information.
    GetFullInfo,
    /// Enable/disable buffer size responses on data packets.
    EnableBufferSizeResponseOnData,
    /// Enable/disable laser output.
    SetOutput,
    /// Get the number of free samples in the device's ring buffer.
    GetRingbufferEmptySampleCount,
    /// Send point data to render.
    SampleData,
}

/// Command structure for the LaserCube protocol.
#[derive(Debug, Clone, PartialEq, Eq)]
pub enum Command {
    /// Get detailed device information.
    GetFullInfo,
    /// Enable/disable buffer size responses on data packets.
    EnableBufferSizeResponseOnData(bool),
    /// Enable/disable laser output.
    SetOutput(bool),
    /// Get the number of free samples in the device's ring buffer.
    GetRingbufferEmptySampleCount,
    /// Send point data to render.
    SampleData(SampleData),
}

/// Send point data to render.
#[derive(Debug, Clone, PartialEq, Eq)]
pub struct SampleData {
    /// Message sequence number (0-255).
    pub message_num: u8,
    /// Frame sequence number (0-255).
    pub frame_num: u8,
    /// Point data to render.
    pub points: Vec<Point>,
}

/// Responses from LaserCube device.
#[derive(Debug, Clone, PartialEq)]
pub enum Response {
    /// Full device information.
    FullInfo(LaserInfo),
    /// Buffer free space.
    BufferFree(u16),
    /// Simple acknowledgment.
    Ack,
}

/// A response as specifications see it.
pub enum ResponseView {
    FullInfo(LaserInfoView),
    BufferFree(u16),
    Ack,
}

impl View for Response {
    type V = ResponseView;

    open spec fn view(&self) -> ResponseView {
        match *self {
            Response::FullInfo(info) => ResponseView::FullInfo(info@),
            Response::BufferFree(free) => ResponseView::BufferFree(free),
            Response::Ack => ResponseView::Ack,
        }
    }
}

/// Error types that can occur when parsing command responses.
#[derive(Debug, Clone, Copy, PartialEq, Eq, Structural)]
pub enum ResponseParseError {
    /// The datagram holds no byte.
    EmptyResponse,
    /// The first byte is no command tag.
    UnknownCommandType(u8),
    /// The datagram ends before the payload of its command type does.
    ResponseTooShort { command_type: CommandType, expected: usize, actual: usize },
    /// The device-info record could not be read.
    LaserInfoError(LaserInfoParseError),
}

impl From<LaserInfoParseError> for ResponseParseError {
    fn from(error: LaserInfoParseError) -> (wrapped: ResponseParseError)
        ensures
            wrapped == ResponseParseError::LaserInfoError(error),
    {
        ResponseParseError::LaserInfoError(error)
    }
}

impl FromSpecImpl<LaserInfoParseError> for ResponseParseError {
    open spec fn obeys_from_spec() -> bool {
        true
    }

    open spec fn from_spec(error: LaserInfoParseError) -> ResponseParseError {
        ResponseParseError::LaserInfoError(error)
    }
}

impl CommandType {
    /// The tag byte that opens every datagram of this command type.
    pub open spec fn spec_tag(self) -> u8 {
        match self {
            CommandType::GetFullInfo => 0x77,
            CommandType::EnableBufferSizeResponseOnData => 0x78,
            CommandType::SetOutput => 0x80,
            CommandType::GetRingbufferEmptySampleCount => 0x8a,
            CommandType::SampleData => 0xa9,
        }
    }

    /// The command type that a tag byte names, if any.
    pub open spec fn of_tag(tag: u8) -> Option<CommandType> {
        if tag == 0x77 {
            Some(CommandType::GetFullInfo)
        } else if tag == 0x78 {
            Some(CommandType::EnableBufferSizeResponseOnData)
        } else if tag == 0x80 {
            Some(CommandType::SetOutput)
        } else if tag == 0x8a {
            Some(CommandType::GetRingbufferEmptySampleCount)
        } else if tag == 0xa9 {
            Some(CommandType::SampleData)
        } else {
            None
        }
    }

    /// The tag byte of this command type.
    pub fn tag(self) -> (tag: u8)
        ensures
            tag == self.spec_tag(),
    {
        match self {
            CommandType::GetFullInfo => 0x77,
            CommandType::EnableBufferSizeResponseOnData => 0x78,
            CommandType::SetOutput => 0x80,
            CommandType::GetRingbufferEmptySampleCount => 0x8a,
            CommandType::SampleData => 0xa9,
        }
    }
}

impl TryFrom<u8> for CommandType {
    type Error = ();

    fn try_from(value: u8) -> (found: Result<CommandType, ()>)
        ensures
            match found {
                Ok(command_type) => CommandType::of_tag(value) == Some(command_type),
                Err(_) => CommandType::of_tag(value).is_none(),
            },
    {
        match value {
            0x77 => Ok(CommandType::GetFullInfo),
            0x78 => Ok(CommandType::EnableBufferSizeResponseOnData),
            0x80 => Ok(CommandType::SetOutput),
            0x8a => Ok(CommandType::GetRingbufferEmptySampleCount),
            0xa9 => Ok(CommandType::SampleData),
            _ => Err(()),
        }
    }
}

impl TryFromSpecImpl<u8> for CommandType {
    open spec fn obeys_try_from_spec() -> bool {
        true
    }

    open spec fn try_from_spec(value: u8) -> Result<CommandType, ()> {
        match CommandType::of_tag(value) {
            Some(command_type) => Ok(command_type),
            None => Err(()),
        }
    }
}

/// The wire form of a sequence of points: ten bytes each, in order.
pub open spec fn points_wire(points: Seq<Point>) -> Seq<u8> {
    Seq::new(10 * points.len(), |i: int| points[i / 10].wire()[i % 10])
}

/// The byte that stands for a switch: 1 for on, 0 for off.
pub open spec fn switch_byte(enable: bool) -> u8 {
    if enable {
        1
    } else {
        0
    }
}

impl Command {
    /// The command type of this command.
    pub open spec fn spec_command_type(self) -> CommandType {
        match self {
            Command::GetFullInfo => CommandType::GetFullInfo,
            Command::EnableBufferSizeResponseOnData(_) => CommandType::EnableBufferSizeResponseOnData,
            Command::SetOutput(_) => CommandType::SetOutput,
            Command::GetRingbufferEmptySampleCount => CommandType::GetRingbufferEmptySampleCount,
            Command::SampleData(_) => CommandType::SampleData,
        }
    }

    /// The bytes that follow the tag byte.
    pub open spec fn payload(self) -> Seq<u8> {
        match self {
            Command::GetFullInfo => Seq::empty(),
            Command::EnableBufferSizeResponseOnData(enable) => seq![switch_byte(enable)],
            Command::SetOutput(enable) => seq![switch_byte(enable)],
            Command::GetRingbufferEmptySampleCount => Seq::empty(),
            Command::SampleData(data) => seq![0u8, data.message_num, data.frame_num] + points_wire(
                data.points@,
            ),
        }
    }

    /// The wire form of the command: its tag byte, then its payload.
    pub open spec fn wire(self) -> Seq<u8> {
        seq![self.spec_command_type().spec_tag()] + self.payload()
    }

    /// The number of bytes of the wire form.
    pub open spec fn wire_len(self) -> nat {
        match self {
            Command::GetFullInfo => 1,
            Command::EnableBufferSizeResponseOnData(_) => 2,
            Command::SetOutput(_) => 2,
            Command::GetRingbufferEmptySampleCount => 1,
            Command::SampleData(data) => 4 + 10 * data.points@.len(),
        }
    }

    /// Get the command type associated with this command.
    pub fn command_type(&self) -> (command_type: CommandType)
        ensures
            command_type == self.spec_command_type(),
    {
        match self {
            Command::GetFullInfo => CommandType::GetFullInfo,
            Command::EnableBufferSizeResponseOnData(_) => {
                CommandType::EnableBufferSizeResponseOnData
            },
            Command::SetOutput(_) => CommandType::SetOutput,
            Command::GetRingbufferEmptySampleCount => CommandType::GetRingbufferEmptySampleCount,
            Command::SampleData(_) => CommandType::SampleData,
        }
    }

    /// The size in bytes this command takes when serialized.
    pub fn size(&self) -> (size: usize)
        requires
            self.wire_len() <= usize::MAX,
        ensures
            size == self.wire_len(),
            size == self.wire().len(),
    {
        match self {
            Command::GetFullInfo => 1,
            Command::EnableBufferSizeResponseOnData(_) => 2,
            Command::SetOutput(_) => 2,
            Command::GetRingbufferEmptySampleCount => 1,
            Command::SampleData(data) => 4 + data.points.len() * 10,
        }
    }

    /// Write this command into the provided byte buffer.
    ///
    /// Returns the number of bytes written. The number of points is not
    /// limited here: keeping a message within what the transport carries is
    /// the caller's part.
    pub fn write_bytes(&self, buffer: &mut Vec<u8>) -> (written: usize)
        ensures
            final(buffer)@ == old(buffer)@ + self.wire(),
            written == self.wire_len(),
    {
        let start_len = buffer.len();
        match self {
            Command::GetFullInfo => {
                buffer.push(CommandType::GetFullInfo.tag());
            },
            Command::EnableBufferSizeResponseOnData(enable) => {
                buffer.push(CommandType::EnableBufferSizeResponseOnData.tag());
                buffer.push(if *enable { 1 } else { 0 });
            },
            Command::SetOutput(enable) => {
                buffer.push(CommandType::SetOutput.tag());
                buffer.push(if *enable { 1 } else { 0 });
            },
            Command::GetRingbufferEmptySampleCount => {
                buffer.push(CommandType::GetRingbufferEmptySampleCount.tag());
            },
            Command::SampleData(data) => {
                buffer.push(CommandType::SampleData.tag());
                buffer.push(0x00);
                buffer.push(data.message_num);
                buffer.push(data.frame_num);
                let ghost head = buffer@;
                let mut k: usize = 0;
                while k < data.points.len()
                    invariant
                        k <= data.points@.len(),
                        buffer@ == head + points_wire(data.points@.take(k as int)),
                    decreases data.points@.len() - k,
                {
                    let point_bytes: [u8; 10] = data.points[k].to_bytes();
                    let ghost before = buffer@;
                    buffer.extend_from_slice(point_bytes.as_slice());
                    proof {
                        let done = data.points@.take(k as int);
                        let next = data.points@.take(k + 1);
                        assert(buffer@ == before + point_bytes@);
                        assert(points_wire(next) =~= points_wire(done) + data.points@[k as int].wire());
                        assert(buffer@ =~= head + points_wire(next));
                    }
                    k += 1;
                }
                assert(data.points@.take(k as int) =~= data.points@);
            },
        }
        assert(buffer@ =~= old(buffer)@ + self.wire());
        buffer.len() - start_len
    }

    /// The command's bytes as a new `Vec<u8>`.
    pub fn to_bytes(&self) -> (bytes: Vec<u8>)
        ensures
            bytes@ == self.wire(),
            bytes@.len() == self.wire_len(),
    {
        let mut buffer = Vec::new();
        self.write_bytes(&mut buffer);
        buffer
    }
}

/// What decoding a datagram as a response gives.
///
/// The first byte names the command that the datagram answers. A full-info
/// answer is a device-info record that starts with that byte. A buffer
/// query is answered with the free space at bytes 2 and 3, a data packet
/// with the free space at bytes 1 and 2. The two switch commands are
/// acknowledged by their tag alone, whatever follows it.
pub open spec fn decode_response(bytes: Seq<u8>) -> Result<ResponseView, ResponseParseError> {
    if bytes.len() == 0 {
        Err(ResponseParseError::EmptyResponse)
    } else {
        match CommandType::of_tag(bytes[0]) {
            None => Err(ResponseParseError::UnknownCommandType(bytes[0])),
            Some(CommandType::GetFullInfo) => match decode_laser_info(bytes) {
                Ok(info) => Ok(ResponseView::FullInfo(info)),
                Err(e) => Err(ResponseParseError::LaserInfoError(e)),
            },
            Some(CommandType::GetRingbufferEmptySampleCount) => if bytes.len() < 4 {
                Err(
                    ResponseParseError::ResponseTooShort {
                        command_type: CommandType::GetRingbufferEmptySampleCount,
                        expected: 4,
                        actual: bytes.len() as usize,
                    },
                )
            } else {
                Ok(ResponseView::BufferFree(u16_from_le(bytes[2], bytes[3])))
            },
            Some(CommandType::SampleData) => if bytes.len() < 3 {
                Err(
                    ResponseParseError::ResponseTooShort {
                        command_type: CommandType::SampleData,
                        expected: 3,
                        actual: bytes.len() as usize,
                    },
                )
            } else {
                Ok(ResponseView::BufferFree(u16_from_le(bytes[1], bytes[2])))
            },
            Some(CommandType::EnableBufferSizeResponseOnData) => Ok(ResponseView::Ack),
            Some(CommandType::SetOutput) => Ok(ResponseView::Ack),
        }
    }
}

impl<'a> TryFrom<&'a [u8]> for Response {
    type Error = ResponseParseError;

    fn try_from(bytes: &'a [u8]) -> (decoded: Result<Response, ResponseParseError>)
        ensures
            match decoded {
                Ok(response) => decode_response(bytes@) == Ok::<ResponseView, ResponseParseError>(
                    response@,
                ),
                Err(e) => decode_response(bytes@) == Err::<ResponseView, ResponseParseError>(e),
            },
    {
        if bytes.len() == 0 {
            return Err(ResponseParseError::EmptyResponse);
        }
        let command_type = match CommandType::try_from(bytes[0]) {
            Ok(command_type) => command_type,
            Err(_) => {
                return Err(ResponseParseError::UnknownCommandType(bytes[0]));
            },
        };
        match command_type {
            CommandType::GetFullInfo => {
                match LaserInfo::try_from(bytes) {
                    Ok(info) => Ok(Response::FullInfo(info)),
                    Err(e) => Err(ResponseParseError::from(e)),
                }
            },
            CommandType::GetRingbufferEmptySampleCount => {
                let minimum_len: usize = 4;
                if bytes.len() < minimum_len {
                    return Err(
                        ResponseParseError::ResponseTooShort {
                            command_type,
                            expected: minimum_len,
                            actual: bytes.len(),
                        },
                    );
                }
                Ok(Response::BufferFree(read_u16_le(bytes[2], bytes[3])))
            },
            CommandType::SampleData => {
                let minimum_len: usize = 3;
                if bytes.len() < minimum_len {
                    return Err(
                        ResponseParseError::ResponseTooShort {
                            command_type,
                            expected: minimum_len,
                            actual: bytes.len(),
                        },
                    );
                }
                Ok(Response::BufferFree(read_u16_le(bytes[1], bytes[2])))
            },
            CommandType::EnableBufferSizeResponseOnData | CommandType::SetOutput => Ok(
                Response::Ack,
            ),
        }
    }
}

impl<'a> TryFromSpecImpl<&'a [u8]> for Response {
    /// A response may hold a `String`, which specifications see through its
    /// view only: what `try_from` returns is stated in its own `ensures`.
    open spec fn obeys_try_from_spec() -> bool {
        false
    }

    open spec fn try_from_spec(bytes: &'a [u8]) -> Result<Response, ResponseParseError> {
        arbitrary()
    }
}

/// A command takes as many bytes as `wire_len` says; with `n` points a data
/// message takes 4 + 10 n.
pub proof fn lemma_wire_len(command: Command)
    ensures
        command.wire().len() == command.wire_len(),
        command matches Command::SampleData(data) ==> command.wire().len() == 4 + 10
            * data.points@.len(),
{
}

/// No two command types share a tag: the tag read back names the type that
/// was written.
pub proof fn lemma_tag_round_trip(command_type: CommandType)
    ensures
        CommandType::of_tag(command_type.spec_tag()) == Some(command_type),
{
}

/// Every command opens with the tag of its own type, so the first byte of
/// what was sent tells which kind of answer to expect.
pub proof fn lemma_wire_opens_with_tag(command: Command)
    ensures
        command.wire().len() >= 1,
        CommandType::of_tag(command.wire()[0]) == Some(command.spec_command_type()),
{
}

/// Point `k` of a data message is found at bytes 4 + 10 k and following.
pub proof fn lemma_sample_data_point_at(data: SampleData, k: int)
    requires
        0 <= k < data.points@.len(),
    ensures
        Command::SampleData(data).wire().subrange(4 + 10 * k, 14 + 10 * k) == data.points@[k].wire(),
{
    let w = Command::SampleData(data).wire();
    crate::point::lemma_point_round_trip(data.points@[k]);
    assert(w.subrange(4 + 10 * k, 14 + 10 * k) =~= data.points@[k].wire());
}

} // verus!
