//! Matching a received datagram against the command it should answer.
//!
//! A client sends one command and reads one datagram. Before the datagram
//! counts as the answer its tag must be that of the command; only then is it
//! decoded.

use crate::cmds::{decode_response, CommandType, Response, ResponseParseError, ResponseView};
use vstd::prelude::*;

verus! {

/// Why a datagram is not the answer to the command that was sent.
#[derive(Debug, Clone, Copy, PartialEq, Eq, Structural)]
pub enum ReplyError {
    /// Failed to parse the response.
    Parse(ResponseParseError),
    /// The datagram answers another command.
    UnexpectedResponse { expected: CommandType, actual: u8 },
}

/// What a datagram read after sending a command of type `expected` amounts
/// to: the decoded response when the datagram opens with the command's tag,
/// otherwise the reason why it is no answer.
pub open spec fn reply_to(expected: CommandType, data: Seq<u8>) -> Result<ResponseView, ReplyError> {
    if data.len() == 0 {
        Err(ReplyError::Parse(ResponseParseError::EmptyResponse))
    } else if data[0] != expected.spec_tag() {
        Err(ReplyError::UnexpectedResponse { expected, actual: data[0] })
    } else {
        match decode_response(data) {
            Ok(response) => Ok(response),
            Err(e) => Err(ReplyError::Parse(e)),
        }
    }
}

/// Whether a response is of the kind that answers a command type: device
/// information for the information query, a free-space count for the buffer
/// query and for data, an acknowledgment for the two switches.
pub open spec fn answers(expected: CommandType, response: ResponseView) -> bool {
    match expected {
        CommandType::GetFullInfo => response is FullInfo,
        CommandType::GetRingbufferEmptySampleCount => response is BufferFree,
        CommandType::SampleData => response is BufferFree,
        CommandType::EnableBufferSizeResponseOnData => response is Ack,
        CommandType::SetOutput => response is Ack,
    }
}

/// A datagram that is accepted as the reply to a command carries the kind of
/// response that the command asks for.
pub proof fn lemma_reply_answers_command(expected: CommandType, data: Seq<u8>)
    ensures
        reply_to(expected, data) matches Ok(response) ==> answers(expected, response),
{
}

/// Takes a datagram as the reply to a command of type `expected`.
pub fn match_reply(expected: CommandType, data: &[u8]) -> (reply: Result<Response, ReplyError>)
    ensures
        match reply {
            Ok(response) => reply_to(expected, data@) == Ok::<ResponseView, ReplyError>(
                response@,
            ) && answers(expected, response@),
            Err(e) => reply_to(expected, data@) == Err::<ResponseView, ReplyError>(e),
        },
{
    if data.len() == 0 {
        Err(ReplyError::Parse(ResponseParseError::EmptyResponse))
    } else if data[0] == expected.tag() {
        match Response::try_from(data) {
            Ok(response) => Ok(response),
            Err(e) => Err(ReplyError::Parse(e)),
        }
    } else {
        Err(ReplyError::UnexpectedResponse { expected, actual: data[0] })
    }
}

/// Reads the reply to a buffer query: the free space that the device
/// reports.
pub fn buffer_free_reply(data: &[u8]) -> (reply: Result<u16, ReplyError>)
    ensures
        match reply {
            Ok(free) => reply_to(CommandType::GetRingbufferEmptySampleCount, data@) == Ok::<
                ResponseView,
                ReplyError,
            >(ResponseView::BufferFree(free)),
            Err(e) => reply_to(CommandType::GetRingbufferEmptySampleCount, data@) == Err::<
                ResponseView,
                ReplyError,
            >(e),
        },
{
    match match_reply(CommandType::GetRingbufferEmptySampleCount, data) {
        Ok(Response::BufferFree(free)) => Ok(free),
        Ok(_) => {
            proof {
                assert(false);
            }
            Ok(0)
        },
        Err(e) => Err(e),
    }
}

/// Takes a datagram as the reply to a switch command of type `expected`.
fn ack_reply(expected: CommandType, data: &[u8]) -> (reply: Result<(), ReplyError>)
    requires
        expected == CommandType::SetOutput || expected
            == CommandType::EnableBufferSizeResponseOnData,
    ensures
        match reply {
            Ok(_) => reply_to(expected, data@) == Ok::<ResponseView, ReplyError>(
                ResponseView::Ack,
            ),
            Err(e) => reply_to(expected, data@) == Err::<ResponseView, ReplyError>(e),
        },
{
    match match_reply(expected, data) {
        Ok(Response::Ack) => Ok(()),
        Ok(_) => {
            proof {
                assert(false);
            }
            Ok(())
        },
        Err(e) => Err(e),
    }
}

/// Reads the reply to switching the output: nothing but the fact that the
/// device acknowledged it.
pub fn set_output_reply(data: &[u8]) -> (reply: Result<(), ReplyError>)
    ensures
        match reply {
            Ok(_) => reply_to(CommandType::SetOutput, data@) == Ok::<ResponseView, ReplyError>(
                ResponseView::Ack,
            ),
            Err(e) => reply_to(CommandType::SetOutput, data@) == Err::<ResponseView, ReplyError>(
                e,
            ),
        },
{
    ack_reply(CommandType::SetOutput, data)
}

/// Reads the reply to switching buffer-size responses on data packets:
/// nothing but the fact that the device acknowledged it.
pub fn buffer_size_response_reply(data: &[u8]) -> (reply: Result<(), ReplyError>)
    ensures
        match reply {
            Ok(_) => reply_to(CommandType::EnableBufferSizeResponseOnData, data@) == Ok::<
                ResponseView,
                ReplyError,
            >(ResponseView::Ack),
            Err(e) => reply_to(CommandType::EnableBufferSizeResponseOnData, data@) == Err::<
                ResponseView,
                ReplyError,
            >(e),
        },
{
    ack_reply(CommandType::EnableBufferSizeResponseOnData, data)
}

} // verus!
