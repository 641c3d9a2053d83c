//! A security protocol command: the arguments handed to the firmware's
//! entry points and the result that their status makes.

use vstd::prelude::*;
use crate::status::{
    classify, command_error, is_buffer_too_small, ErrorKind, BUFFER_TOO_SMALL, SUCCESS, TIMEOUT,
    WARN_BUFFER_TOO_SMALL,
};

verus! {

/// The parameters that identify a security protocol command.
#[derive(Clone, Copy, Debug, PartialEq, Eq, Structural)]
pub struct SecurityCommand {
    /// Id of the medium the command is for. Passed through unchanged; its
    /// meaning is undefined when the device belongs to a RAID set.
    pub media_id: u32,
    /// Timeout in units of 100 ns; `0` waits indefinitely.
    pub timeout: u64,
    /// The "Security Protocol" selector of the command.
    pub protocol: u8,
    /// The "Security Protocol Specific" selector of the command.
    pub protocol_specific: u16,
}

/// The integer arguments of a firmware entry point, in the order of its
/// calling convention. The buffer's start address (and, for a receive, the
/// slot for the transfer size) follow them.
#[derive(Clone, Copy, Debug, PartialEq, Eq, Structural)]
pub struct TransferArgs {
    pub media_id: u32,
    pub timeout: u64,
    pub security_protocol: u8,
    pub security_protocol_specific_data: u16,
    /// Length of the buffer in bytes: the payload of a send, the capacity of a receive.
    pub buffer_size: usize,
}

/// Number of bytes of a receive buffer that hold data when the firmware
/// reports `reported` bytes: never more than the buffer holds.
pub open spec fn received_len(reported: usize, capacity: usize) -> usize {
    if reported <= capacity {
        reported
    } else {
        capacity
    }
}

/// Result of a receive whose entry point returned `code` and reported
/// `reported` bytes into a buffer of `capacity` bytes.
pub open spec fn receive_outcome(code: usize, reported: usize, capacity: usize) -> Result<
    usize,
    ErrorKind,
> {
    if code == SUCCESS {
        Ok(received_len(reported, capacity))
    } else if is_buffer_too_small(code) {
        Err(ErrorKind::BufferTooSmall { received: received_len(reported, capacity) })
    } else {
        Err(command_error(code))
    }
}

/// Result of a send whose entry point returned `code`.
pub open spec fn send_outcome(code: usize) -> Result<(), ErrorKind> {
    if code == SUCCESS {
        Ok(())
    } else {
        Err(command_error(code))
    }
}

impl SecurityCommand {
    /// The entry point arguments for this command and a buffer of `len` bytes.
    pub open spec fn args_for(self, len: usize) -> TransferArgs {
        TransferArgs {
            media_id: self.media_id,
            timeout: self.timeout,
            security_protocol: self.protocol,
            security_protocol_specific_data: self.protocol_specific,
            buffer_size: len,
        }
    }

    pub fn new(media_id: u32, timeout: u64, protocol: u8, protocol_specific: u16) -> (r: Self)
        ensures
            r.media_id == media_id,
            r.timeout == timeout,
            r.protocol == protocol,
            r.protocol_specific == protocol_specific,
    {
        SecurityCommand { media_id, timeout, protocol, protocol_specific }
    }

    /// Arguments for either entry point with `buffer` as the transfer buffer.
    /// Every field is passed through as it is; the length is the buffer's.
    pub fn transfer_args(&self, buffer: &[u8]) -> (r: TransferArgs)
        ensures
            r == self.args_for(buffer@.len() as usize),
            r.buffer_size == buffer@.len(),
    {
        TransferArgs {
            media_id: self.media_id,
            timeout: self.timeout,
            security_protocol: self.protocol,
            security_protocol_specific_data: self.protocol_specific,
            buffer_size: buffer.len(),
        }
    }

    /// Result of receiving this command's response into `buffer`, from the
    /// receive entry point's `status` and the transfer size it `reported`.
    /// On success, the number of leading bytes of `buffer` that hold data.
    pub fn recv_data(&self, buffer: &[u8], status: uefi_raw::Status, reported: usize) -> (r: Result<
        usize,
        ErrorKind,
    >)
        ensures
            r == receive_outcome(status.0, reported, buffer@.len() as usize),
            r matches Ok(n) ==> n <= buffer@.len(),
            r is Ok <==> status.0 == SUCCESS,
    {
        let capacity = buffer.len();
        let received = if reported <= capacity {
            reported
        } else {
            capacity
        };
        if status.is_success() {
            Ok(received)
        } else if status.0 == WARN_BUFFER_TOO_SMALL || status.0 == BUFFER_TOO_SMALL {
            Err(ErrorKind::BufferTooSmall { received })
        } else {
            Err(classify(status))
        }
    }

    /// Result of sending this command, from the send entry point's `status`.
    pub fn send_data(&self, status: uefi_raw::Status) -> (r: Result<(), ErrorKind>)
        ensures
            r == send_outcome(status.0),
            r is Ok <==> status.0 == SUCCESS,
    {
        if status.is_success() {
            Ok(())
        } else {
            Err(classify(status))
        }
    }
}

/// A successful receive never reports more bytes than the buffer holds, and
/// neither does the truncated data of a buffer-too-small error: both are the
/// firmware's reported size, bounded by the capacity.
pub proof fn lemma_receive_within_capacity(code: usize, reported: usize, capacity: usize)
    ensures
        receive_outcome(code, reported, capacity) matches Ok(n) ==> n <= capacity && n
            == received_len(reported, capacity),
        receive_outcome(code, reported, capacity) matches Err(ErrorKind::BufferTooSmall { received })
            ==> received <= capacity && received == received_len(reported, capacity),
        reported <= capacity ==> received_len(reported, capacity) == reported,
{
}

/// A zero timeout is handed to the firmware as it is, and a timeout error
/// comes only from the firmware's timeout status, never from the value itself.
pub proof fn lemma_zero_timeout_passed_through(
    cmd: SecurityCommand,
    len: usize,
    code: usize,
    reported: usize,
)
    requires
        cmd.timeout == 0,
    ensures
        cmd.args_for(len).timeout == 0,
        send_outcome(code) == Err::<(), ErrorKind>(ErrorKind::Timeout) <==> code == TIMEOUT,
        receive_outcome(code, reported, len) == Err::<usize, ErrorKind>(ErrorKind::Timeout) <==> code
            == TIMEOUT,
{
}

/// An empty send buffer is passed with length zero, and the descriptor's
/// fields unchanged.
pub proof fn lemma_empty_send_args(cmd: SecurityCommand)
    ensures
        cmd.args_for(0).buffer_size == 0,
        cmd.args_for(0).media_id == cmd.media_id,
        cmd.args_for(0).timeout == cmd.timeout,
        cmd.args_for(0).security_protocol == cmd.protocol,
        cmd.args_for(0).security_protocol_specific_data == cmd.protocol_specific,
{
}

} // verus!
