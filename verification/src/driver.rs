//! The protocol cycle: finish, read the next request, emit responses.
//!
//! The device itself is driven by the caller. Each operation is split at the native call:
//! one function decides what is handed to the device, or that nothing is, and another
//! turns the status and data that the device gave back into the operation's result.

use vstd::prelude::*;
use crate::codec::{decode_spec, encode, encode_spec, try_decode};
use crate::error::{
    fails_with, fails_with_message, kind_message, payload_format_message, Operation, RollupError,
    RollupErrorKind,
};
use crate::types::{
    AdvanceDescriptor, AdvanceMetadata, AdvanceRequest, Exception, FinishTransfer,
    InspectDescriptor, InspectRequest, Notice, ReadCall, ReadReply, Report, RollupFinish,
    RollupRequest, Voucher, VoucherEmission,
};
use crate::validate::{is_eth_address, is_eth_address_spec, is_u256_value, is_u256_value_spec};

verus! {

/// The finish status that opens a cycle: the verdict on the previous request, and zeroed
/// fields for the next one.
pub open spec fn finish_request_spec(accept: bool) -> RollupFinish {
    RollupFinish {
        accept_previous_request: accept,
        next_request_type: 0,
        next_request_payload_length: 0,
    }
}

/// The structure to hand to the device's finish call for the given verdict.
pub fn finish_transfer(accept: bool) -> (transfer: FinishTransfer)
    ensures
        transfer == FinishTransfer::of_finish(finish_request_spec(accept)),
        transfer.accept_previous_request == accept,
        transfer.next_request_type == 0,
        transfer.next_request_payload_length == 0,
{
    let mut finish = RollupFinish::default();
    finish.accept_previous_request = accept;
    FinishTransfer::from(finish)
}

/// Takes in what the device's finish call gave back. Any nonzero status, negative or
/// positive, fails and leaves `finish` as it was; on status zero `finish` becomes what the
/// device wrote into `reply`.
pub fn rollup_finish_request(finish: &mut RollupFinish, res: i32, reply: FinishTransfer) -> (r:
    Result<(), RollupError>)
    ensures
        res != 0 ==> *final(finish) == *old(finish) && fails_with(
            r,
            RollupErrorKind::Device { operation: Operation::Finish, code: res },
        ),
        res == 0 ==> r is Ok && *final(finish) == RollupFinish::of_transfer(reply),
{
    if res != 0 {
        return Err(
            RollupError::of_kind(
                RollupErrorKind::Device { operation: Operation::Finish, code: res },
            ),
        );
    }
    *finish = RollupFinish::from(reply);
    Ok(())
}

/// The finish step of a cycle, given the verdict that was sent and what the device's finish
/// call gave back: on status zero the descriptor of the next request, on any other status
/// the device failure.
pub fn perform_rollup_finish_request(accept: bool, res: i32, reply: FinishTransfer) -> (r: Result<
    RollupFinish,
    RollupError,
>)
    ensures
        res != 0 ==> fails_with(
            r,
            RollupErrorKind::Device { operation: Operation::Finish, code: res },
        ),
        res == 0 ==> r == Ok::<RollupFinish, RollupError>(RollupFinish::of_transfer(reply)),
{
    let mut finish_request = RollupFinish::default();
    finish_request.accept_previous_request = accept;
    match rollup_finish_request(&mut finish_request, res, reply) {
        Ok(_) => Ok(finish_request),
        Err(e) => Err(e),
    }
}

/// Picks the native read for the request that the finish step announced. Any type other
/// than advance and inspect is refused, and then no read is to be issued.
pub fn handle_rollup_requests(finish_request: RollupFinish) -> (r: Result<ReadCall, RollupError>)
    ensures
        finish_request.next_request_type == 0 ==> r == Ok::<ReadCall, RollupError>(
            ReadCall::AdvanceState,
        ),
        finish_request.next_request_type == 1 ==> r == Ok::<ReadCall, RollupError>(
            ReadCall::InspectState,
        ),
        finish_request.next_request_type != 0 && finish_request.next_request_type != 1
            ==> fails_with(
            r,
            RollupErrorKind::UnsupportedRequestType(finish_request.next_request_type),
        ),
{
    let next_request_type = finish_request.next_request_type;
    if next_request_type == 0 {
        Ok(ReadCall::AdvanceState)
    } else if next_request_type == 1 {
        Ok(ReadCall::InspectState)
    } else {
        Err(RollupError::of_kind(RollupErrorKind::UnsupportedRequestType(next_request_type)))
    }
}

impl AdvanceMetadata {
    /// The metadata of an advance request: the sender as hex text, the block data as the
    /// device reported it.
    pub fn from_descriptor(descriptor: &AdvanceDescriptor) -> (metadata: Self)
        ensures
            metadata.msg_sender@ == encode_spec(descriptor.msg_sender@),
            metadata.msg_sender@.len() == 42,
            metadata.input_index == descriptor.index,
            metadata.block_number == descriptor.block_number,
            metadata.block_timestamp == descriptor.block_timestamp,
    {
        let address = encode(descriptor.msg_sender.as_slice());
        AdvanceMetadata {
            input_index: descriptor.index,
            block_timestamp: descriptor.block_timestamp,
            block_number: descriptor.block_number,
            msg_sender: address,
        }
    }
}

/// Holds where `request` is the advance request that `descriptor` describes: the payload
/// and the sender as hex text of exactly the bytes reported, the block data unchanged.
pub open spec fn advance_request_of(descriptor: AdvanceDescriptor, request: AdvanceRequest) -> bool {
    &&& request.payload@ == encode_spec(descriptor.payload@)
    &&& request.payload@.len() == 2 + 2 * descriptor.payload@.len()
    &&& request.metadata.msg_sender@ == encode_spec(descriptor.msg_sender@)
    &&& request.metadata.msg_sender@.len() == 42
    &&& request.metadata.input_index == descriptor.index
    &&& request.metadata.block_number == descriptor.block_number
    &&& request.metadata.block_timestamp == descriptor.block_timestamp
}

/// Holds where `request` is the inspect request that `descriptor` describes: the payload
/// as hex text of exactly the bytes reported.
pub open spec fn inspect_request_of(descriptor: InspectDescriptor, request: InspectRequest) -> bool {
    &&& request.payload@ == encode_spec(descriptor.payload@)
    &&& request.payload@.len() == 2 + 2 * descriptor.payload@.len()
}

/// Assembles the advance request from what the device's advance read gave back. A nonzero
/// status fails; otherwise the payload is the hex text of exactly the bytes read.
pub fn rollup_read_advance_state_request(res: i32, descriptor: &AdvanceDescriptor) -> (r: Result<
    AdvanceRequest,
    RollupError,
>)
    ensures
        res != 0 ==> fails_with(
            r,
            RollupErrorKind::Device { operation: Operation::ReadAdvanceState, code: res },
        ),
        res == 0 ==> (r matches Ok(request) && advance_request_of(*descriptor, request)),
{
    if res != 0 {
        return Err(
            RollupError::of_kind(
                RollupErrorKind::Device { operation: Operation::ReadAdvanceState, code: res },
            ),
        );
    }
    Ok(
        AdvanceRequest {
            metadata: AdvanceMetadata::from_descriptor(descriptor),
            payload: encode(descriptor.payload.as_slice()),
        },
    )
}

/// Assembles the inspect request from what the device's inspect read gave back. A nonzero
/// status fails; otherwise the payload is the hex text of exactly the bytes read.
pub fn rollup_read_inspect_state_request(res: i32, descriptor: &InspectDescriptor) -> (r: Result<
    InspectRequest,
    RollupError,
>)
    ensures
        res != 0 ==> fails_with(
            r,
            RollupErrorKind::Device { operation: Operation::ReadInspectState, code: res },
        ),
        res == 0 ==> (r matches Ok(request) && inspect_request_of(*descriptor, request)),
{
    if res != 0 {
        return Err(
            RollupError::of_kind(
                RollupErrorKind::Device { operation: Operation::ReadInspectState, code: res },
            ),
        );
    }
    Ok(InspectRequest { payload: encode(descriptor.payload.as_slice()) })
}

/// The request that a native read produced, from what that read gave back. A nonzero
/// status fails with the device error of the read that was made.
pub fn receive_rollup_request(reply: &ReadReply) -> (r: Result<RollupRequest, RollupError>)
    ensures
        match *reply {
            ReadReply::AdvanceState { res, descriptor } => if res != 0 {
                fails_with(
                    r,
                    RollupErrorKind::Device { operation: Operation::ReadAdvanceState, code: res },
                )
            } else {
                r matches Ok(RollupRequest::Advance(request)) && advance_request_of(
                    descriptor,
                    request,
                )
            },
            ReadReply::InspectState { res, descriptor } => if res != 0 {
                fails_with(
                    r,
                    RollupErrorKind::Device { operation: Operation::ReadInspectState, code: res },
                )
            } else {
                r matches Ok(RollupRequest::Inspect(request)) && inspect_request_of(
                    descriptor,
                    request,
                )
            },
        },
{
    match reply {
        ReadReply::AdvanceState { res, descriptor } => {
            match rollup_read_advance_state_request(*res, descriptor) {
                Ok(request) => Ok(RollupRequest::Advance(request)),
                Err(e) => Err(e),
            }
        },
        ReadReply::InspectState { res, descriptor } => {
            match rollup_read_inspect_state_request(*res, descriptor) {
                Ok(request) => Ok(RollupRequest::Inspect(request)),
                Err(e) => Err(e),
            }
        },
    }
}

/// Holds where an emitter hands the device exactly the bytes that `payload` decodes to, or
/// fails with a payload format error that names the emission where it decodes to nothing.
pub open spec fn emits_payload(
    operation: Operation,
    payload: Seq<char>,
    r: Result<Vec<u8>, RollupError>,
) -> bool {
    match decode_spec(payload) {
        Some(bytes) => r matches Ok(buffer) && buffer@ == bytes,
        None => fails_with_message(
            r,
            RollupErrorKind::PayloadFormat,
            payload_format_message(operation),
        ),
    }
}

fn decode_payload(operation: Operation, payload: &str) -> (r: Result<Vec<u8>, RollupError>)
    ensures
        emits_payload(operation, payload@, r),
{
    match try_decode(payload) {
        Some(bytes) => Ok(bytes),
        None => Err(RollupError::payload_format(operation)),
    }
}

/// The bytes to hand to the device for a notice. Where the payload is not hex text, the
/// notice is refused and nothing is to be sent.
pub fn rollup_write_notice(notice: &Notice) -> (r: Result<Vec<u8>, RollupError>)
    ensures
        emits_payload(Operation::WriteNotice, notice.payload@, r),
{
    decode_payload(Operation::WriteNotice, notice.payload.as_str())
}

/// The bytes to hand to the device for a report. Where the payload is not hex text, the
/// report is refused and nothing is to be sent.
pub fn rollup_write_report(report: &Report) -> (r: Result<Vec<u8>, RollupError>)
    ensures
        emits_payload(Operation::WriteReport, report.payload@, r),
{
    decode_payload(Operation::WriteReport, report.payload.as_str())
}

/// The bytes to hand to the device for an exception. Where the payload is not hex text,
/// the exception is refused and nothing is to be sent.
pub fn rollup_throw_exception(exception: &Exception) -> (r: Result<Vec<u8>, RollupError>)
    ensures
        emits_payload(Operation::ThrowException, exception.payload@, r),
{
    decode_payload(Operation::ThrowException, exception.payload.as_str())
}

/// The message with which a voucher is refused for a failure of the given kind.
pub open spec fn voucher_failure_message(kind: RollupErrorKind) -> Seq<char> {
    if kind == RollupErrorKind::PayloadFormat {
        payload_format_message(Operation::WriteVoucher)
    } else {
        kind_message(kind)
    }
}

/// Why a voucher is refused, if it is: the destination and the value are validated first,
/// in that order; then payload, value and destination are decoded.
pub open spec fn voucher_failure(
    destination: Seq<char>,
    value: Seq<char>,
    payload: Seq<char>,
) -> Option<RollupErrorKind> {
    if !is_eth_address_spec(destination) {
        Some(RollupErrorKind::AddressFormat)
    } else if !is_u256_value_spec(value) {
        Some(RollupErrorKind::ValueFormat)
    } else if decode_spec(payload) is None {
        Some(RollupErrorKind::PayloadFormat)
    } else if decode_spec(value) is None {
        Some(RollupErrorKind::ValueFormat)
    } else if decode_spec(destination) is None {
        Some(RollupErrorKind::AddressFormat)
    } else {
        None
    }
}

/// The decoded fields to hand to the device for a voucher. Where a field fails validation
/// or decoding, the voucher is refused and nothing is to be sent.
pub fn rollup_write_voucher(voucher: &Voucher) -> (r: Result<VoucherEmission, RollupError>)
    ensures
        match voucher_failure(voucher.destination@, voucher.value@, voucher.payload@) {
            Some(kind) => fails_with_message(r, kind, voucher_failure_message(kind)),
            None => r matches Ok(emission) && Some(emission.destination@) == decode_spec(
                voucher.destination@,
            ) && Some(emission.value@) == decode_spec(voucher.value@) && Some(emission.payload@)
                == decode_spec(voucher.payload@),
        },
{
    if !is_eth_address(voucher.destination.as_str()) {
        return Err(RollupError::of_kind(RollupErrorKind::AddressFormat));
    }
    if !is_u256_value(voucher.value.as_str()) {
        return Err(RollupError::of_kind(RollupErrorKind::ValueFormat));
    }
    let payload = match try_decode(voucher.payload.as_str()) {
        Some(bytes) => bytes,
        None => {
            return Err(RollupError::payload_format(Operation::WriteVoucher));
        },
    };
    let value = match try_decode(voucher.value.as_str()) {
        Some(bytes) => bytes,
        None => {
            return Err(RollupError::of_kind(RollupErrorKind::ValueFormat));
        },
    };
    let destination = match try_decode(voucher.destination.as_str()) {
        Some(bytes) => bytes,
        None => {
            return Err(RollupError::of_kind(RollupErrorKind::AddressFormat));
        },
    };
    Ok(VoucherEmission { destination, value, payload })
}

/// The result of an emission that yields no index, from the status of its native call.
pub fn emit_outcome(operation: Operation, res: i32) -> (r: Result<(), RollupError>)
    ensures
        res == 0 ==> r is Ok,
        res != 0 ==> fails_with(r, RollupErrorKind::Device { operation, code: res }),
{
    if res != 0 {
        Err(RollupError::of_kind(RollupErrorKind::Device { operation, code: res }))
    } else {
        Ok(())
    }
}

/// The result of an emission that yields an index, from the status of its native call and
/// the index that the device assigned, which is passed on as it is.
pub fn indexed_emit_outcome(operation: Operation, res: i32, index: u64) -> (r: Result<
    u64,
    RollupError,
>)
    ensures
        res == 0 ==> r == Ok::<u64, RollupError>(index),
        res != 0 ==> fails_with(r, RollupErrorKind::Device { operation, code: res }),
{
    if res != 0 {
        Err(RollupError::of_kind(RollupErrorKind::Device { operation, code: res }))
    } else {
        Ok(index)
    }
}

} // verus!
