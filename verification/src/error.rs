//! Failures of the protocol driver.

use vstd::prelude::*;
use crate::text::{signed_decimal_string, signed_decimal_text};

verus! {

/// The native device operations that can report a failure status.
#[derive(Clone, Copy, Debug, PartialEq, Eq, Structural)]
pub enum Operation {
    Finish,
    ReadAdvanceState,
    ReadInspectState,
    WriteNotice,
    WriteVoucher,
    WriteReport,
    ThrowException,
}

/// What went wrong.
#[derive(Clone, Copy, Debug, PartialEq, Eq, Structural)]
pub enum RollupErrorKind {
    /// A native call returned a failure status.
    Device { operation: Operation, code: i32 },
    /// A payload is not `0x`-prefixed hex text.
    PayloadFormat,
    /// A voucher destination failed address validation or decoding.
    AddressFormat,
    /// A voucher value failed validation or decoding.
    ValueFormat,
    /// The device announced a request type that is neither advance nor inspect.
    UnsupportedRequestType(i32),
    /// A failure described only by its message.
    Other,
}

/// A failure together with its human-readable description.
#[derive(Debug, Clone)]
pub struct RollupError {
    pub kind: RollupErrorKind,
    pub message: String,
}

/// The name under which an operation appears in messages.
pub open spec fn operation_name(operation: Operation) -> Seq<char> {
    match operation {
        Operation::Finish => "IOCTL_ROLLUP_FINISH"@,
        Operation::ReadAdvanceState => "IOCTL_ROLLUP_READ_ADVANCE_STATE"@,
        Operation::ReadInspectState => "IOCTL_ROLLUP_READ_INSPECT_STATE"@,
        Operation::WriteNotice => "IOCTL_ROLLUP_WRITE_NOTICE"@,
        Operation::WriteVoucher => "IOCTL_ROLLUP_WRITE_VOUCHER"@,
        Operation::WriteReport => "IOCTL_ROLLUP_WRITE_REPORT"@,
        Operation::ThrowException => "IOCTL_ROLLUP_THROW_EXCEPTION"@,
    }
}

/// The message that describes a failure of the given kind.
pub open spec fn kind_message(kind: RollupErrorKind) -> Seq<char> {
    match kind {
        RollupErrorKind::Device { operation, code } => operation_name(operation)
            + " returned error "@ + signed_decimal_text(code as int),
        RollupErrorKind::PayloadFormat => "payload must be in Ethereum hex binary format"@,
        RollupErrorKind::AddressFormat =>
            "Error decoding voucher destination, address not valid"@,
        RollupErrorKind::ValueFormat =>
            "Error decoding voucher value, it must be in Ethereum hex binary format"@,
        RollupErrorKind::UnsupportedRequestType(value) => "request type "@
            + signed_decimal_text(value as int) + " unsupported"@,
        RollupErrorKind::Other => Seq::empty(),
    }
}

/// The message for a payload that is not hex text, naming the emission it was meant for.
pub open spec fn payload_format_message(operation: Operation) -> Seq<char> {
    match operation {
        Operation::WriteNotice =>
            "Error decoding notice payload, payload must be in Ethereum hex binary format"@,
        Operation::WriteVoucher =>
            "Error decoding voucher payload, it must be in Ethereum hex binary format"@,
        Operation::WriteReport =>
            "Error decoding report payload, payload must be in Ethereum hex binary format"@,
        Operation::ThrowException =>
            "Error decoding exception payload, payload must be in Ethereum hex binary format"@,
        _ => kind_message(RollupErrorKind::PayloadFormat),
    }
}

/// Holds of a result that failed with exactly this kind and this message.
pub open spec fn fails_with_message<T>(
    r: Result<T, RollupError>,
    kind: RollupErrorKind,
    message: Seq<char>,
) -> bool {
    r matches Err(e) && e.kind == kind && e.message@ == message
}

/// Holds of a result that failed with exactly this kind and its standard message.
pub open spec fn fails_with<T>(r: Result<T, RollupError>, kind: RollupErrorKind) -> bool {
    fails_with_message(r, kind, kind_message(kind))
}

fn operation_label(operation: Operation) -> (r: &'static str)
    ensures
        r@ == operation_name(operation),
{
    match operation {
        Operation::Finish => "IOCTL_ROLLUP_FINISH",
        Operation::ReadAdvanceState => "IOCTL_ROLLUP_READ_ADVANCE_STATE",
        Operation::ReadInspectState => "IOCTL_ROLLUP_READ_INSPECT_STATE",
        Operation::WriteNotice => "IOCTL_ROLLUP_WRITE_NOTICE",
        Operation::WriteVoucher => "IOCTL_ROLLUP_WRITE_VOUCHER",
        Operation::WriteReport => "IOCTL_ROLLUP_WRITE_REPORT",
        Operation::ThrowException => "IOCTL_ROLLUP_THROW_EXCEPTION",
    }
}

impl RollupError {
    /// A failure described only by `message`.
    pub fn new(message: &str) -> (e: Self)
        ensures
            e.kind == RollupErrorKind::Other,
            e.message@ == message@,
    {
        RollupError { kind: RollupErrorKind::Other, message: String::from_str(message) }
    }

    /// A failure of the given kind, carrying the message that describes it.
    pub fn of_kind(kind: RollupErrorKind) -> (e: Self)
        ensures
            e.kind == kind,
            e.message@ == kind_message(kind),
    {
        let message = match kind {
            RollupErrorKind::Device { operation, code } => {
                let code_text = signed_decimal_string(code);
                String::from_str(operation_label(operation)).concat(" returned error ").concat(
                    code_text.as_str(),
                )
            },
            RollupErrorKind::PayloadFormat => String::from_str(
                "payload must be in Ethereum hex binary format",
            ),
            RollupErrorKind::AddressFormat => String::from_str(
                "Error decoding voucher destination, address not valid",
            ),
            RollupErrorKind::ValueFormat => String::from_str(
                "Error decoding voucher value, it must be in Ethereum hex binary format",
            ),
            RollupErrorKind::UnsupportedRequestType(value) => {
                let value_text = signed_decimal_string(value);
                String::from_str("request type ").concat(value_text.as_str()).concat(
                    " unsupported",
                )
            },
            RollupErrorKind::Other => String::new(),
        };
        RollupError { kind, message }
    }

    /// The failure of an emission whose payload is not hex text.
    pub fn payload_format(operation: Operation) -> (e: Self)
        ensures
            e.kind == RollupErrorKind::PayloadFormat,
            e.message@ == payload_format_message(operation),
    {
        let message = match operation {
            Operation::WriteNotice => String::from_str(
                "Error decoding notice payload, payload must be in Ethereum hex binary format",
            ),
            Operation::WriteVoucher => String::from_str(
                "Error decoding voucher payload, it must be in Ethereum hex binary format",
            ),
            Operation::WriteReport => String::from_str(
                "Error decoding report payload, payload must be in Ethereum hex binary format",
            ),
            Operation::ThrowException => String::from_str(
                "Error decoding exception payload, payload must be in Ethereum hex binary format",
            ),
            _ => String::from_str("payload must be in Ethereum hex binary format"),
        };
        RollupError { kind: RollupErrorKind::PayloadFormat, message }
    }

    /// The text shown for this failure.
    pub fn to_text(&self) -> (r: String)
        ensures
            r@ == "rollup error: "@ + self.message@,
    {
        String::from_str("rollup error: ").concat(self.message.as_str())
    }
}

} // verus!
