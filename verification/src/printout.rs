//! Renderings of requests and responses for diagnostics. They have no effect on the
//! protocol; the caller decides where the text goes.

use vstd::prelude::*;
use crate::codec::{has_hex_prefix, starts_with_hex_prefix};
use crate::text::{decimal_string, decimal_text};
use crate::types::{AdvanceRequest, Exception, InspectRequest, Notice, Report, Voucher};

verus! {

/// An address as it is printed: with `0x` put before it unless it already starts so.
pub open spec fn address_printout(address: Seq<char>) -> Seq<char> {
    if has_hex_prefix(address) {
        address
    } else {
        "0x"@ + address
    }
}

/// The number of bytes that a text takes in UTF-8.
pub open spec fn byte_length(text: Seq<char>) -> nat {
    vstd::utf8::encode_utf8(text).len()
}

/// A payload as it is printed after `label`: its length in bytes, then the text itself.
pub open spec fn payload_printout(label: Seq<char>, payload: Seq<char>) -> Seq<char> {
    label + "{ length: "@ + decimal_text(byte_length(payload)) + " payload: "@ + payload + "}"@
}

/// The rendering of an advance request: the sender and the block data, without the payload.
pub open spec fn advance_printout(request: AdvanceRequest) -> Seq<char> {
    "advance: {{msg_sender: "@ + address_printout(request.metadata.msg_sender@)
        + " block_number: "@ + decimal_text(request.metadata.block_number as nat)
        + " block_timestamp: "@ + decimal_text(request.metadata.block_timestamp as nat)
        + " input_index: "@ + decimal_text(request.metadata.input_index as nat) + " }"@
}

/// The rendering of a voucher: the destination, then the payload with its length in bytes.
pub open spec fn voucher_printout(voucher: Voucher) -> Seq<char> {
    "voucher: {{ destination: "@ + address_printout(voucher.destination@) + " length: "@
        + decimal_text(byte_length(voucher.payload@)) + " payload: "@ + voucher.payload@ + " }"@
}

/// Appends `address` to `printout_address`, with `0x` before it unless it is there already.
pub fn format_address_printout(address: &str, printout_address: &mut String)
    ensures
        final(printout_address)@ == old(printout_address)@ + address_printout(address@),
{
    if starts_with_hex_prefix(address) {
        printout_address.append(address);
    } else {
        printout_address.append("0x");
        printout_address.append(address);
        assert(final(printout_address)@ =~= old(printout_address)@ + ("0x"@ + address@));
    }
}

fn print_payload(label: &str, payload: &str) -> (r: String)
    ensures
        r@ == payload_printout(label@, payload@),
{
    let length = decimal_string(payload.as_bytes().len() as u64);
    String::from_str(label).concat("{ length: ").concat(length.as_str()).concat(
        " payload: ",
    ).concat(payload).concat("}")
}

/// Renders an advance request.
pub fn print_advance(advance: &AdvanceRequest) -> (r: String)
    ensures
        r@ == advance_printout(*advance),
{
    let mut printout = String::from_str("advance: {{msg_sender: ");
    format_address_printout(advance.metadata.msg_sender.as_str(), &mut printout);
    let block_number = decimal_string(advance.metadata.block_number);
    let block_timestamp = decimal_string(advance.metadata.block_timestamp);
    let input_index = decimal_string(advance.metadata.input_index);
    printout.concat(" block_number: ").concat(block_number.as_str()).concat(
        " block_timestamp: ",
    ).concat(block_timestamp.as_str()).concat(" input_index: ").concat(
        input_index.as_str(),
    ).concat(" }")
}

/// Renders an inspect request.
pub fn print_inspect(inspect: &InspectRequest) -> (r: String)
    ensures
        r@ == payload_printout("Inspect: "@, inspect.payload@),
{
    print_payload("Inspect: ", inspect.payload.as_str())
}

/// Renders a notice.
pub fn print_notice(notice: &Notice) -> (r: String)
    ensures
        r@ == payload_printout("Notice: "@, notice.payload@),
{
    print_payload("Notice: ", notice.payload.as_str())
}

/// Renders a voucher.
pub fn print_voucher(voucher: &Voucher) -> (r: String)
    ensures
        r@ == voucher_printout(*voucher),
{
    let mut printout = String::from_str("voucher: {{ destination: ");
    format_address_printout(voucher.destination.as_str(), &mut printout);
    let length = decimal_string(voucher.payload.as_str().as_bytes().len() as u64);
    printout.concat(" length: ").concat(length.as_str()).concat(" payload: ").concat(
        voucher.payload.as_str(),
    ).concat(" }")
}

/// Renders a report.
pub fn print_report(report: &Report) -> (r: String)
    ensures
        r@ == payload_printout("report: "@, report.payload@),
{
    print_payload("report: ", report.payload.as_str())
}

/// Renders an exception.
pub fn print_exception(exception: &Exception) -> (r: String)
    ensures
        r@ == payload_printout("exception: "@, exception.payload@),
{
    print_payload("exception: ", exception.payload.as_str())
}

} // verus!
