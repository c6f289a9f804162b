//! The values exchanged with the device and with the layer that serves requests.

use vstd::prelude::*;

verus! {

/// Outcome of the previous request and descriptor of the next one.
#[derive(Debug, Clone, Copy, PartialEq, Eq, Structural)]
pub struct RollupFinish {
    pub accept_previous_request: bool,
    pub next_request_type: i32,
    pub next_request_payload_length: usize,
}

impl Default for RollupFinish {
    fn default() -> (r: Self)
        ensures
            !r.accept_previous_request,
            r.next_request_type == 0,
            r.next_request_payload_length == 0,
    {
        RollupFinish {
            accept_previous_request: false,
            next_request_type: 0,
            next_request_payload_length: 0,
        }
    }
}

/// The fixed-layout structure that the finish call hands to the device and gets back.
#[derive(Debug, Clone, Copy, PartialEq, Eq, Structural)]
pub struct FinishTransfer {
    pub accept_previous_request: bool,
    pub next_request_type: i32,
    pub next_request_payload_length: u32,
}

impl FinishTransfer {
    /// The transfer structure for a finish status; the length keeps its low 32 bits.
    pub open spec fn of_finish(finish: RollupFinish) -> FinishTransfer {
        FinishTransfer {
            accept_previous_request: finish.accept_previous_request,
            next_request_type: finish.next_request_type,
            next_request_payload_length: finish.next_request_payload_length as u32,
        }
    }
}

impl RollupFinish {
    /// The finish status that a transfer structure carries.
    pub open spec fn of_transfer(transfer: FinishTransfer) -> RollupFinish {
        RollupFinish {
            accept_previous_request: transfer.accept_previous_request,
            next_request_type: transfer.next_request_type,
            next_request_payload_length: transfer.next_request_payload_length as usize,
        }
    }
}

impl From<RollupFinish> for FinishTransfer {
    fn from(other: RollupFinish) -> (r: Self) {
        FinishTransfer {
            accept_previous_request: other.accept_previous_request,
            next_request_type: other.next_request_type,
            next_request_payload_length: #[verifier::truncate]
            (other.next_request_payload_length as u32),
        }
    }
}

impl vstd::std_specs::convert::FromSpecImpl<RollupFinish> for FinishTransfer {
    open spec fn obeys_from_spec() -> bool {
        true
    }

    open spec fn from_spec(other: RollupFinish) -> Self {
        FinishTransfer::of_finish(other)
    }
}

impl From<FinishTransfer> for RollupFinish {
    fn from(other: FinishTransfer) -> (r: Self) {
        RollupFinish {
            accept_previous_request: other.accept_previous_request,
            next_request_type: other.next_request_type,
            next_request_payload_length: other.next_request_payload_length as usize,
        }
    }
}

impl vstd::std_specs::convert::FromSpecImpl<FinishTransfer> for RollupFinish {
    open spec fn obeys_from_spec() -> bool {
        true
    }

    open spec fn from_spec(other: FinishTransfer) -> Self {
        RollupFinish::of_transfer(other)
    }
}

/// What the device reports of an advance request: sender, block data, and the payload
/// bytes copied out of device memory.
#[derive(Debug, Clone)]
pub struct AdvanceDescriptor {
    pub chain_id: u64,
    pub msg_sender: [u8; 20],
    pub app_contract: [u8; 20],
    pub block_number: u64,
    pub block_timestamp: u64,
    pub index: u64,
    pub payload: Vec<u8>,
}

/// What the device reports of an inspect request: the payload bytes copied out of device
/// memory.
#[derive(Debug, Clone)]
pub struct InspectDescriptor {
    pub payload: Vec<u8>,
}

/// Where an advance request comes from: the sender as `0x` and 40 lowercase hex digits, and
/// the position of the input in its block and in the input sequence.
#[derive(Debug, Clone)]
pub struct AdvanceMetadata {
    pub msg_sender: String,
    pub input_index: u64,
    pub block_number: u64,
    pub block_timestamp: u64,
}

/// A state-advancing input: its metadata and its payload as hex text.
#[derive(Debug, Clone)]
pub struct AdvanceRequest {
    pub metadata: AdvanceMetadata,
    pub payload: String,
}

/// A read-only query: its payload as hex text.
#[derive(Debug, Clone)]
pub struct InspectRequest {
    pub payload: String,
}

/// The next work item: a state-advancing input or a read-only query.
pub enum RollupRequest {
    Inspect(InspectRequest),
    Advance(AdvanceRequest),
}

/// The verdict on the request just processed, as the serving layer words it.
#[derive(Debug, Clone)]
pub struct FinishRequest {
    pub status: String,
}

impl FinishRequest {
    /// The verdict on the previous request that the status text asks for: accepted for
    /// `accept`, rejected for `reject`, and none for any other text.
    pub fn accept(&self) -> (r: Option<bool>)
        ensures
            self.status@ == "accept"@ ==> r == Some(true),
            self.status@ == "reject"@ ==> r == Some(false),
            self.status@ != "accept"@ && self.status@ != "reject"@ ==> r is None,
    {
        proof {
            reveal_strlit("accept");
            reveal_strlit("reject");
            assert("accept"@[0] != "reject"@[0]);
        }
        let accept = String::from_str("accept");
        let reject = String::from_str("reject");
        if self.status == accept {
            Some(true)
        } else if self.status == reject {
            Some(false)
        } else {
            None
        }
    }
}

/// The reports gathered while an inspect request was served.
#[derive(Debug, Clone)]
pub struct InspectReport {
    pub reports: Vec<Report>,
}

/// A record of a state change; the device assigns it an index.
#[derive(Debug, Clone)]
pub struct Notice {
    pub payload: String,
}

/// A transfer of `value` to `destination`; the device assigns it an index.
#[derive(Debug, Clone)]
pub struct Voucher {
    pub destination: String,
    pub value: String,
    pub payload: String,
}

/// An informational record; it gets no index.
#[derive(Debug, Clone)]
pub struct Report {
    pub payload: String,
}

/// The sign that the application cannot go on with the current request.
#[derive(Debug, Clone)]
pub struct Exception {
    pub payload: String,
}

/// What the application answers at the end of a request: whether it accepts it.
pub enum RollupResponse {
    Finish(bool),
}

/// The decoded fields of a voucher, ready to be handed to the device.
#[derive(Debug, Clone)]
pub struct VoucherEmission {
    pub destination: Vec<u8>,
    pub value: Vec<u8>,
    pub payload: Vec<u8>,
}

/// What a native read gave back: its status, and the descriptor that it filled.
#[derive(Debug, Clone)]
pub enum ReadReply {
    AdvanceState { res: i32, descriptor: AdvanceDescriptor },
    InspectState { res: i32, descriptor: InspectDescriptor },
}

/// The native read that the driver issues for the next request.
#[derive(Debug, Clone, Copy, PartialEq, Eq, Structural)]
pub enum ReadCall {
    AdvanceState,
    InspectState,
}

} // verus!
