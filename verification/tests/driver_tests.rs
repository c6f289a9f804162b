use rollup_driver::driver::{
    emit_outcome, finish_transfer, handle_rollup_requests, indexed_emit_outcome,
    perform_rollup_finish_request, receive_rollup_request, rollup_finish_request,
    rollup_read_advance_state_request,
    rollup_read_inspect_state_request, rollup_throw_exception, rollup_write_notice,
    rollup_write_report, rollup_write_voucher,
};
use rollup_driver::error::{Operation, RollupError, RollupErrorKind};
use rollup_driver::types::{
    AdvanceDescriptor, AdvanceMetadata, Exception, FinishRequest, FinishTransfer,
    InspectDescriptor, Notice, ReadCall, ReadReply, Report, RollupFinish, RollupRequest,
    Voucher,
};
use rollup_driver::{
    CARTESI_ROLLUP_ADDRESS_SIZE, REQUEST_TYPE_ADVANCE_STATE, REQUEST_TYPE_INSPECT_STATE,
};

fn descriptor(payload: Vec<u8>) -> AdvanceDescriptor {
    AdvanceDescriptor {
        chain_id: 1,
        msg_sender: [0u8; 20],
        app_contract: [0u8; 20],
        block_number: 10,
        block_timestamp: 1000,
        index: 3,
        payload,
    }
}

#[test]
fn constants_have_protocol_values() {
    assert_eq!(REQUEST_TYPE_ADVANCE_STATE, 0);
    assert_eq!(REQUEST_TYPE_INSPECT_STATE, 1);
    assert_eq!(CARTESI_ROLLUP_ADDRESS_SIZE, 20);
}

#[test]
fn finish_transfer_carries_verdict_and_zeroed_descriptor() {
    let accept = finish_transfer(true);
    assert_eq!(
        accept,
        FinishTransfer {
            accept_previous_request: true,
            next_request_type: 0,
            next_request_payload_length: 0
        }
    );
    assert!(!finish_transfer(false).accept_previous_request);
}

#[test]
fn finish_conversions_copy_fields() {
    let finish = RollupFinish {
        accept_previous_request: true,
        next_request_type: 1,
        next_request_payload_length: 77,
    };
    let transfer = FinishTransfer::from(finish);
    assert_eq!(transfer.next_request_payload_length, 77);
    assert_eq!(transfer.next_request_type, 1);
    assert!(transfer.accept_previous_request);
    assert_eq!(RollupFinish::from(transfer), finish);
    assert_eq!(
        RollupFinish::default(),
        RollupFinish {
            accept_previous_request: false,
            next_request_type: 0,
            next_request_payload_length: 0
        }
    );
}

#[test]
fn finish_success_overwrites_status_with_reply() {
    let mut finish = RollupFinish::default();
    finish.accept_previous_request = true;
    let reply = FinishTransfer {
        accept_previous_request: true,
        next_request_type: 1,
        next_request_payload_length: 9,
    };
    assert!(rollup_finish_request(&mut finish, 0, reply).is_ok());
    assert_eq!(finish.next_request_type, 1);
    assert_eq!(finish.next_request_payload_length, 9);
    let mut other = RollupFinish::default();
    assert!(rollup_finish_request(&mut other, 0, reply).is_ok());
    assert_eq!(other, RollupFinish::from(reply));
}

#[test]
fn finish_negative_status_fails_and_keeps_status() {
    let mut finish = RollupFinish::default();
    let before = finish;
    let reply = FinishTransfer {
        accept_previous_request: false,
        next_request_type: 1,
        next_request_payload_length: 9,
    };
    let err = rollup_finish_request(&mut finish, -5, reply).unwrap_err();
    assert_eq!(err.kind, RollupErrorKind::Device { operation: Operation::Finish, code: -5 });
    assert_eq!(err.message, "IOCTL_ROLLUP_FINISH returned error -5");
    assert_eq!(finish, before);
}

#[test]
fn perform_finish_returns_next_descriptor() {
    let reply = FinishTransfer {
        accept_previous_request: true,
        next_request_type: 0,
        next_request_payload_length: 4,
    };
    let finish = perform_rollup_finish_request(true, 0, reply).unwrap();
    assert_eq!(finish.next_request_type, 0);
    assert_eq!(finish.next_request_payload_length, 4);
    assert!(finish.accept_previous_request);
    let err = perform_rollup_finish_request(true, -1, reply).unwrap_err();
    assert_eq!(err.kind, RollupErrorKind::Device { operation: Operation::Finish, code: -1 });
}

#[test]
fn advance_request_is_read_as_announced() {
    let finish = RollupFinish {
        accept_previous_request: true,
        next_request_type: 0,
        next_request_payload_length: 4,
    };
    assert_eq!(handle_rollup_requests(finish).unwrap(), ReadCall::AdvanceState);
    let request =
        rollup_read_advance_state_request(0, &descriptor(vec![0xDE, 0xAD, 0xBE, 0xEF])).unwrap();
    assert_eq!(request.metadata.msg_sender, "0x0000000000000000000000000000000000000000");
    assert_eq!(request.metadata.input_index, 3);
    assert_eq!(request.metadata.block_number, 10);
    assert_eq!(request.metadata.block_timestamp, 1000);
    assert_eq!(request.payload, "0xdeadbeef");
}

#[test]
fn advance_metadata_renders_sender_in_lowercase() {
    let mut d = descriptor(Vec::new());
    d.msg_sender = [0xAB; 20];
    let metadata = AdvanceMetadata::from_descriptor(&d);
    assert_eq!(metadata.msg_sender, format!("0x{}", "ab".repeat(20)));
    assert_eq!(metadata.msg_sender.len(), 42);
}

#[test]
fn zero_length_payload_reads_as_bare_prefix() {
    let request = rollup_read_advance_state_request(0, &descriptor(Vec::new())).unwrap();
    assert_eq!(request.payload, "0x");
    let inspect =
        rollup_read_inspect_state_request(0, &InspectDescriptor { payload: Vec::new() }).unwrap();
    assert_eq!(inspect.payload, "0x");
}

#[test]
fn inspect_request_is_read_as_announced() {
    let finish = RollupFinish {
        accept_previous_request: false,
        next_request_type: 1,
        next_request_payload_length: 2,
    };
    assert_eq!(handle_rollup_requests(finish).unwrap(), ReadCall::InspectState);
    let inspect =
        rollup_read_inspect_state_request(0, &InspectDescriptor { payload: vec![0x01, 0xff] })
            .unwrap();
    assert_eq!(inspect.payload, "0x01ff");
}

#[test]
fn read_failures_name_their_operation() {
    let err = rollup_read_advance_state_request(-22, &descriptor(vec![1])).unwrap_err();
    assert_eq!(
        err.kind,
        RollupErrorKind::Device { operation: Operation::ReadAdvanceState, code: -22 }
    );
    assert_eq!(err.message, "IOCTL_ROLLUP_READ_ADVANCE_STATE returned error -22");
    let err =
        rollup_read_inspect_state_request(7, &InspectDescriptor { payload: vec![1] }).unwrap_err();
    assert_eq!(
        err.kind,
        RollupErrorKind::Device { operation: Operation::ReadInspectState, code: 7 }
    );
    assert_eq!(err.message, "IOCTL_ROLLUP_READ_INSPECT_STATE returned error 7");
}

#[test]
fn unsupported_request_type_is_refused() {
    let finish = RollupFinish {
        accept_previous_request: true,
        next_request_type: 7,
        next_request_payload_length: 0,
    };
    let err = handle_rollup_requests(finish).unwrap_err();
    assert_eq!(err.kind, RollupErrorKind::UnsupportedRequestType(7));
    assert_eq!(err.message, "request type 7 unsupported");
    let negative = RollupFinish { next_request_type: -1, ..finish };
    let err = handle_rollup_requests(negative).unwrap_err();
    assert_eq!(err.kind, RollupErrorKind::UnsupportedRequestType(-1));
    assert_eq!(err.message, "request type -1 unsupported");
}

#[test]
fn notice_payload_is_decoded_for_the_device() {
    let notice = Notice { payload: String::from("0xdeadbeef") };
    assert_eq!(rollup_write_notice(&notice).unwrap(), vec![0xde, 0xad, 0xbe, 0xef]);
    let empty = Notice { payload: String::from("0x") };
    assert_eq!(rollup_write_notice(&empty).unwrap(), Vec::<u8>::new());
    let bad = Notice { payload: String::from("deadbeef") };
    let err = rollup_write_notice(&bad).unwrap_err();
    assert_eq!(err.kind, RollupErrorKind::PayloadFormat);
    assert_eq!(
        err.message,
        "Error decoding notice payload, payload must be in Ethereum hex binary format"
    );
}

#[test]
fn report_and_exception_payloads_are_decoded() {
    let report = Report { payload: String::from("0x0102") };
    assert_eq!(rollup_write_report(&report).unwrap(), vec![1, 2]);
    let bad_report = Report { payload: String::from("0x012") };
    let err = rollup_write_report(&bad_report).unwrap_err();
    assert_eq!(err.kind, RollupErrorKind::PayloadFormat);
    assert_eq!(
        err.message,
        "Error decoding report payload, payload must be in Ethereum hex binary format"
    );
    let exception = Exception { payload: String::from("0xFF") };
    assert_eq!(rollup_throw_exception(&exception).unwrap(), vec![0xff]);
    let bad_exception = Exception { payload: String::from("0xgg") };
    let err = rollup_throw_exception(&bad_exception).unwrap_err();
    assert_eq!(err.kind, RollupErrorKind::PayloadFormat);
    assert_eq!(
        err.message,
        "Error decoding exception payload, payload must be in Ethereum hex binary format"
    );
}

#[test]
fn voucher_with_non_hex_destination_is_refused() {
    let voucher = Voucher {
        destination: format!("0x{}", "Z".repeat(40)),
        value: String::from("0x01"),
        payload: String::from("0x"),
    };
    let err = rollup_write_voucher(&voucher).unwrap_err();
    assert_eq!(err.kind, RollupErrorKind::AddressFormat);
    assert_eq!(err.message, "Error decoding voucher destination, address not valid");
}

#[test]
fn voucher_fields_are_decoded_independently() {
    let voucher = Voucher {
        destination: format!("0x{}", "ab".repeat(20)),
        value: String::from("0x01"),
        payload: String::from("0xc0ffee"),
    };
    let emission = rollup_write_voucher(&voucher).unwrap();
    assert_eq!(emission.destination, vec![0xab; 20]);
    assert_eq!(emission.value, vec![0x01]);
    assert_eq!(emission.payload, vec![0xc0, 0xff, 0xee]);
}

#[test]
fn voucher_validation_precedes_decoding() {
    let bad_value = Voucher {
        destination: format!("0x{}", "ab".repeat(20)),
        value: String::from("0x"),
        payload: String::from("nonsense"),
    };
    assert_eq!(rollup_write_voucher(&bad_value).unwrap_err().kind, RollupErrorKind::ValueFormat);
    let both_bad = Voucher {
        destination: String::from("nowhere"),
        value: String::from("0x"),
        payload: String::from("nonsense"),
    };
    assert_eq!(rollup_write_voucher(&both_bad).unwrap_err().kind, RollupErrorKind::AddressFormat);
}

#[test]
fn voucher_decode_failures_name_the_field() {
    let bad_payload = Voucher {
        destination: String::from("0xabcd"),
        value: String::from("0x01"),
        payload: String::from("0x1"),
    };
    let err = rollup_write_voucher(&bad_payload).unwrap_err();
    assert_eq!(err.kind, RollupErrorKind::PayloadFormat);
    assert_eq!(
        err.message,
        "Error decoding voucher payload, it must be in Ethereum hex binary format"
    );
    let odd_value = Voucher {
        destination: String::from("0xabcd"),
        value: String::from("0x1"),
        payload: String::from("0x"),
    };
    let err = rollup_write_voucher(&odd_value).unwrap_err();
    assert_eq!(err.kind, RollupErrorKind::ValueFormat);
    assert_eq!(err.message, "Error decoding voucher value, it must be in Ethereum hex binary format");
    let prefixed_destination = Voucher {
        destination: String::from("junk0xabcd"),
        value: String::from("0x01"),
        payload: String::from("0x"),
    };
    assert_eq!(
        rollup_write_voucher(&prefixed_destination).unwrap_err().kind,
        RollupErrorKind::AddressFormat
    );
}

#[test]
fn indices_are_passed_through_in_device_order() {
    let first = indexed_emit_outcome(Operation::WriteNotice, 0, 41).unwrap();
    let second = indexed_emit_outcome(Operation::WriteNotice, 0, 42).unwrap();
    assert_eq!((first, second), (41, 42));
    assert_eq!(indexed_emit_outcome(Operation::WriteVoucher, 0, u64::MAX).unwrap(), u64::MAX);
    assert_eq!(indexed_emit_outcome(Operation::WriteVoucher, 0, 0).unwrap(), 0);
}

#[test]
fn emission_failures_name_their_operation() {
    let err = indexed_emit_outcome(Operation::WriteNotice, -1, 5).unwrap_err();
    assert_eq!(err.kind, RollupErrorKind::Device { operation: Operation::WriteNotice, code: -1 });
    assert_eq!(err.message, "IOCTL_ROLLUP_WRITE_NOTICE returned error -1");
    let err = indexed_emit_outcome(Operation::WriteVoucher, 3, 5).unwrap_err();
    assert_eq!(err.message, "IOCTL_ROLLUP_WRITE_VOUCHER returned error 3");
    assert!(emit_outcome(Operation::WriteReport, 0).is_ok());
    let err = emit_outcome(Operation::WriteReport, -14).unwrap_err();
    assert_eq!(err.message, "IOCTL_ROLLUP_WRITE_REPORT returned error -14");
    let err = emit_outcome(Operation::ThrowException, i32::MIN).unwrap_err();
    assert_eq!(err.message, "IOCTL_ROLLUP_THROW_EXCEPTION returned error -2147483648");
    assert_eq!(
        err.kind,
        RollupErrorKind::Device { operation: Operation::ThrowException, code: i32::MIN }
    );
}

#[test]
fn error_text_carries_the_message() {
    let err = RollupError::new("device gone");
    assert_eq!(err.kind, RollupErrorKind::Other);
    assert_eq!(err.message, "device gone");
    assert_eq!(err.to_text(), "rollup error: device gone");
    let value = RollupError::of_kind(RollupErrorKind::ValueFormat);
    assert_eq!(
        value.to_text(),
        "rollup error: Error decoding voucher value, it must be in Ethereum hex binary format"
    );
    let finish = RollupError::payload_format(Operation::Finish);
    assert_eq!(finish.message, "payload must be in Ethereum hex binary format");
    assert_eq!(RollupError::of_kind(RollupErrorKind::Other).message, "");
}

#[test]
fn finish_status_text_decides_the_verdict() {
    assert_eq!(FinishRequest { status: String::from("accept") }.accept(), Some(true));
    assert_eq!(FinishRequest { status: String::from("reject") }.accept(), Some(false));
    assert_eq!(FinishRequest { status: String::from("Accept") }.accept(), None);
    assert_eq!(FinishRequest { status: String::new() }.accept(), None);
}

#[test]
fn read_reply_becomes_the_matching_request() {
    let reply =
        ReadReply::AdvanceState { res: 0, descriptor: descriptor(vec![0xDE, 0xAD, 0xBE, 0xEF]) };
    match receive_rollup_request(&reply) {
        Ok(RollupRequest::Advance(request)) => {
            assert_eq!(request.payload, "0xdeadbeef");
            assert_eq!(request.metadata.msg_sender, "0x0000000000000000000000000000000000000000");
            assert_eq!(request.metadata.input_index, 3);
            assert_eq!(request.metadata.block_number, 10);
            assert_eq!(request.metadata.block_timestamp, 1000);
        }
        _ => panic!("an advance request was expected"),
    }
    let reply =
        ReadReply::InspectState { res: 0, descriptor: InspectDescriptor { payload: vec![0x2a] } };
    match receive_rollup_request(&reply) {
        Ok(RollupRequest::Inspect(request)) => assert_eq!(request.payload, "0x2a"),
        _ => panic!("an inspect request was expected"),
    }
}

#[test]
fn failed_read_reply_names_the_read() {
    let reply = ReadReply::AdvanceState { res: -3, descriptor: descriptor(Vec::new()) };
    match receive_rollup_request(&reply) {
        Err(err) => assert_eq!(
            err.kind,
            RollupErrorKind::Device { operation: Operation::ReadAdvanceState, code: -3 }
        ),
        Ok(_) => panic!("a device failure was expected"),
    }
    let reply =
        ReadReply::InspectState { res: 1, descriptor: InspectDescriptor { payload: Vec::new() } };
    match receive_rollup_request(&reply) {
        Err(err) => assert_eq!(
            err.kind,
            RollupErrorKind::Device { operation: Operation::ReadInspectState, code: 1 }
        ),
        Ok(_) => panic!("a device failure was expected"),
    }
}

#[test]
fn finish_positive_status_fails_and_keeps_status() {
    let mut finish = RollupFinish::default();
    finish.accept_previous_request = true;
    let before = finish;
    let reply = FinishTransfer {
        accept_previous_request: true,
        next_request_type: 1,
        next_request_payload_length: 9,
    };
    let err = rollup_finish_request(&mut finish, 5, reply).unwrap_err();
    assert_eq!(err.kind, RollupErrorKind::Device { operation: Operation::Finish, code: 5 });
    assert_eq!(err.message, "IOCTL_ROLLUP_FINISH returned error 5");
    assert_eq!(finish, before);
    let err = perform_rollup_finish_request(true, 5, reply).unwrap_err();
    assert_eq!(err.kind, RollupErrorKind::Device { operation: Operation::Finish, code: 5 });
    assert_eq!(err.message, "IOCTL_ROLLUP_FINISH returned error 5");
}
