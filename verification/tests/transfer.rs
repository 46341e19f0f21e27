use bose_dfu::protocol::{
    build_download_report, download, enter_dfu, ensure_idle, extract_upload_chunk, leave_dfu,
    map_gfr, nul_terminated_prefix, parse_status_report, read_info_field, recovery_action,
    run_tap_command, upload, DfuState, DfuStatus, DfuStatusResult, Error, HidTransport, InfoField,
    ProtocolError, RecoveryAction, TransportError, XFER_DATA_SIZE,
};

/// An in-memory transport that replays a fixed list of read results and
/// records everything the engine does.
struct ScriptedTransport {
    reads: Vec<Result<Vec<u8>, TransportError>>,
    sent: Vec<Vec<u8>>,
    read_requests: Vec<(u8, usize)>,
    waits: Vec<u32>,
    fail_sends: bool,
}

impl ScriptedTransport {
    fn new(reads: Vec<Result<Vec<u8>, TransportError>>) -> Self {
        ScriptedTransport {
            reads,
            sent: Vec::new(),
            read_requests: Vec::new(),
            waits: Vec::new(),
            fail_sends: false,
        }
    }
}

impl HidTransport for ScriptedTransport {
    fn send_report(&mut self, data: &Vec<u8>) -> Result<(), TransportError> {
        if self.fail_sends {
            return Err(TransportError { message: String::from("unplugged") });
        }
        self.sent.push(data.clone());
        Ok(())
    }

    fn get_report(&mut self, report_id: u8, report_len: usize) -> Result<Vec<u8>, TransportError> {
        self.read_requests.push((report_id, report_len));
        if self.reads.is_empty() {
            Err(TransportError { message: String::from("script exhausted") })
        } else {
            self.reads.remove(0)
        }
    }

    fn wait_millis(&mut self, delay_ms: u32) {
        self.waits.push(delay_ms);
    }
}

/// A transport that acknowledges every chunk with OK/download-idle forever
/// and only counts traffic.
struct EndlessDownloadTransport {
    sends: u64,
}

impl HidTransport for EndlessDownloadTransport {
    fn send_report(&mut self, _data: &Vec<u8>) -> Result<(), TransportError> {
        self.sends += 1;
        Ok(())
    }

    fn get_report(&mut self, _report_id: u8, _report_len: usize) -> Result<Vec<u8>, TransportError> {
        Ok(status_report(0x00, 0, 5)) // OK, download-idle
    }

    fn wait_millis(&mut self, _delay_ms: u32) {}
}

/// A raw status report: report ID, status byte, 24-bit little-endian poll
/// timeout, state byte, and the unused string-index byte.
fn status_report(status: u8, poll_timeout: u32, state: u8) -> Vec<u8> {
    vec![
        2,
        status,
        (poll_timeout & 0xff) as u8,
        ((poll_timeout >> 8) & 0xff) as u8,
        ((poll_timeout >> 16) & 0xff) as u8,
        state,
        0,
    ]
}

/// A raw upload transfer report carrying the given chunk: report ID, chunk
/// length little-endian, three reserved bytes, then the chunk.
fn upload_report(chunk: &[u8]) -> Vec<u8> {
    let mut report = vec![
        1,
        (chunk.len() & 0xff) as u8,
        ((chunk.len() >> 8) & 0xff) as u8,
        0,
        0,
        0x5d,
    ];
    report.extend_from_slice(chunk);
    report
}

#[test]
fn parse_status_report_fields() {
    let r = parse_status_report(&vec![2, 0x00, 0x01, 0x02, 0x03, 9, 0]);
    assert_eq!(
        r,
        Ok(DfuStatusResult {
            status: DfuStatus::OK,
            state: DfuState::dfuUPLOAD_IDLE,
            poll_timeout: 0x030201,
        })
    );
}

#[test]
fn parse_status_report_unknown_codes() {
    assert_eq!(
        parse_status_report(&vec![2, 0x20, 0, 0, 0, 2, 0]),
        Err(ProtocolError::UnknownStatus(0x20))
    );
    assert_eq!(
        parse_status_report(&vec![2, 0x00, 0, 0, 0, 99, 0]),
        Err(ProtocolError::UnknownState(99))
    );
}

#[test]
fn map_gfr_cases() {
    let short = map_gfr(Ok(vec![1, 2]), 3, "reading");
    assert_eq!(
        short,
        Err(Error::ProtocolError(ProtocolError::ReportTooShort { expected: 3, actual: 2 }))
    );

    let ok = map_gfr(Ok(vec![1, 2, 3]), 3, "reading");
    assert_eq!(ok, Ok(vec![1, 2, 3]));

    let failed = map_gfr(
        Err(TransportError { message: String::from("gone") }),
        3,
        "reading",
    );
    assert_eq!(
        failed,
        Err(Error::DeviceIoError {
            source: TransportError { message: String::from("gone") },
            action: "reading",
        })
    );
}

#[test]
fn ensure_idle_noop_when_already_idle() {
    let mut t = ScriptedTransport::new(vec![Ok(status_report(0x00, 0, 2))]);
    assert_eq!(ensure_idle(&mut t), Ok(()));
    assert!(t.sent.is_empty());
    assert_eq!(t.read_requests, vec![(2, 7)]);
}

#[test]
fn ensure_idle_aborts_from_quasi_idle_states() {
    for state in [3u8, 5, 6, 9] {
        let mut t = ScriptedTransport::new(vec![
            Ok(status_report(0x00, 0, state)),
            Ok(status_report(0x00, 0, 2)),
        ]);
        assert_eq!(ensure_idle(&mut t), Ok(()));
        assert_eq!(t.sent, vec![vec![3u8, 6]]); // DFU_ABORT on the command channel
    }
}

#[test]
fn ensure_idle_clears_error_state() {
    let mut t = ScriptedTransport::new(vec![
        Ok(status_report(0x0b, 0, 10)), // errVENDOR, dfuERROR
        Ok(status_report(0x00, 0, 2)),
    ]);
    assert_eq!(ensure_idle(&mut t), Ok(()));
    assert_eq!(t.sent, vec![vec![3u8, 4]]); // DFU_CLRSTATUS on the command channel
}

#[test]
fn ensure_idle_fails_from_unrecoverable_states() {
    let expected = [
        (0u8, DfuState::appIDLE),
        (1, DfuState::appDETACH),
        (4, DfuState::dfuDNBUSY),
        (7, DfuState::dfuMANIFEST),
        (8, DfuState::dfuMANIFEST_WAIT_RESET),
    ];
    for (byte, state) in expected {
        let mut t = ScriptedTransport::new(vec![Ok(status_report(0x00, 0, byte))]);
        assert_eq!(
            ensure_idle(&mut t),
            Err(Error::ProtocolError(ProtocolError::BadInitialState(state)))
        );
        assert!(t.sent.is_empty());
    }
}

#[test]
fn ensure_idle_requires_idle_after_correction() {
    let mut t = ScriptedTransport::new(vec![
        Ok(status_report(0x00, 0, 9)),
        Ok(status_report(0x00, 0, 9)), // still upload-idle after the abort
    ]);
    assert_eq!(
        ensure_idle(&mut t),
        Err(Error::ProtocolError(ProtocolError::UnexpectedState {
            expected: DfuState::dfuIDLE,
            actual: DfuState::dfuUPLOAD_IDLE,
        }))
    );
}

#[test]
fn ensure_idle_requires_ok_after_correction() {
    let mut t = ScriptedTransport::new(vec![
        Ok(status_report(0x0b, 0, 10)),
        Ok(status_report(0x03, 0, 2)), // errWRITE after the clear
    ]);
    assert_eq!(
        ensure_idle(&mut t),
        Err(Error::ProtocolError(ProtocolError::ErrorStatus(DfuStatus::errWRITE)))
    );
}

#[test]
fn short_status_report_is_a_protocol_error() {
    let mut t = ScriptedTransport::new(vec![Ok(vec![2, 0, 0])]);
    assert_eq!(
        ensure_idle(&mut t),
        Err(Error::ProtocolError(ProtocolError::ReportTooShort { expected: 7, actual: 3 }))
    );
}

#[test]
fn failed_status_read_is_a_device_io_error() {
    let mut t = ScriptedTransport::new(Vec::new());
    assert_eq!(
        ensure_idle(&mut t),
        Err(Error::DeviceIoError {
            source: TransportError { message: String::from("script exhausted") },
            action: "querying status",
        })
    );
}

#[test]
fn recovery_action_table() {
    assert_eq!(recovery_action(DfuState::dfuIDLE), RecoveryAction::AlreadyIdle);
    assert_eq!(recovery_action(DfuState::dfuDNLOAD_SYNC), RecoveryAction::SendAbort);
    assert_eq!(recovery_action(DfuState::dfuDNLOAD_IDLE), RecoveryAction::SendAbort);
    assert_eq!(recovery_action(DfuState::dfuMANIFEST_SYNC), RecoveryAction::SendAbort);
    assert_eq!(recovery_action(DfuState::dfuUPLOAD_IDLE), RecoveryAction::SendAbort);
    assert_eq!(recovery_action(DfuState::dfuERROR), RecoveryAction::SendClearStatus);
    assert_eq!(recovery_action(DfuState::appIDLE), RecoveryAction::Unrecoverable);
    assert_eq!(recovery_action(DfuState::appDETACH), RecoveryAction::Unrecoverable);
    assert_eq!(recovery_action(DfuState::dfuDNBUSY), RecoveryAction::Unrecoverable);
    assert_eq!(recovery_action(DfuState::dfuMANIFEST), RecoveryAction::Unrecoverable);
    assert_eq!(
        recovery_action(DfuState::dfuMANIFEST_WAIT_RESET),
        RecoveryAction::Unrecoverable
    );
}

#[test]
fn download_two_blocks_and_terminator() {
    let mut t = ScriptedTransport::new(vec![
        Ok(status_report(0x00, 100, 5)),
        Ok(status_report(0x00, 7, 2)),
    ]);
    let data = vec![1u8, 2, 3];
    assert_eq!(download(&mut t, &data), Ok(()));

    // Block 0 carries the whole 3-byte payload; block 1 is the empty
    // terminator. Each report is: ID, opcode, block LE, length LE, chunk.
    assert_eq!(
        t.sent,
        vec![vec![1u8, 1, 0, 0, 3, 0, 1, 2, 3], vec![1u8, 1, 1, 0, 0, 0]]
    );
    // The delay slept before the final status query is the poll timeout of
    // the response to the previous (non-empty) block.
    assert_eq!(t.waits, vec![100]);
}

#[test]
fn download_empty_payload_sends_only_terminator() {
    let mut t = ScriptedTransport::new(vec![Ok(status_report(0x00, 5, 2))]);
    assert_eq!(download(&mut t, &Vec::new()), Ok(()));
    assert_eq!(t.sent, vec![vec![1u8, 1, 0, 0, 0, 0]]);
    // Nothing was carried over yet, so the quirk sleeps for zero.
    assert_eq!(t.waits, vec![0]);
}

#[test]
fn download_requires_download_idle_between_blocks() {
    let mut t = ScriptedTransport::new(vec![Ok(status_report(0x00, 0, 2))]);
    let data = vec![0u8; 10];
    assert_eq!(
        download(&mut t, &data),
        Err(Error::ProtocolError(ProtocolError::UnexpectedState {
            expected: DfuState::dfuDNLOAD_IDLE,
            actual: DfuState::dfuIDLE,
        }))
    );
}

#[test]
fn download_requires_idle_after_terminator() {
    let mut t = ScriptedTransport::new(vec![
        Ok(status_report(0x00, 0, 5)),
        Ok(status_report(0x00, 0, 5)), // still download-idle after the empty block
    ]);
    let data = vec![0u8; 4];
    assert_eq!(
        download(&mut t, &data),
        Err(Error::ProtocolError(ProtocolError::UnexpectedState {
            expected: DfuState::dfuIDLE,
            actual: DfuState::dfuDNLOAD_IDLE,
        }))
    );
}

#[test]
fn download_stops_on_error_status() {
    let mut t = ScriptedTransport::new(vec![Ok(status_report(0x03, 0, 5))]);
    let data = vec![0u8; 4];
    assert_eq!(
        download(&mut t, &data),
        Err(Error::ProtocolError(ProtocolError::ErrorStatus(DfuStatus::errWRITE)))
    );
}

#[test]
fn download_overflows_block_counter() {
    // A payload of exactly 65536 full blocks: the device acknowledges every
    // one and never goes idle, and the block counter cannot address a
    // 65537th block.
    let mut t = EndlessDownloadTransport { sends: 0 };
    let data = vec![0u8; 65536 * XFER_DATA_SIZE];
    assert_eq!(
        download(&mut t, &data),
        Err(Error::ProtocolError(ProtocolError::FileTooLarge))
    );
    assert_eq!(t.sends, 65536);
}

#[test]
fn upload_three_blocks_and_short_terminator() {
    let block_a = vec![0xaau8; XFER_DATA_SIZE];
    let block_b = vec![0xbbu8; XFER_DATA_SIZE];
    let block_c = vec![0xccu8; XFER_DATA_SIZE];
    let tail = vec![1u8, 2, 3, 4, 5];
    let mut t = ScriptedTransport::new(vec![
        Ok(upload_report(&block_a)),
        Ok(status_report(0x00, 0, 9)),
        Ok(upload_report(&block_b)),
        Ok(status_report(0x00, 0, 9)),
        Ok(upload_report(&block_c)),
        Ok(status_report(0x00, 0, 9)),
        Ok(upload_report(&tail)),
        Ok(status_report(0x00, 0, 2)),
    ]);

    let mut expected = Vec::new();
    expected.extend_from_slice(&block_a);
    expected.extend_from_slice(&block_b);
    expected.extend_from_slice(&block_c);
    expected.extend_from_slice(&tail);

    assert_eq!(upload(&mut t), Ok(expected));
    // Each transfer read asks the transfer channel for a full report.
    assert_eq!(t.read_requests[0], (1, 6 + XFER_DATA_SIZE));
    assert_eq!(t.read_requests[1], (2, 7));
}

#[test]
fn upload_empty_final_chunk() {
    let mut t = ScriptedTransport::new(vec![
        Ok(upload_report(&[])),
        Ok(status_report(0x00, 0, 2)),
    ]);
    assert_eq!(upload(&mut t), Ok(Vec::new()));
}

#[test]
fn upload_requires_idle_after_short_chunk() {
    let mut t = ScriptedTransport::new(vec![
        Ok(upload_report(&[9, 9])),
        Ok(status_report(0x00, 0, 9)), // still upload-idle after a short chunk
    ]);
    assert_eq!(
        upload(&mut t),
        Err(Error::ProtocolError(ProtocolError::UnexpectedState {
            expected: DfuState::dfuIDLE,
            actual: DfuState::dfuUPLOAD_IDLE,
        }))
    );
}

#[test]
fn upload_requires_upload_idle_after_full_chunk() {
    let block = vec![0u8; XFER_DATA_SIZE];
    let mut t = ScriptedTransport::new(vec![
        Ok(upload_report(&block)),
        Ok(status_report(0x00, 0, 2)), // idle although the chunk was full
    ]);
    assert_eq!(
        upload(&mut t),
        Err(Error::ProtocolError(ProtocolError::UnexpectedState {
            expected: DfuState::dfuUPLOAD_IDLE,
            actual: DfuState::dfuIDLE,
        }))
    );
}

#[test]
fn upload_rejects_report_shorter_than_advertised() {
    let mut report = upload_report(&[1, 2, 3, 4]);
    report[1] = 100; // advertise 100 bytes, carry 4
    let mut t = ScriptedTransport::new(vec![
        Ok(report),
        Ok(status_report(0x00, 0, 2)),
    ]);
    assert_eq!(
        upload(&mut t),
        Err(Error::ProtocolError(ProtocolError::ReportTooShort {
            expected: 106,
            actual: 10,
        }))
    );
}

#[test]
fn extract_upload_chunk_exact_bytes() {
    let report = upload_report(&[10, 20, 30]);
    assert_eq!(extract_upload_chunk(&report), Ok(vec![10, 20, 30]));
}

#[test]
fn build_download_report_exact_bytes() {
    let data = vec![9u8, 8, 7, 6, 5];
    let report = build_download_report(0x0201, &data, 1, 3);
    assert_eq!(report, vec![1u8, 1, 0x01, 0x02, 3, 0, 8, 7, 6]);
}

#[test]
fn enter_and_leave_dfu_reports() {
    let mut t = ScriptedTransport::new(Vec::new());
    assert_eq!(enter_dfu(&mut t), Ok(()));
    assert_eq!(leave_dfu(&mut t), Ok(()));
    assert_eq!(t.sent, vec![vec![1u8, 0xb0, 0x07], vec![3u8, 0xff]]);
}

#[test]
fn enter_dfu_wraps_transport_failure() {
    let mut t = ScriptedTransport::new(Vec::new());
    t.fail_sends = true;
    assert_eq!(
        enter_dfu(&mut t),
        Err(Error::DeviceIoError {
            source: TransportError { message: String::from("unplugged") },
            action: "entering DFU mode",
        })
    );
}

#[test]
fn read_info_field_decodes_response() {
    let mut t = ScriptedTransport::new(vec![Ok(vec![2, 0x41, 0x42, 0x43, 0, 0x44, 0x45])]);
    assert_eq!(
        read_info_field(&mut t, InfoField::SerialNumber),
        Ok(String::from("ABC"))
    );
    assert_eq!(t.sent, vec![vec![2u8, 0x73, 0x6e, 0]]); // "sn"
    assert_eq!(t.read_requests, vec![(2, 127)]);
}

#[test]
fn read_info_field_request_codes() {
    for (field, code) in [
        (InfoField::DeviceModel, [0x70u8, 0x6c]), // "pl"
        (InfoField::SerialNumber, [0x73, 0x6e]),  // "sn"
        (InfoField::CurrentFirmware, [0x76, 0x72]), // "vr"
    ] {
        let mut t = ScriptedTransport::new(vec![Ok(vec![2, 0x58, 0])]);
        assert_eq!(read_info_field(&mut t, field), Ok(String::from("X")));
        assert_eq!(t.sent, vec![vec![2u8, code[0], code[1], 0]]);
    }
}

#[test]
fn read_info_field_decodes_multibyte_utf8() {
    // A two-byte encoding: the decoded string is one character, not the
    // raw bytes.
    let mut t = ScriptedTransport::new(vec![Ok(vec![2, 0xc3, 0xa9, 0])]);
    let s = read_info_field(&mut t, InfoField::DeviceModel).unwrap();
    assert_eq!(s, String::from("\u{e9}"));
    assert_eq!(s.chars().count(), 1);
}

#[test]
fn read_info_field_rejects_invalid_utf8() {
    let mut t = ScriptedTransport::new(vec![Ok(vec![2, 0xff, 0xfe, 0])]);
    assert_eq!(
        read_info_field(&mut t, InfoField::DeviceModel),
        Err(Error::ProtocolError(ProtocolError::InvalidString))
    );
}

#[test]
fn run_tap_command_round_trip() {
    let mut t = ScriptedTransport::new(vec![Ok(vec![2, 0x4f, 0x4b, 0, 0x7a])]);
    let command = b"serial no".to_vec();
    assert_eq!(run_tap_command(&mut t, &command), Ok(vec![0x4f, 0x4b]));

    let mut expected_request = vec![2u8];
    expected_request.extend_from_slice(b"serial no");
    expected_request.push(0);
    assert_eq!(t.sent, vec![expected_request]);
    assert_eq!(t.read_requests, vec![(2, 2049)]);
}

#[test]
fn nul_terminated_prefix_cases() {
    assert_eq!(nul_terminated_prefix(&vec![2, 1, 2, 0, 3], 1), vec![1, 2]);
    assert_eq!(nul_terminated_prefix(&vec![2, 1, 2, 3], 1), vec![1, 2, 3]);
    assert_eq!(nul_terminated_prefix(&vec![2, 0, 1], 1), Vec::<u8>::new());
}

#[test]
fn error_str_descriptions() {
    assert_eq!(DfuStatus::OK.error_str(), "No error condition is present.");
    assert_eq!(
        DfuStatus::errWRITE.error_str(),
        "Device is unable to write memory."
    );
    assert_eq!(
        DfuStatus::errSTALLEDPKT.error_str(),
        "Device stalled an unexpected request."
    );
}
