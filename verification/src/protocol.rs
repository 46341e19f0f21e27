//! The DFU state machine: status queries, recovery to idle, entering and
//! leaving update mode, and the chunked upload/download transfer loops with
//! the device's timing quirk.
//!
//! All device access goes through the [`HidTransport`] capability, so the
//! engine can be driven against an in-memory transport as well as real
//! hardware.

use vstd::prelude::*;

use crate::wire::{hi_byte, lo_byte, read_u24_le, read_word_le, u24_le, word_le};

verus! {

/// Size of the header of a transfer report, not counting the report ID.
pub const XFER_HEADER_SIZE: usize = 5;

/// Maximum payload bytes in one transfer report. Gathered from USB captures;
/// probably corresponds to a 1024-byte internal buffer in the firmware, and
/// is not negotiated.
pub const XFER_DATA_SIZE: usize = 1017;

/// Report ID of the transfer channel: getting executes an upload request,
/// setting executes a download request.
pub const REPORT_ID_UPLOAD_DOWNLOAD: u8 = 1;

/// Report ID of the status channel: getting executes a status request.
pub const REPORT_ID_GET_STATUS: u8 = 2;

/// Report ID of the state/command channel: setting executes the DFU request
/// named by the first payload byte.
pub const REPORT_ID_STATE_CMD: u8 = 3;

/// DFU request code for one download chunk.
pub const DFU_DNLOAD: u8 = 1;

/// DFU request code that clears an error state.
pub const DFU_CLRSTATUS: u8 = 4;

/// DFU request code that aborts a transfer in progress.
pub const DFU_ABORT: u8 = 6;

/// Vendor-specific request code that leaves update mode. Not from the DFU
/// spec.
pub const BOSE_EXIT_DFU: u8 = 0xff;

/// Status codes a DFU device can return, taken from the USB DFU 1.1 spec.
#[derive(Copy, Clone, Debug, PartialEq, Eq, Structural)]
#[allow(non_camel_case_types)] // Names from DFU spec
pub enum DfuStatus {
    OK,
    errTARGET,
    errFILE,
    errWRITE,
    errERASE,
    errCHECK_ERASED,
    errPROG,
    errVERIFY,
    errADDRESS,
    errNOTDONE,
    errFIRMWARE,
    errVENDOR,
    errUSBR,
    errPOR,
    errUNKNOWN,
    errSTALLEDPKT,
}

impl DfuStatus {
    /// Decoding of the raw status byte a device reports: codes 0x00 through
    /// 0x0f in the order of the DFU spec, anything else unrecognized.
    pub open spec fn spec_from_byte(b: u8) -> Option<DfuStatus> {
        match b {
            0x00 => Some(DfuStatus::OK),
            0x01 => Some(DfuStatus::errTARGET),
            0x02 => Some(DfuStatus::errFILE),
            0x03 => Some(DfuStatus::errWRITE),
            0x04 => Some(DfuStatus::errERASE),
            0x05 => Some(DfuStatus::errCHECK_ERASED),
            0x06 => Some(DfuStatus::errPROG),
            0x07 => Some(DfuStatus::errVERIFY),
            0x08 => Some(DfuStatus::errADDRESS),
            0x09 => Some(DfuStatus::errNOTDONE),
            0x0a => Some(DfuStatus::errFIRMWARE),
            0x0b => Some(DfuStatus::errVENDOR),
            0x0c => Some(DfuStatus::errUSBR),
            0x0d => Some(DfuStatus::errPOR),
            0x0e => Some(DfuStatus::errUNKNOWN),
            0x0f => Some(DfuStatus::errSTALLEDPKT),
            _ => None,
        }
    }

    /// Decode a device-reported status byte; never panics on an
    /// out-of-range value.
    pub fn from_byte(b: u8) -> (r: Option<DfuStatus>)
        ensures
            r == DfuStatus::spec_from_byte(b),
    {
        match b {
            0x00 => Some(DfuStatus::OK),
            0x01 => Some(DfuStatus::errTARGET),
            0x02 => Some(DfuStatus::errFILE),
            0x03 => Some(DfuStatus::errWRITE),
            0x04 => Some(DfuStatus::errERASE),
            0x05 => Some(DfuStatus::errCHECK_ERASED),
            0x06 => Some(DfuStatus::errPROG),
            0x07 => Some(DfuStatus::errVERIFY),
            0x08 => Some(DfuStatus::errADDRESS),
            0x09 => Some(DfuStatus::errNOTDONE),
            0x0a => Some(DfuStatus::errFIRMWARE),
            0x0b => Some(DfuStatus::errVENDOR),
            0x0c => Some(DfuStatus::errUSBR),
            0x0d => Some(DfuStatus::errPOR),
            0x0e => Some(DfuStatus::errUNKNOWN),
            0x0f => Some(DfuStatus::errSTALLEDPKT),
            _ => None,
        }
    }

    /// The fixed human-readable description of each status code.
    pub open spec fn spec_error_str(self) -> Seq<char> {
        match self {
            DfuStatus::OK => "No error condition is present."@,
            DfuStatus::errTARGET => "File is not targeted for use by this device."@,
            DfuStatus::errFILE => "File is for this device but fails some vendor-specific verification test."@,
            DfuStatus::errWRITE => "Device is unable to write memory."@,
            DfuStatus::errERASE => "Memory erase function failed."@,
            DfuStatus::errCHECK_ERASED => "Memory erase check failed."@,
            DfuStatus::errPROG => "Program memory function failed."@,
            DfuStatus::errVERIFY => "Programmed memory failed verification."@,
            DfuStatus::errADDRESS => "Cannot program memory due to received address that is out of range."@,
            DfuStatus::errNOTDONE => "Received DFU_DNLOAD with wLength = 0, but device does not think it has all of the data yet."@,
            DfuStatus::errFIRMWARE => "Device's firmware is corrupt. It cannot return to run-time (non-DFU) operations."@,
            DfuStatus::errVENDOR => "iString indicates a vendor-specific error."@,
            DfuStatus::errUSBR => "Device detected unexpected USB reset signaling."@,
            DfuStatus::errPOR => "Device detected unexpected power on reset."@,
            DfuStatus::errUNKNOWN => "Something went wrong, but the device does not know what it was."@,
            DfuStatus::errSTALLEDPKT => "Device stalled an unexpected request."@,
        }
    }

    pub fn error_str(&self) -> (r: &'static str)
        ensures
            r@ == self.spec_error_str(),
    {
        match self {
            DfuStatus::OK => "No error condition is present.",
            DfuStatus::errTARGET => "File is not targeted for use by this device.",
            DfuStatus::errFILE => "File is for this device but fails some vendor-specific verification test.",
            DfuStatus::errWRITE => "Device is unable to write memory.",
            DfuStatus::errERASE => "Memory erase function failed.",
            DfuStatus::errCHECK_ERASED => "Memory erase check failed.",
            DfuStatus::errPROG => "Program memory function failed.",
            DfuStatus::errVERIFY => "Programmed memory failed verification.",
            DfuStatus::errADDRESS => "Cannot program memory due to received address that is out of range.",
            DfuStatus::errNOTDONE => "Received DFU_DNLOAD with wLength = 0, but device does not think it has all of the data yet.",
            DfuStatus::errFIRMWARE => "Device's firmware is corrupt. It cannot return to run-time (non-DFU) operations.",
            DfuStatus::errVENDOR => "iString indicates a vendor-specific error.",
            DfuStatus::errUSBR => "Device detected unexpected USB reset signaling.",
            DfuStatus::errPOR => "Device detected unexpected power on reset.",
            DfuStatus::errUNKNOWN => "Something went wrong, but the device does not know what it was.",
            DfuStatus::errSTALLEDPKT => "Device stalled an unexpected request.",
        }
    }
}

/// States a DFU device can be in, taken from the USB DFU 1.1 spec. Read
/// from the device; never constructed by the host.
#[derive(Copy, Clone, Debug, PartialEq, Eq, Structural)]
#[allow(non_camel_case_types)] // Names from DFU spec
pub enum DfuState {
    appIDLE,
    appDETACH,
    dfuIDLE,
    dfuDNLOAD_SYNC,
    dfuDNBUSY,
    dfuDNLOAD_IDLE,
    dfuMANIFEST_SYNC,
    dfuMANIFEST,
    dfuMANIFEST_WAIT_RESET,
    dfuUPLOAD_IDLE,
    dfuERROR,
}

impl DfuState {
    /// Decoding of the raw state byte a device reports: codes 0 through 10
    /// in the order of the DFU spec, anything else unrecognized.
    pub open spec fn spec_from_byte(b: u8) -> Option<DfuState> {
        match b {
            0 => Some(DfuState::appIDLE),
            1 => Some(DfuState::appDETACH),
            2 => Some(DfuState::dfuIDLE),
            3 => Some(DfuState::dfuDNLOAD_SYNC),
            4 => Some(DfuState::dfuDNBUSY),
            5 => Some(DfuState::dfuDNLOAD_IDLE),
            6 => Some(DfuState::dfuMANIFEST_SYNC),
            7 => Some(DfuState::dfuMANIFEST),
            8 => Some(DfuState::dfuMANIFEST_WAIT_RESET),
            9 => Some(DfuState::dfuUPLOAD_IDLE),
            10 => Some(DfuState::dfuERROR),
            _ => None,
        }
    }

    /// Decode a device-reported state byte; never panics on an out-of-range
    /// value.
    pub fn from_byte(b: u8) -> (r: Option<DfuState>)
        ensures
            r == DfuState::spec_from_byte(b),
    {
        match b {
            0 => Some(DfuState::appIDLE),
            1 => Some(DfuState::appDETACH),
            2 => Some(DfuState::dfuIDLE),
            3 => Some(DfuState::dfuDNLOAD_SYNC),
            4 => Some(DfuState::dfuDNBUSY),
            5 => Some(DfuState::dfuDNLOAD_IDLE),
            6 => Some(DfuState::dfuMANIFEST_SYNC),
            7 => Some(DfuState::dfuMANIFEST),
            8 => Some(DfuState::dfuMANIFEST_WAIT_RESET),
            9 => Some(DfuState::dfuUPLOAD_IDLE),
            10 => Some(DfuState::dfuERROR),
            _ => None,
        }
    }

    /// Fails with [`ProtocolError::UnexpectedState`], carrying both states,
    /// exactly when this state is not the expected one.
    pub fn ensure(self, expected: Self) -> (r: Result<(), ProtocolError>)
        ensures
            self == expected ==> r == Ok::<(), ProtocolError>(()),
            self != expected ==> r == Err::<(), ProtocolError>(
                ProtocolError::UnexpectedState { expected, actual: self },
            ),
    {
        if self != expected {
            Err(ProtocolError::UnexpectedState { expected, actual: self })
        } else {
            Ok(())
        }
    }
}

/// The atomic unit returned by every status query; the engine's only window
/// into device-side readiness.
#[derive(Copy, Clone, Debug, PartialEq, Eq, Structural)]
pub struct DfuStatusResult {
    pub status: DfuStatus,
    pub state: DfuState,
    pub poll_timeout: u32,
}

impl DfuStatusResult {
    /// Fails with [`ProtocolError::ErrorStatus`], carrying the reported
    /// status, exactly when the device reported a status other than OK.
    pub fn ensure_ok(&self) -> (r: Result<(), ProtocolError>)
        ensures
            self.status == DfuStatus::OK ==> r == Ok::<(), ProtocolError>(()),
            self.status != DfuStatus::OK ==> r == Err::<(), ProtocolError>(
                ProtocolError::ErrorStatus(self.status),
            ),
    {
        if self.status != DfuStatus::OK {
            Err(ProtocolError::ErrorStatus(self.status))
        } else {
            Ok(())
        }
    }

    /// Fails with [`ProtocolError::UnexpectedState`] exactly when the
    /// reported state is not the expected one.
    pub fn ensure_state(&self, expected: DfuState) -> (r: Result<(), ProtocolError>)
        ensures
            self.state == expected ==> r == Ok::<(), ProtocolError>(()),
            self.state != expected ==> r == Err::<(), ProtocolError>(
                ProtocolError::UnexpectedState { expected, actual: self.state },
            ),
    {
        self.state.ensure(expected)
    }
}

/// What a status report's bytes decode to: the status byte at offset 1, the
/// 24-bit little-endian poll timeout after it, and the state byte at offset
/// 5; an out-of-range status or state byte is a typed decode error carrying
/// the raw byte.
pub open spec fn spec_parse_status_report(report: Seq<u8>) -> Result<
    DfuStatusResult,
    ProtocolError,
>
    recommends
        report.len() >= 6,
{
    if DfuStatus::spec_from_byte(report[1]) is None {
        Err(ProtocolError::UnknownStatus(report[1]))
    } else if DfuState::spec_from_byte(report[5]) is None {
        Err(ProtocolError::UnknownState(report[5]))
    } else {
        Ok(
            DfuStatusResult {
                status: DfuStatus::spec_from_byte(report[1])->0,
                state: DfuState::spec_from_byte(report[5])->0,
                poll_timeout: u24_le(report[2], report[3], report[4]),
            },
        )
    }
}

/// Decode the body of a status report (report ID byte included at offset
/// 0) into a [`DfuStatusResult`].
pub fn parse_status_report(report: &Vec<u8>) -> (r: Result<DfuStatusResult, ProtocolError>)
    requires
        report@.len() >= 6,
    ensures
        r == spec_parse_status_report(report@),
{
    let status = match DfuStatus::from_byte(report[1]) {
        Some(s) => s,
        None => {
            return Err(ProtocolError::UnknownStatus(report[1]));
        },
    };
    let state = match DfuState::from_byte(report[5]) {
        Some(s) => s,
        None => {
            return Err(ProtocolError::UnknownState(report[5]));
        },
    };
    let poll_timeout = read_u24_le(report[2], report[3], report[4]);
    Ok(DfuStatusResult { status, state, poll_timeout })
}

/// A failed HID transaction, as described by the transport.
#[derive(Debug, PartialEq, Eq)]
pub struct TransportError {
    pub message: String,
}

/// All errors (protocol and transport) that can happen during a DFU
/// operation.
#[derive(Debug, PartialEq, Eq)]
#[non_exhaustive]
pub enum Error {
    /// The device violated the protocol even though all I/O succeeded.
    ProtocolError(ProtocolError),
    /// The underlying HID transaction failed, wrapped with a description of
    /// which action was being attempted.
    DeviceIoError { source: TransportError, action: &'static str },
}

/// Failure modes that can happen even when all I/O succeeds.
#[derive(Copy, Clone, Debug, PartialEq, Eq, Structural)]
#[non_exhaustive]
pub enum ProtocolError {
    /// The device reported a state byte that is not in the DFU spec.
    UnknownState(u8),
    /// The device reported a status byte that is not in the DFU spec.
    UnknownStatus(u8),
    /// The device reported an error status.
    ErrorStatus(DfuStatus),
    /// The device entered a state other than the one the protocol requires
    /// here.
    UnexpectedState { expected: DfuState, actual: DfuState },
    /// No safe way to leave the device's initial state is known; update
    /// mode must be re-entered physically.
    BadInitialState(DfuState),
    /// The transfer outgrew the 16-bit block space; the protocol cannot
    /// address further data.
    FileTooLarge,
    /// The device returned an invalid UTF-8 string.
    InvalidString,
    /// A feature report from the device was shorter than required.
    ReportTooShort { expected: usize, actual: usize },
}

/// What recovery to attempt from a given starting state.
#[derive(Copy, Clone, Debug, PartialEq, Eq, Structural)]
pub enum RecoveryAction {
    /// The device is already idle; nothing to do.
    AlreadyIdle,
    /// A transfer was left in progress; an abort command recovers.
    SendAbort,
    /// The device reports an error; a clear-status command recovers.
    SendClearStatus,
    /// No safe corrective command is known from this state.
    Unrecoverable,
}

/// The recovery table: idle needs nothing; the four quasi-idle transfer
/// states take an abort; the error state takes a clear-status; the
/// remaining four states (application-idle, application-detach,
/// download-busy, manifestation phases) are unrecoverable by this engine.
pub open spec fn spec_recovery_action(state: DfuState) -> RecoveryAction {
    match state {
        DfuState::dfuIDLE => RecoveryAction::AlreadyIdle,
        DfuState::dfuDNLOAD_SYNC => RecoveryAction::SendAbort,
        DfuState::dfuDNLOAD_IDLE => RecoveryAction::SendAbort,
        DfuState::dfuMANIFEST_SYNC => RecoveryAction::SendAbort,
        DfuState::dfuUPLOAD_IDLE => RecoveryAction::SendAbort,
        DfuState::dfuERROR => RecoveryAction::SendClearStatus,
        _ => RecoveryAction::Unrecoverable,
    }
}

/// Which corrective command, if any, [`ensure_idle`] issues from a given
/// starting state.
pub fn recovery_action(state: DfuState) -> (r: RecoveryAction)
    ensures
        r == spec_recovery_action(state),
{
    match state {
        DfuState::dfuIDLE => RecoveryAction::AlreadyIdle,
        DfuState::dfuDNLOAD_SYNC | DfuState::dfuDNLOAD_IDLE | DfuState::dfuMANIFEST_SYNC
            | DfuState::dfuUPLOAD_IDLE => RecoveryAction::SendAbort,
        DfuState::dfuERROR => RecoveryAction::SendClearStatus,
        _ => RecoveryAction::Unrecoverable,
    }
}

/// For each of the 11 states, the recovery action is exactly the one the
/// state machine prescribes: a no-op for idle, an abort for the four
/// quasi-idle states, a clear-status for error, and failure for the
/// remaining four.
pub proof fn lemma_recovery_action_cases()
    ensures
        spec_recovery_action(DfuState::dfuIDLE) == RecoveryAction::AlreadyIdle,
        spec_recovery_action(DfuState::dfuDNLOAD_SYNC) == RecoveryAction::SendAbort,
        spec_recovery_action(DfuState::dfuDNLOAD_IDLE) == RecoveryAction::SendAbort,
        spec_recovery_action(DfuState::dfuMANIFEST_SYNC) == RecoveryAction::SendAbort,
        spec_recovery_action(DfuState::dfuUPLOAD_IDLE) == RecoveryAction::SendAbort,
        spec_recovery_action(DfuState::dfuERROR) == RecoveryAction::SendClearStatus,
        spec_recovery_action(DfuState::appIDLE) == RecoveryAction::Unrecoverable,
        spec_recovery_action(DfuState::appDETACH) == RecoveryAction::Unrecoverable,
        spec_recovery_action(DfuState::dfuDNBUSY) == RecoveryAction::Unrecoverable,
        spec_recovery_action(DfuState::dfuMANIFEST) == RecoveryAction::Unrecoverable,
        spec_recovery_action(DfuState::dfuMANIFEST_WAIT_RESET) == RecoveryAction::Unrecoverable,
{
}

/// Map the result of a feature-report read into an appropriate error if it
/// failed or was too short: a transport failure is wrapped with the
/// attempted action's description, and a report under `min_size` bytes is a
/// [`ProtocolError::ReportTooShort`] carrying both sizes.
pub fn map_gfr(r: Result<Vec<u8>, TransportError>, min_size: usize, action: &'static str) -> (res:
    Result<Vec<u8>, Error>)
    ensures
        match r {
            Err(e) => res == Err::<Vec<u8>, Error>(Error::DeviceIoError { source: e, action }),
            Ok(s) => if s@.len() < min_size {
                res == Err::<Vec<u8>, Error>(
                    Error::ProtocolError(
                        ProtocolError::ReportTooShort {
                            expected: min_size,
                            actual: s@.len() as usize,
                        },
                    ),
                )
            } else {
                res == Ok::<Vec<u8>, Error>(s)
            },
        },
{
    match r {
        Err(e) => Err(Error::DeviceIoError { source: e, action }),
        Ok(s) => {
            if s.len() < min_size {
                Err(
                    Error::ProtocolError(
                        ProtocolError::ReportTooShort { expected: min_size, actual: s.len() },
                    ),
                )
            } else {
                Ok(s)
            }
        },
    }
}

/// The injected HID capability the engine drives a device through. One
/// implementation wraps a real HID handle; tests drive the engine with an
/// in-memory transport.
///
/// Reports carry their report ID as the leading byte, both when sent and
/// when read back. `get_report` asks for up to `report_len` bytes
/// (including the ID byte) from the channel named by `report_id` and
/// returns the bytes actually read; the engine itself checks their length
/// and content, so no contract is assumed here.
pub trait HidTransport {
    /// Send one feature report, whose first byte is the report ID.
    fn send_report(&mut self, data: &Vec<u8>) -> Result<(), TransportError>;

    /// Read one feature report of up to `report_len` bytes from the
    /// channel named by `report_id`.
    fn get_report(&mut self, report_id: u8, report_len: usize) -> Result<Vec<u8>, TransportError>;

    /// Block for the given number of milliseconds.
    fn wait_millis(&mut self, delay_ms: u32);
}

/// The protocol errors that reading and decoding one status response can
/// surface: a truncated report, or an out-of-range status or state byte.
pub open spec fn spec_status_error(pe: ProtocolError) -> bool {
    pe is ReportTooShort || pe is UnknownStatus || pe is UnknownState
}

/// Query the status channel and decode the response. Whatever the
/// transport returned, a failure here is a wrapped transport error or one
/// of the status-decoding errors, never a transfer-level error.
fn read_status<T: HidTransport>(t: &mut T) -> (r: Result<DfuStatusResult, Error>)
    ensures
        r matches Err(Error::ProtocolError(pe)) ==> spec_status_error(pe),
{
    let report = match map_gfr(t.get_report(REPORT_ID_GET_STATUS, 7), 7, "querying status") {
        Ok(report) => report,
        Err(e) => {
            return Err(e);
        },
    };
    match parse_status_report(&report) {
        Ok(status) => Ok(status),
        Err(e) => Err(Error::ProtocolError(e)),
    }
}

/// The fixed report that puts a device running the normal firmware into
/// update mode: a vendor-magic sequence on the transfer channel.
pub fn enter_dfu_report() -> (r: Vec<u8>)
    ensures
        r@ == seq![REPORT_ID_UPLOAD_DOWNLOAD, 0xb0u8, 0x07u8],
{
    let mut report: Vec<u8> = Vec::new();
    report.push(REPORT_ID_UPLOAD_DOWNLOAD);
    report.push(0xb0);  // Magic
    report.push(0x07);
    proof {
        assert(report@ =~= seq![REPORT_ID_UPLOAD_DOWNLOAD, 0xb0u8, 0x07u8]);
    }
    report
}

/// A report that executes the DFU request `code` on the state/command
/// channel.
pub fn state_command_report(code: u8) -> (r: Vec<u8>)
    ensures
        r@ == seq![REPORT_ID_STATE_CMD, code],
{
    let mut report: Vec<u8> = Vec::new();
    report.push(REPORT_ID_STATE_CMD);
    report.push(code);
    proof {
        assert(report@ =~= seq![REPORT_ID_STATE_CMD, code]);
    }
    report
}

/// Put a device running the normal firmware into DFU mode. The device must
/// NOT be in DFU mode. Sends one fixed command report; the only possible
/// failure is the transport's, reported as-is under this action's name,
/// and no state verification is performed.
pub fn enter_dfu<T: HidTransport>(t: &mut T) -> (r: Result<(), Error>)
    ensures
        r matches Err(e) ==> (e matches Error::DeviceIoError { action, .. } && action@
            == "entering DFU mode"@),
{
    let report = enter_dfu_report();
    match t.send_report(&report) {
        Ok(()) => Ok(()),
        Err(e) => Err(Error::DeviceIoError { source: e, action: "entering DFU mode" }),
    }
}

/// Switch back to the normal firmware. The device must be in DFU mode.
/// Sends one vendor-specific exit command; the only possible failure is
/// the transport's, reported as-is under this action's name, and no state
/// verification is performed.
pub fn leave_dfu<T: HidTransport>(t: &mut T) -> (r: Result<(), Error>)
    ensures
        r matches Err(e) ==> (e matches Error::DeviceIoError { action, .. } && action@
            == "leaving DFU mode"@),
{
    let report = state_command_report(BOSE_EXIT_DFU);
    match t.send_report(&report) {
        Ok(()) => Ok(()),
        Err(e) => Err(Error::DeviceIoError { source: e, action: "leaving DFU mode" }),
    }
}

/// Attempt to transition the device to the [`DfuState::dfuIDLE`] state. The
/// device must be in DFU mode.
///
/// Queries status once and acts by [`spec_recovery_action`] on the reported
/// state: succeed immediately when idle; send one abort or clear-status
/// command for the recoverable states and then require an OK/idle
/// re-query; fail with [`ProtocolError::BadInitialState`] from any other
/// state, instructing the caller to physically re-enter update mode.
///
/// Whatever the device answered, a failure is a wrapped transport error or
/// one of the recovery-step protocol errors: an unrecoverable starting
/// state, a non-OK status or wrong state after the corrective command, or
/// a status response that would not decode.
pub fn ensure_idle<T: HidTransport>(t: &mut T) -> (r: Result<(), Error>)
    ensures
        r matches Err(Error::ProtocolError(pe)) ==> (pe is BadInitialState || pe is ErrorStatus
            || pe is UnexpectedState || spec_status_error(pe)),
{
    let status = match read_status(t) {
        Ok(s) => s,
        Err(e) => {
            return Err(e);
        },
    };
    match recovery_action(status.state) {
        RecoveryAction::AlreadyIdle => {
            return Ok(());
        },
        RecoveryAction::SendAbort => {
            let report = state_command_report(DFU_ABORT);
            match t.send_report(&report) {
                Ok(()) => {},
                Err(e) => {
                    return Err(Error::DeviceIoError { source: e, action: "sending DFU_ABORT" });
                },
            }
        },
        RecoveryAction::SendClearStatus => {
            let report = state_command_report(DFU_CLRSTATUS);
            match t.send_report(&report) {
                Ok(()) => {},
                Err(e) => {
                    return Err(
                        Error::DeviceIoError { source: e, action: "sending DFU_CLRSTATUS" },
                    );
                },
            }
        },
        RecoveryAction::Unrecoverable => {
            return Err(Error::ProtocolError(ProtocolError::BadInitialState(status.state)));
        },
    }

    // We had to send a corrective request: ensure it succeeded and we're
    // now idle. One retry maximum; any remaining deviation is fatal.
    let status = match read_status(t) {
        Ok(s) => s,
        Err(e) => {
            return Err(e);
        },
    };
    match status.ensure_ok() {
        Ok(()) => {},
        Err(e) => {
            return Err(Error::ProtocolError(e));
        },
    }
    match status.ensure_state(DfuState::dfuIDLE) {
        Ok(()) => Ok(()),
        Err(e) => Err(Error::ProtocolError(e)),
    }
}

/// The transfer report that downloads one chunk: the transfer report ID,
/// the download request code, the block number and the chunk length
/// little-endian, then the chunk bytes.
pub open spec fn spec_download_report(block_num: u16, chunk: Seq<u8>) -> Seq<u8> {
    seq![
        REPORT_ID_UPLOAD_DOWNLOAD,
        DFU_DNLOAD,
        lo_byte(block_num),
        hi_byte(block_num),
        lo_byte(chunk.len() as u16),
        hi_byte(chunk.len() as u16),
    ] + chunk
}

/// Build the transfer report for the chunk of `data` that starts at
/// `offset` and is `chunk_len` bytes long.
pub fn build_download_report(block_num: u16, data: &Vec<u8>, offset: usize, chunk_len: usize) -> (r:
    Vec<u8>)
    requires
        offset + chunk_len <= data@.len(),
        chunk_len <= XFER_DATA_SIZE,
    ensures
        r@ == spec_download_report(
            block_num,
            data@.subrange(offset as int, offset + chunk_len),
        ),
{
    let mut report: Vec<u8> = Vec::new();
    report.push(REPORT_ID_UPLOAD_DOWNLOAD);
    report.push(DFU_DNLOAD);
    report.push(crate::wire::split_lo(block_num));
    report.push(crate::wire::split_hi(block_num));
    report.push(crate::wire::split_lo(chunk_len as u16));
    report.push(crate::wire::split_hi(chunk_len as u16));
    let total = data.len();
    let mut i: usize = 0;
    while i < chunk_len
        invariant
            0 <= i <= chunk_len,
            offset + chunk_len <= data@.len(),
            data@.len() == total,
            chunk_len <= XFER_DATA_SIZE,
            report@ == seq![
                REPORT_ID_UPLOAD_DOWNLOAD,
                DFU_DNLOAD,
                lo_byte(block_num),
                hi_byte(block_num),
                lo_byte(chunk_len as u16),
                hi_byte(chunk_len as u16),
            ] + data@.subrange(offset as int, offset + i),
        decreases chunk_len - i,
    {
        report.push(data[offset + i]);
        proof {
            assert(data@.subrange(offset as int, offset + i + 1) =~= data@.subrange(
                offset as int,
                offset + i,
            ).push(data@[offset + i]));
        }
        i = i + 1;
    }
    proof {
        assert(report@ =~= spec_download_report(
            block_num,
            data@.subrange(offset as int, offset + chunk_len),
        ));
    }
    report
}

/// Download (i.e. write firmware to) the device. The device must be in DFU
/// mode and idle. `data` should contain only the firmware payload to be
/// written, with any DFU suffix stripped off.
///
/// The payload is sent in blocks of at most [`XFER_DATA_SIZE`] bytes,
/// terminated by an empty block; the device dictates every delay through
/// the poll timeout of its status response to the previous block. Success
/// is possible only for payloads the 16-bit block counter can address, and
/// the counter's overflow is reported as exactly
/// [`ProtocolError::FileTooLarge`], only on payloads beyond that limit.
pub fn download<T: HidTransport>(t: &mut T, data: &Vec<u8>) -> (r: Result<(), Error>)
    ensures
        r is Ok ==> data@.len() <= 65535 * (XFER_DATA_SIZE as int),
        r == Err::<(), Error>(Error::ProtocolError(ProtocolError::FileTooLarge)) ==> data@.len()
            > 65535 * (XFER_DATA_SIZE as int),
        r matches Err(Error::ProtocolError(pe)) ==> (pe is FileTooLarge || pe is ErrorStatus
            || pe is UnexpectedState || spec_status_error(pe)),
{
    let mut block_num: u16 = 0;
    let mut prev_delay: u32 = 0;
    let mut offset: usize = 0;
    loop
        invariant
            offset <= data@.len(),
            offset <= block_num * (XFER_DATA_SIZE as int),
            offset == block_num * (XFER_DATA_SIZE as int) || offset == data@.len(),
        decreases data@.len() - offset,
    {
        let remaining = data.len() - offset;
        let chunk_len = if remaining < XFER_DATA_SIZE {
            remaining
        } else {
            XFER_DATA_SIZE
        };
        let report = build_download_report(block_num, data, offset, chunk_len);
        match t.send_report(&report) {
            Ok(()) => {},
            Err(e) => {
                return Err(
                    Error::DeviceIoError { source: e, action: "sending firmware data chunk" },
                );
            },
        }

        // Device quirk, reproduced from the official updater: after the
        // final (empty) block the device stops responding to immediate
        // queries, and the delay it needs for manifestation was
        // communicated in its status response to the *previous* (non-empty)
        // block. So the carried delay is slept off before this status
        // query, not after it.
        if chunk_len == 0 {
            t.wait_millis(prev_delay);
        }

        let status = match read_status(t) {
            Ok(s) => s,
            Err(e) => {
                return Err(e);
            },
        };
        match status.ensure_ok() {
            Ok(()) => {},
            Err(e) => {
                return Err(Error::ProtocolError(e));
            },
        }
        prev_delay = status.poll_timeout;

        if chunk_len == 0 {
            // An empty block means we're done; the device should now be idle.
            match status.ensure_state(DfuState::dfuIDLE) {
                Ok(()) => {
                    return Ok(());
                },
                Err(e) => {
                    return Err(Error::ProtocolError(e));
                },
            }
        } else {
            match status.ensure_state(DfuState::dfuDNLOAD_IDLE) {
                Ok(()) => {},
                Err(e) => {
                    return Err(Error::ProtocolError(e));
                },
            }
        }

        block_num = match block_num.checked_add(1) {
            Some(i) => i,
            None => {
                return Err(Error::ProtocolError(ProtocolError::FileTooLarge));
            },
        };
        offset = offset + chunk_len;
    }
}

/// What an upload transfer report's bytes carry: the chunk length
/// little-endian at offsets 1..3, three reserved bytes, then the chunk; a
/// report shorter than its header advertises is a typed error carrying both
/// sizes.
pub open spec fn spec_upload_chunk(report: Seq<u8>) -> Result<Seq<u8>, ProtocolError>
    recommends
        report.len() >= 6,
{
    let data_size = word_le(report[1], report[2]) as int;
    if report.len() < 6 + data_size {
        Err(
            ProtocolError::ReportTooShort {
                expected: (6 + data_size) as usize,
                actual: report.len() as usize,
            },
        )
    } else {
        Ok(report.subrange(6, 6 + data_size))
    }
}

/// Extract the chunk bytes from one upload transfer report (report ID byte
/// included at offset 0).
pub fn extract_upload_chunk(report: &Vec<u8>) -> (r: Result<Vec<u8>, ProtocolError>)
    requires
        report@.len() >= 6,
    ensures
        match r {
            Ok(chunk) => spec_upload_chunk(report@) == Ok::<Seq<u8>, ProtocolError>(chunk@),
            Err(e) => spec_upload_chunk(report@) == Err::<Seq<u8>, ProtocolError>(e),
        },
{
    let data_size = read_word_le(report[1], report[2]) as usize;
    if report.len() < 6 + data_size {
        return Err(ProtocolError::ReportTooShort { expected: 6 + data_size, actual: report.len() });
    }
    let mut chunk: Vec<u8> = Vec::new();
    let total = report.len();
    let mut i: usize = 0;
    while i < data_size
        invariant
            0 <= i <= data_size,
            6 + data_size <= report@.len(),
            report@.len() == total,
            chunk@ == report@.subrange(6, 6 + i),
        decreases data_size - i,
    {
        chunk.push(report[6 + i]);
        proof {
            assert(report@.subrange(6, 6 + i + 1) =~= report@.subrange(6, 6 + i).push(
                report@[6 + i],
            ));
        }
        i = i + 1;
    }
    Ok(chunk)
}

/// Upload (i.e. read firmware from) the device, returning the raw payload.
/// The device must be in DFU mode and idle. No processing is done on the
/// returned data (for example, a DFU suffix is not added).
///
/// Chunks are requested at the fixed transfer size; each chunk is appended
/// to the result in order, and the first short chunk ends the transfer,
/// after which the device must be idle.
pub fn upload<T: HidTransport>(t: &mut T) -> (r: Result<Vec<u8>, Error>)
    ensures
        r matches Ok(v) ==> v@.len() <= 65536 * (XFER_DATA_SIZE as int) + 0xffff,
        r matches Err(Error::ProtocolError(pe)) ==> (pe is FileTooLarge || pe is ErrorStatus
            || pe is UnexpectedState || spec_status_error(pe)),
{
    let mut out: Vec<u8> = Vec::new();

    // The 16-bit block space bounds what one transfer can address in this
    // protocol; a device still streaming full-size chunks past it is
    // violating the protocol, not ending its transfer. The result is
    // therefore at most that many full blocks plus one final chunk, whose
    // declared length is a 16-bit field.
    let mut blocks_left: u32 = 65536;

    loop
        invariant
            blocks_left <= 65536,
            out@.len() == (65536 - blocks_left) * (XFER_DATA_SIZE as int),
        decreases blocks_left,
    {
        let report = match map_gfr(
            t.get_report(REPORT_ID_UPLOAD_DOWNLOAD, 1 + XFER_HEADER_SIZE + XFER_DATA_SIZE),
            1 + XFER_HEADER_SIZE,
            "reading firmware data chunk",
        ) {
            Ok(report) => report,
            Err(e) => {
                return Err(e);
            },
        };

        let status = match read_status(t) {
            Ok(s) => s,
            Err(e) => {
                return Err(e);
            },
        };
        match status.ensure_ok() {
            Ok(()) => {},
            Err(e) => {
                return Err(Error::ProtocolError(e));
            },
        }

        let chunk = match extract_upload_chunk(&report) {
            Ok(chunk) => chunk,
            Err(e) => {
                return Err(Error::ProtocolError(e));
            },
        };
        let data_size = chunk.len();

        let ghost appended_from = out@.len();
        let mut i: usize = 0;
        while i < chunk.len()
            invariant
                0 <= i <= chunk@.len(),
                out@.len() == appended_from + i,
            decreases chunk@.len() - i,
        {
            out.push(chunk[i]);
            i = i + 1;
        }

        if data_size != XFER_DATA_SIZE {
            // A short chunk means we're done; the device should now be idle.
            match status.ensure_state(DfuState::dfuIDLE) {
                Ok(()) => {
                    return Ok(out);
                },
                Err(e) => {
                    return Err(Error::ProtocolError(e));
                },
            }
        } else {
            match status.ensure_state(DfuState::dfuUPLOAD_IDLE) {
                Ok(()) => {},
                Err(e) => {
                    return Err(Error::ProtocolError(e));
                },
            }
        }

        if blocks_left == 0 {
            return Err(Error::ProtocolError(ProtocolError::FileTooLarge));
        }
        blocks_left = blocks_left - 1;
    }
}

/// Report ID of the info-field / TAP channel of the normal firmware.
pub const INFO_REPORT_ID: u8 = 2;

/// Length of an info-field response, not counting the report ID.
pub const INFO_REPORT_LEN: usize = 126;

/// Length of a TAP command response, not counting the report ID.
pub const TAP_REPORT_LEN: usize = 2048;

/// Pieces of information that the normal firmware exposes.
#[derive(Copy, Clone, Debug, PartialEq, Eq, Structural)]
#[non_exhaustive]
pub enum InfoField {
    DeviceModel,
    SerialNumber,
    CurrentFirmware,
}

/// The fixed two-byte request code of each info field.
pub open spec fn spec_info_field_code(field: InfoField) -> Seq<u8> {
    match field {
        InfoField::DeviceModel => seq![0x70u8, 0x6cu8],  // "pl"
        InfoField::SerialNumber => seq![0x73u8, 0x6eu8],  // "sn"
        InfoField::CurrentFirmware => seq![0x76u8, 0x72u8],  // "vr"
    }
}

/// The request report that asks the normal firmware for an info field: the
/// info report ID, the field's two-byte code, and a terminating NUL.
pub fn info_request_report(field: InfoField) -> (r: Vec<u8>)
    ensures
        r@ == seq![INFO_REPORT_ID] + spec_info_field_code(field) + seq![0u8],
{
    let mut report: Vec<u8> = Vec::new();
    report.push(INFO_REPORT_ID);
    match field {
        InfoField::DeviceModel => {
            report.push(0x70);
            report.push(0x6c);
        },
        InfoField::SerialNumber => {
            report.push(0x73);
            report.push(0x6e);
        },
        InfoField::CurrentFirmware => {
            report.push(0x76);
            report.push(0x72);
        },
    }
    report.push(0);
    proof {
        assert(report@ =~= seq![INFO_REPORT_ID] + spec_info_field_code(field) + seq![0u8]);
    }
    report
}

/// The request report that runs a free-form TAP command: the info report
/// ID, the command bytes, and a terminating NUL.
pub fn tap_request_report(command: &Vec<u8>) -> (r: Vec<u8>)
    requires
        command@.len() + 2 <= usize::MAX,
    ensures
        r@ == seq![INFO_REPORT_ID] + command@ + seq![0u8],
{
    let mut report: Vec<u8> = Vec::new();
    report.push(INFO_REPORT_ID);
    let total = command.len();
    let mut i: usize = 0;
    while i < total
        invariant
            0 <= i <= total,
            command@.len() == total,
            report@ == seq![INFO_REPORT_ID] + command@.take(i as int),
        decreases total - i,
    {
        report.push(command[i]);
        proof {
            assert(seq![INFO_REPORT_ID] + command@.take(i + 1) =~= (seq![INFO_REPORT_ID]
                + command@.take(i as int)).push(command@[i as int]));
        }
        i = i + 1;
    }
    report.push(0);
    proof {
        assert(command@.take(total as int) =~= command@);
        assert(report@ =~= seq![INFO_REPORT_ID] + command@ + seq![0u8]);
    }
    report
}

/// The bytes of `report` from `start` up to but not including the first
/// NUL (or the end, if none): every byte of the result is non-zero, and
/// the result stops exactly at a NUL when one follows it.
pub fn nul_terminated_prefix(report: &Vec<u8>, start: usize) -> (r: Vec<u8>)
    requires
        start <= report@.len(),
    ensures
        start + r@.len() <= report@.len(),
        r@ == report@.subrange(start as int, start + r@.len()),
        forall|i: int| 0 <= i < r@.len() ==> r@[i] != 0,
        start + r@.len() < report@.len() ==> report@[start + r@.len()] == 0,
{
    let total = report.len();
    let mut out: Vec<u8> = Vec::new();
    let mut i: usize = start;
    while i < total && report[i] != 0
        invariant
            start <= i <= total,
            report@.len() == total,
            out@ == report@.subrange(start as int, i as int),
            forall|j: int| 0 <= j < out@.len() ==> out@[j] != 0,
        decreases total - i,
    {
        out.push(report[i]);
        proof {
            assert(report@.subrange(start as int, i + 1) =~= report@.subrange(
                start as int,
                i as int,
            ).push(report@[i as int]));
        }
        i = i + 1;
    }
    out
}

/// Relies on `std::str::from_utf8`: succeeds exactly on valid UTF-8, and
/// then the string's characters are the decoding of the bytes.
#[verifier::external_body]
fn decode_utf8_bytes(bytes: &Vec<u8>) -> (r: Option<String>)
    ensures
        r is Some <==> vstd::utf8::valid_utf8(bytes@),
        r is Some ==> r->0@ == vstd::utf8::decode_utf8(bytes@),
{
    match std::str::from_utf8(bytes.as_slice()) {
        Ok(s) => Some(s.to_owned()),
        Err(_) => None,
    }
}

/// Read an information field (as listed in [`InfoField`]) from the normal
/// firmware. The device must NOT be in DFU mode.
///
/// Sends the field's fixed two-byte request code on the info channel, reads
/// one fixed-length response, and returns the UTF-8 string found before the
/// first zero byte of the response; a response that is not UTF-8 is the
/// protocol error [`ProtocolError::InvalidString`], not silently tolerated.
/// Those two are the only protocol errors here; everything else is a
/// wrapped transport failure.
pub fn read_info_field<T: HidTransport>(t: &mut T, field: InfoField) -> (r: Result<String, Error>)
    ensures
        r matches Err(Error::ProtocolError(pe)) ==> (pe is ReportTooShort
            || pe is InvalidString),
{
    let request = info_request_report(field);
    match t.send_report(&request) {
        Ok(()) => {},
        Err(e) => {
            return Err(Error::DeviceIoError { source: e, action: "requesting info field" });
        },
    }

    let response = match map_gfr(
        t.get_report(INFO_REPORT_ID, 1 + INFO_REPORT_LEN),
        1,
        "reading info field",
    ) {
        Ok(response) => response,
        Err(e) => {
            return Err(e);
        },
    };

    // The result is all the bytes after the report ID and before the first NUL.
    let raw = nul_terminated_prefix(&response, 1);
    match decode_utf8_bytes(&raw) {
        Some(s) => Ok(s),
        None => Err(Error::ProtocolError(ProtocolError::InvalidString)),
    }
}

/// Send one free-form vendor TAP command over the info channel and return
/// the zero-terminated prefix of the fixed-length response as raw bytes.
/// The device must NOT be in DFU mode. This is a diagnostic channel; the
/// response is not validated beyond framing, and whether it decodes as text
/// is the caller's concern. A successful result never contains a zero
/// byte; a truncated response is the only protocol error, everything else
/// a wrapped transport failure.
pub fn run_tap_command<T: HidTransport>(t: &mut T, command: &Vec<u8>) -> (r: Result<Vec<u8>, Error>)
    requires
        command@.len() + 2 <= usize::MAX,
    ensures
        r matches Ok(v) ==> forall|i: int| 0 <= i < v@.len() ==> v@[i] != 0,
        r matches Err(Error::ProtocolError(pe)) ==> pe is ReportTooShort,
{
    let request = tap_request_report(command);
    match t.send_report(&request) {
        Ok(()) => {},
        Err(e) => {
            return Err(Error::DeviceIoError { source: e, action: "running TAP command" });
        },
    }

    let response = match map_gfr(
        t.get_report(INFO_REPORT_ID, 1 + TAP_REPORT_LEN),
        1,
        "reading TAP command response",
    ) {
        Ok(response) => response,
        Err(e) => {
            return Err(e);
        },
    };

    // The result is all the bytes after the report ID and before the first NUL.
    Ok(nul_terminated_prefix(&response, 1))
}

} // verus!
