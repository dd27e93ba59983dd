//! Outcome messages that the protocol handlers hand to the dispatcher, and
//! the wire bytes that each one publishes.
use vstd::prelude::*;

verus! {

/// Control opcode: no operation.
pub const OTA_CONTROL_NOP: u8 = 0x00;
/// Control opcode: the peer asks to start an update session.
pub const OTA_CONTROL_REQUEST: u8 = 0x01;
/// Control notification: the session was opened.
pub const OTA_CONTROL_REQUEST_ACK: u8 = 0x02;
/// Control notification: the session could not be opened.
pub const OTA_CONTROL_REQUEST_NAK: u8 = 0x03;
/// Control opcode: the peer has sent the whole image.
pub const OTA_CONTROL_DONE: u8 = 0x04;
/// Control notification: the image was closed and validated.
pub const OTA_CONTROL_DONE_ACK: u8 = 0x05;
/// Control notification: closing or validating the image failed.
pub const OTA_CONTROL_DONE_NAK: u8 = 0x06;

/// Apply notification: the new image was made bootable.
pub const UPDATE_SUCCESS: u8 = 0;
/// Apply notification: the boot partition could not be changed.
pub const UPDATE_FAIL: u8 = 1;
/// Apply notification: there was no validated image to apply.
pub const NONE_ATTEMPTED: u8 = 2;

/// The outcome of one protocol step, queued for the dispatcher.
#[derive(Clone, Copy, Debug, PartialEq, Eq, Structural)]
pub enum BluetoothOperation {
    ApplyNoneAvailable,
    ApplyFail,
    ApplySuccess,
    ControlRequestNack,
    ControlRequestAck,
    DoneAck,
    DoneNack,
}

/// The characteristic on which an outcome is published.
#[derive(Clone, Copy, Debug, PartialEq, Eq, Structural)]
pub enum Surface {
    Control,
    Apply,
}

/// The one-byte value published for an outcome.
pub open spec fn payload_of(op: BluetoothOperation) -> u8 {
    match op {
        BluetoothOperation::ApplyNoneAvailable => NONE_ATTEMPTED,
        BluetoothOperation::ApplyFail => UPDATE_FAIL,
        BluetoothOperation::ApplySuccess => UPDATE_SUCCESS,
        BluetoothOperation::ControlRequestNack => OTA_CONTROL_REQUEST_NAK,
        BluetoothOperation::ControlRequestAck => OTA_CONTROL_REQUEST_ACK,
        BluetoothOperation::DoneAck => OTA_CONTROL_DONE_ACK,
        BluetoothOperation::DoneNack => OTA_CONTROL_DONE_NAK,
    }
}

/// Apply outcomes go to the apply characteristic, all others to control.
pub open spec fn surface_of(op: BluetoothOperation) -> Surface {
    match op {
        BluetoothOperation::ApplyNoneAvailable
        | BluetoothOperation::ApplyFail
        | BluetoothOperation::ApplySuccess => Surface::Apply,
        _ => Surface::Control,
    }
}

impl BluetoothOperation {
    /// The byte published for this outcome.
    pub fn payload(&self) -> (r: u8)
        ensures
            r == payload_of(*self),
    {
        match self {
            BluetoothOperation::ApplyNoneAvailable => NONE_ATTEMPTED,
            BluetoothOperation::ApplyFail => UPDATE_FAIL,
            BluetoothOperation::ApplySuccess => UPDATE_SUCCESS,
            BluetoothOperation::ControlRequestNack => OTA_CONTROL_REQUEST_NAK,
            BluetoothOperation::ControlRequestAck => OTA_CONTROL_REQUEST_ACK,
            BluetoothOperation::DoneAck => OTA_CONTROL_DONE_ACK,
            BluetoothOperation::DoneNack => OTA_CONTROL_DONE_NAK,
        }
    }

    /// The characteristic that publishes this outcome.
    pub fn surface(&self) -> (r: Surface)
        ensures
            r == surface_of(*self),
    {
        match self {
            BluetoothOperation::ApplyNoneAvailable
            | BluetoothOperation::ApplyFail
            | BluetoothOperation::ApplySuccess => Surface::Apply,
            _ => Surface::Control,
        }
    }

    /// Whether publishing this outcome is followed by a device restart.
    pub fn restarts(&self) -> (r: bool)
        ensures
            r == (*self == BluetoothOperation::ApplySuccess),
    {
        match self {
            BluetoothOperation::ApplySuccess => true,
            _ => false,
        }
    }
}

/// An outcome ready to be set as a characteristic's value and notified.
pub struct BLEOperationMessage {
    pub operation: BluetoothOperation,
    pub surface: Surface,
    pub data: Vec<u8>,
}

impl BLEOperationMessage {
    /// The message that publishes `operation`: its byte on its surface.
    pub fn from_operation(operation: BluetoothOperation) -> (r: BLEOperationMessage)
        ensures
            r.operation == operation,
            r.surface == surface_of(operation),
            r.data@ == seq![payload_of(operation)],
    {
        let data: Vec<u8> = vec![operation.payload()];
        BLEOperationMessage { operation, surface: operation.surface(), data }
    }
}

} // verus!
