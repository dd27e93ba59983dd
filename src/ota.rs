//! The update state and the decisions of the three protocol handlers.
//!
//! Each handler is split around its hardware call: a first step decides, from
//! the write and the state, which flash operation (if any) to perform; a
//! second step takes that operation's result, updates the state and queues
//! the outcome for the dispatcher.
use crate::operation::{BluetoothOperation, OTA_CONTROL_DONE, OTA_CONTROL_REQUEST};
use crate::queue::OperationQueue;
use vstd::prelude::*;

verus! {

/// Progress of the one update session the device can run.
#[derive(Clone, Copy, Debug, PartialEq, Eq, Structural)]
pub struct OtaLogic {
    /// A session is open and data chunks are written to it.
    pub updating: bool,
    /// A session was closed and its image validated.
    pub update_available: bool,
    /// Chunk size the peer announced when it opened the session.
    pub packet_size: u16,
    /// Data chunks counted since the session was opened.
    pub packets_received: u16,
}

/// What the control handler does after reading a write.
#[derive(Clone, Copy, Debug, PartialEq, Eq, Structural)]
pub enum ControlAction {
    /// Empty write or an opcode without an action.
    Nothing,
    /// Open a flash session; `packet_size` is the announced chunk size, if
    /// the write carried one.
    BeginSession { packet_size: Option<u16> },
    /// Close the flash session.
    EndSession,
}

/// Why closing the flash session failed.
#[derive(Clone, Copy, Debug, PartialEq, Eq, Structural)]
pub enum EndError {
    /// The written image did not pass validation.
    ValidationFailed,
    /// Any other error code of the flash driver.
    Failed(i32),
}

/// What the apply handler does after reading the state.
#[derive(Clone, Copy, Debug, PartialEq, Eq, Structural)]
pub enum ApplyAction {
    /// Nothing to apply; the outcome was queued, or dropped if `posted` is false.
    Answered { posted: bool },
    /// Mark the updated partition bootable, then call `apply_finished`.
    SetBootPartition,
}

/// The chunk size carried by the bytes after a REQUEST opcode: one byte is
/// the size itself; with two or more, the second is the high byte and the
/// first the low byte. No bytes, no size.
pub open spec fn packet_size_of(payload: Seq<u8>) -> Option<u16> {
    if payload.len() == 0 {
        None
    } else if payload.len() == 1 {
        Some(payload[0] as u16)
    } else {
        Some((payload[1] as int * 256 + payload[0] as int) as u16)
    }
}

/// The action that a control write asks for: its first byte is the opcode.
pub open spec fn control_action_of(value: Seq<u8>) -> ControlAction {
    if value.len() == 0 {
        ControlAction::Nothing
    } else if value[0] == OTA_CONTROL_REQUEST {
        ControlAction::BeginSession { packet_size: packet_size_of(value.drop_first()) }
    } else if value[0] == OTA_CONTROL_DONE {
        ControlAction::EndSession
    } else {
        ControlAction::Nothing
    }
}

/// The state once the control handler has read a write: a DONE stops the
/// session before it is closed; nothing else changes here.
pub open spec fn after_control(s: OtaLogic, value: Seq<u8>) -> OtaLogic {
    match control_action_of(value) {
        ControlAction::EndSession => OtaLogic { updating: false, ..s },
        _ => s,
    }
}

/// The state once opening a session returned: on success the session is
/// marked open, the announced size kept and the chunk count reset.
pub open spec fn after_begin(s: OtaLogic, packet_size: Option<u16>, begun: bool) -> OtaLogic {
    if begun {
        OtaLogic {
            updating: true,
            packet_size: match packet_size {
                Some(n) => n,
                None => s.packet_size,
            },
            packets_received: 0,
            ..s
        }
    } else {
        s
    }
}

/// The state once closing the session returned: no session is open, and an
/// image is available if one was before or this close succeeded.
pub open spec fn after_end(s: OtaLogic, ended: bool) -> OtaLogic {
    OtaLogic { updating: false, update_available: s.update_available || ended, ..s }
}

/// The state once a data chunk arrived: counted while a session is open,
/// whatever became of the write; ignored otherwise.
pub open spec fn after_data(s: OtaLogic) -> OtaLogic {
    if s.updating {
        OtaLogic { packets_received: ((s.packets_received + 1) % 0x10000) as u16, ..s }
    } else {
        s
    }
}

/// The outcome queued once opening a session returned.
pub open spec fn request_outcome(begun: bool) -> BluetoothOperation {
    if begun {
        BluetoothOperation::ControlRequestAck
    } else {
        BluetoothOperation::ControlRequestNack
    }
}

/// The outcome queued once closing the session returned.
pub open spec fn done_outcome(ended: bool) -> BluetoothOperation {
    if ended {
        BluetoothOperation::DoneAck
    } else {
        BluetoothOperation::DoneNack
    }
}

/// The outcome queued once changing the boot partition returned.
pub open spec fn apply_outcome(applied: bool) -> BluetoothOperation {
    if applied {
        BluetoothOperation::ApplySuccess
    } else {
        BluetoothOperation::ApplyFail
    }
}

/// Reads the chunk size from the bytes that follow a REQUEST opcode.
pub fn parse_packet_size(payload: &[u8]) -> (r: Option<u16>)
    ensures
        r == packet_size_of(payload@),
{
    if payload.len() == 0 {
        None
    } else if payload.len() == 1 {
        Some(payload[0] as u16)
    } else {
        let high: u16 = payload[1] as u16;
        let low: u16 = payload[0] as u16;
        assert(high << 8 == high * 256) by (bit_vector)
            requires
                high <= 255,
        ;
        Some((high << 8) + low)
    }
}

impl OtaLogic {
    /// The state at start-up: no session, no image, nothing counted.
    pub fn new() -> (r: OtaLogic)
        ensures
            r == (OtaLogic {
                updating: false,
                update_available: false,
                packet_size: 0,
                packets_received: 0,
            }),
    {
        OtaLogic { updating: false, update_available: false, packet_size: 0, packets_received: 0 }
    }

    /// First step of the control handler. An empty write or an unknown
    /// opcode changes nothing and asks for nothing. REQUEST asks to open a
    /// session, with the chunk size read from the bytes after the opcode.
    /// DONE stops the session and asks to close it.
    pub fn control_step(&mut self, value: &[u8]) -> (r: ControlAction)
        ensures
            r == control_action_of(value@),
            *final(self) == after_control(*old(self), value@),
            value@.len() == 0 ==> r == ControlAction::Nothing && *final(self) == *old(self),
    {
        if value.len() == 0 {
            return ControlAction::Nothing;
        }
        let opcode = value[0];
        if opcode == OTA_CONTROL_REQUEST {
            let payload = value.split_at(1).1;
            ControlAction::BeginSession { packet_size: parse_packet_size(payload) }
        } else if opcode == OTA_CONTROL_DONE {
            self.updating = false;
            ControlAction::EndSession
        } else {
            ControlAction::Nothing
        }
    }

    /// Second step of a REQUEST, once opening the flash session returned
    /// `begun`: on success the session is open, the chunk size taken and
    /// the count reset, and an ack is queued; on failure the state is kept
    /// and a nack is queued. Returns false when the queue was full and the
    /// outcome was dropped.
    pub fn request_finished(
        &mut self,
        packet_size: Option<u16>,
        begun: Result<(), i32>,
        queue: &mut OperationQueue,
    ) -> (posted: bool)
        requires
            old(queue).wf(),
        ensures
            *final(self) == after_begin(*old(self), packet_size, begun is Ok),
            OperationQueue::posts(*old(queue), *final(queue), request_outcome(begun is Ok), posted),
    {
        match begun {
            Ok(()) => {
                self.updating = true;
                if let Some(n) = packet_size {
                    self.packet_size = n;
                }
                self.packets_received = 0;
                queue.post(BluetoothOperation::ControlRequestAck)
            },
            Err(_) => queue.post(BluetoothOperation::ControlRequestNack),
        }
    }

    /// Second step of a DONE, once closing the flash session returned
    /// `ended`: no session is open afterwards; on success an image is
    /// available and an ack is queued, on failure the availability is kept
    /// and a nack is queued. Returns false when the outcome was dropped.
    pub fn done_finished(&mut self, ended: Result<(), EndError>, queue: &mut OperationQueue) -> (posted: bool)
        requires
            old(queue).wf(),
        ensures
            *final(self) == after_end(*old(self), ended is Ok),
            OperationQueue::posts(*old(queue), *final(queue), done_outcome(ended is Ok), posted),
    {
        self.updating = false;
        match ended {
            Ok(()) => {
                self.update_available = true;
                queue.post(BluetoothOperation::DoneAck)
            },
            Err(_) => queue.post(BluetoothOperation::DoneNack),
        }
    }

    /// The data handler. While a session is open the chunk is counted and
    /// true is returned: the caller then writes it to the session, and the
    /// count stands whether that write succeeds or not. Otherwise nothing
    /// changes and false is returned. The count wraps at 2^16.
    pub fn on_data_write(&mut self) -> (write_chunk: bool)
        ensures
            write_chunk == old(self).updating,
            *final(self) == after_data(*old(self)),
            old(self).updating ==> final(self).packets_received as int == (
            old(self).packets_received + 1) % 0x10000,
    {
        if self.updating {
            self.packets_received = self.packets_received.wrapping_add(1);
            true
        } else {
            false
        }
    }

    /// First step of the apply handler. Without an available image it
    /// queues the none-available outcome and changes nothing; with one it
    /// asks the caller to set the boot partition.
    pub fn apply_step(&self, queue: &mut OperationQueue) -> (r: ApplyAction)
        requires
            old(queue).wf(),
        ensures
            !self.update_available ==> (r matches ApplyAction::Answered { posted }
                && OperationQueue::posts(
                *old(queue),
                *final(queue),
                BluetoothOperation::ApplyNoneAvailable,
                posted,
            )),
            self.update_available ==> r == ApplyAction::SetBootPartition && *final(queue)
                == *old(queue),
    {
        if self.update_available {
            ApplyAction::SetBootPartition
        } else {
            let posted = queue.post(BluetoothOperation::ApplyNoneAvailable);
            ApplyAction::Answered { posted }
        }
    }
}

/// Second step of the apply handler, once setting the boot partition
/// returned `applied`: queues success or failure. The update state is not
/// touched, so a failed apply can be retried.
pub fn apply_finished(applied: Result<(), i32>, queue: &mut OperationQueue) -> (posted: bool)
    requires
        old(queue).wf(),
    ensures
        OperationQueue::posts(*old(queue), *final(queue), apply_outcome(applied is Ok), posted),
{
    match applied {
        Ok(()) => queue.post(BluetoothOperation::ApplySuccess),
        Err(_) => queue.post(BluetoothOperation::ApplyFail),
    }
}

/// A REQUEST followed by a DONE whose close fails never makes an image
/// available that was not available before, and leaves no session open,
/// whatever became of opening the session and whatever data came between.
pub proof fn lemma_failed_done_makes_nothing_available(
    s: OtaLogic,
    request: Seq<u8>,
    begun: bool,
    chunks: nat,
    done: Seq<u8>,
)
    requires
        request.len() > 0,
        request[0] == OTA_CONTROL_REQUEST,
        done.len() > 0,
        done[0] == OTA_CONTROL_DONE,
    ensures
        ({
            let opened = after_begin(
                after_control(s, request),
                control_action_of(request)->packet_size,
                begun,
            );
            let finished = after_end(after_control(after_data_n(opened, chunks), done), false);
            &&& finished.update_available == s.update_available
            &&& !finished.updating
        }),
{
    let opened = after_begin(
        after_control(s, request),
        control_action_of(request)->packet_size,
        begun,
    );
    lemma_data_keeps_availability(opened, chunks);
}

/// The state after `n` data chunks.
pub open spec fn after_data_n(s: OtaLogic, n: nat) -> OtaLogic
    decreases n,
{
    if n == 0 {
        s
    } else {
        after_data(after_data_n(s, (n - 1) as nat))
    }
}

/// Once a session is open, each data chunk is counted: after `n` chunks the
/// count is `n` (modulo 2^16) and the session is still open.
pub proof fn lemma_open_session_counts_chunks(s: OtaLogic, packet_size: Option<u16>, n: nat)
    ensures
        after_data_n(after_begin(s, packet_size, true), n).packets_received as int == n % 0x10000,
        after_data_n(after_begin(s, packet_size, true), n).updating,
    decreases n,
{
    if n > 0 {
        lemma_open_session_counts_chunks(s, packet_size, (n - 1) as nat);
        let m = (n - 1) as nat;
        assert(((m % 0x10000) + 1) % 0x10000 == n % 0x10000) by (nonlinear_arith)
            requires
                n == m + 1,
        ;
    }
}

/// Data chunks never change whether an image is available.
pub proof fn lemma_data_keeps_availability(s: OtaLogic, n: nat)
    ensures
        after_data_n(s, n).update_available == s.update_available,
    decreases n,
{
    if n > 0 {
        lemma_data_keeps_availability(s, (n - 1) as nat);
    }
}

} // verus!
