//! One tick of the dispatcher thread, and the byte buffers it shares with
//! the application layer.
use crate::operation::{payload_of, surface_of, BLEOperationMessage, BluetoothOperation};
use crate::queue::OperationQueue;
use vstd::prelude::*;

verus! {

/// What the dispatcher publishes in one tick.
pub struct TickPlan {
    /// The whole pending outbound stream, as one notification, if any.
    pub stream_out: Option<Vec<u8>>,
    /// The outcome taken from the queue, if one was waiting.
    pub message: Option<BLEOperationMessage>,
    /// The device restarts after publishing `message`.
    pub restart: bool,
}

/// Takes the whole content of a shared byte buffer and leaves it empty.
pub fn take_pending(buffer: &mut Vec<u8>) -> (r: Vec<u8>)
    ensures
        r@ == old(buffer)@,
        final(buffer)@.len() == 0,
{
    let mut taken: Vec<u8> = Vec::new();
    std::mem::swap(buffer, &mut taken);
    taken
}

/// Appends `data` to a shared byte buffer.
pub fn append_stream(buffer: &mut Vec<u8>, data: &[u8])
    ensures
        final(buffer)@ == old(buffer)@ + data@,
{
    let mut i: usize = 0;
    while i < data.len()
        invariant
            i <= data@.len(),
            buffer@ == old(buffer)@ + data@.subrange(0, i as int),
        decreases data@.len() - i,
    {
        buffer.push(data[i]);
        i = i + 1;
        assert(data@.subrange(0, i as int) == data@.subrange(0, i - 1 as int).push(data@[i - 1]));
    }
    assert(data@.subrange(0, data@.len() as int) == data@);
}

/// One dispatcher tick: the pending outbound stream is taken whole, at most
/// one outcome is taken from the queue in order, and a restart follows an
/// applied update and nothing else.
pub fn dispatch_tick(queue: &mut OperationQueue, output: &mut Vec<u8>) -> (plan: TickPlan)
    requires
        old(queue).wf(),
    ensures
        final(queue).wf(),
        final(queue).spec_capacity() == old(queue).spec_capacity(),
        final(output)@.len() == 0,
        old(output)@.len() == 0 ==> plan.stream_out.is_none(),
        old(output)@.len() > 0 ==> (plan.stream_out matches Some(bytes) && bytes@ == old(
            output,
        )@),
        old(queue)@.len() == 0 ==> plan.message.is_none() && !plan.restart && final(queue)@
            == old(queue)@,
        old(queue)@.len() > 0 ==> (plan.message matches Some(m) && m.operation == old(queue)@[0]
            && m.surface == surface_of(m.operation) && m.data@ == seq![payload_of(m.operation)]
            && plan.restart == (m.operation == BluetoothOperation::ApplySuccess) && final(queue)@
            == old(queue)@.drop_first()),
{
    let stream_out = if output.len() > 0 {
        Some(take_pending(output))
    } else {
        None
    };
    match queue.poll() {
        Some(op) => {
            let restart = op.restarts();
            TickPlan { stream_out, message: Some(BLEOperationMessage::from_operation(op)), restart }
        },
        None => TickPlan { stream_out, message: None, restart: false },
    }
}

} // verus!
