use vstd::prelude::*;
use crate::bytes::append_bytes;
use crate::digest::{keccak, keccak_of};

verus! {

/// The response an operator signs for one task.
#[derive(Clone, Copy)]
pub struct TaskResponse {
    pub reference_task_index: u32,
    pub result_hash: [u8; 32],
}

/// A task response with the operator's BLS signature over its digest and the
/// operator's id.
pub struct SignedTaskResponse {
    pub task_response: TaskResponse,
    pub signature: Vec<u8>,
    pub operator_id: [u8; 32],
}

/// The parameters of a task-creation event, as the event carries them.
pub struct NewTaskCreated {
    pub task_index: u32,
    pub task_created_block: u32,
    pub quorum_numbers: Vec<u8>,
    pub quorum_threshold_percentage: u32,
}

/// The four bytes of `n`, most significant first.
pub open spec fn be_u32(n: u32) -> Seq<u8> {
    seq![
        (n / 0x100_0000) as u8,
        ((n / 0x1_0000) % 0x100) as u8,
        ((n / 0x100) % 0x100) as u8,
        (n % 0x100) as u8,
    ]
}

/// The fixed-width encoding of a task response: the task index as four
/// big-endian bytes, then the 32 bytes of the result hash.
pub open spec fn encoding_of(r: TaskResponse) -> Seq<u8> {
    be_u32(r.reference_task_index) + r.result_hash@
}

/// The digest that an operator signs for a task response.
pub open spec fn digest_of(r: TaskResponse) -> Seq<u8> {
    keccak_of(encoding_of(r))
}

/// Encodes a task response into its 36-byte fixed-width form.
pub fn encode_task_response(r: &TaskResponse) -> (out: Vec<u8>)
    ensures
        out@ == encoding_of(*r),
        out@.len() == 36,
{
    let n = r.reference_task_index;
    let mut out: Vec<u8> = Vec::new();
    out.push((n / 0x100_0000) as u8);
    out.push(((n / 0x1_0000) % 0x100) as u8);
    out.push(((n / 0x100) % 0x100) as u8);
    out.push((n % 0x100) as u8);
    append_bytes(&mut out, r.result_hash.as_slice());
    assert(out@ =~= encoding_of(*r));
    out
}

/// The message hash to sign for a task response: the Keccak-256 digest of
/// its fixed-width encoding.
pub fn task_response_digest(r: &TaskResponse) -> (d: [u8; 32])
    ensures
        d@ == digest_of(*r),
{
    let enc = encode_task_response(r);
    keccak(enc.as_slice())
}

/// Turns a task-creation event into the job's parameters
/// `(task_created_block, quorum_numbers, quorum_threshold_percentage, task_index)`;
/// `None` where the threshold percentage does not fit a byte.
pub fn convert_event_to_inputs(event: NewTaskCreated) -> (r: Option<(u32, Vec<u8>, u8, u32)>)
    ensures
        event.quorum_threshold_percentage > 255 ==> r is None,
        event.quorum_threshold_percentage <= 255 ==> r == Some((
            event.task_created_block,
            event.quorum_numbers,
            event.quorum_threshold_percentage as u8,
            event.task_index,
        )),
{
    if event.quorum_threshold_percentage > 255 {
        None
    } else {
        Some((
            event.task_created_block,
            event.quorum_numbers,
            event.quorum_threshold_percentage as u8,
            event.task_index,
        ))
    }
}

} // verus!
