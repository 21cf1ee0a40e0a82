//! General properties of the transfer protocols and of the session.
use vstd::prelude::*;

use crate::error::Error;
use crate::protocol::{bytes_of, code_of, plan, value_of, zeros, Operation, Outcome, Plan, Reply};

verus! {

/// A stream whose header cannot be parsed ends a decode with a codec error
/// that carries the engine's status code, whatever else comes after.
pub proof fn corrupt_stream_fails_decode(stride: u32, log: Seq<Reply>)
    requires
        log.len() >= 3,
        value_of(log[0]) != 0,
        code_of(log[1]) == 0,
        code_of(log[2]) != 0,
    ensures
        plan(Operation::Decode { stride }, Seq::empty(), log) == Plan::Finish(
            Err::<Outcome, Error>(Error::JpegLsError { code: code_of(log[2]) }),
        ),
{
}

/// A decode succeeds only when a handle was created and every native call
/// returned success; it then yields exactly the bytes that the transfer call
/// wrote. A failure is never turned into an empty result.
pub proof fn decode_success_needs_every_step(stride: u32, log: Seq<Reply>)
    requires
        plan(Operation::Decode { stride }, Seq::empty(), log) is Finish,
        plan(Operation::Decode { stride }, Seq::empty(), log)->Finish_0 is Ok,
    ensures
        log.len() >= 5,
        value_of(log[0]) != 0,
        forall|i: int| 1 <= i < 5 ==> code_of(#[trigger] log[i]) == 0,
        plan(Operation::Decode { stride }, Seq::empty(), log) == Plan::Finish(
            Ok::<Outcome, Error>(Outcome::Bytes(bytes_of(log[4]))),
        ),
{
}

/// The destination buffer of a decode is zeroed and exactly as long as the
/// size that the engine computed from the header for the requested stride.
pub proof fn decode_destination_is_computed_size(stride: u32, log: Seq<Reply>)
    requires
        plan(Operation::Decode { stride }, Seq::empty(), log) matches Plan::Ask(c, _)
            && c is DecodeToBuffer,
    ensures
        log.len() == 4,
        code_of(log[3]) == 0,
        plan(Operation::Decode { stride }, Seq::empty(), log)->Ask_1 == zeros(value_of(log[3]) as nat),
{
}

/// Reading the frame metadata never asks for a destination size or a pixel
/// transfer, and hands the engine no buffer.
pub proof fn frame_info_read_allocates_nothing(pixels: Seq<u8>, log: Seq<Reply>)
    ensures
        plan(Operation::ReadFrameInfo, pixels, log) matches Plan::Ask(c, b) ==> {
            &&& !(c is GetDestinationSize)
            &&& !(c is DecodeToBuffer)
            &&& b.len() == 0
        },
{
}

/// The frame metadata read and the decode make the same calls, in the same
/// order, up to and including the header parse, and fail alike there.
pub proof fn frame_info_read_shares_decode_prefix(stride: u32, pixels: Seq<u8>, log: Seq<Reply>)
    requires
        log.len() < 3 || value_of(log[0]) == 0 || code_of(log[1]) != 0 || code_of(log[2]) != 0,
    ensures
        plan(Operation::ReadFrameInfo, pixels, log) == plan(
            Operation::Decode { stride },
            Seq::empty(),
            log,
        ),
{
}

/// An encode yields the destination cut to the bytes written, never longer
/// than the estimated size it was bound with when the engine wrote within it.
pub proof fn encode_output_is_written_prefix(
    frame_info: crate::frame::FrameInfo,
    near: i32,
    pixels: Seq<u8>,
    log: Seq<Reply>,
)
    requires
        plan(Operation::Encode { frame_info, near }, pixels, log) matches Plan::Finish(
            Ok(Outcome::Bytes(out)),
        ),
    ensures
        log.len() >= 7,
        value_of(log[0]) != 0,
        forall|i: int| 1 <= i < 7 ==> code_of(#[trigger] log[i]) == 0,
        ({
            let out = plan(Operation::Encode { frame_info, near }, pixels, log)->Finish_0->Ok_0->Bytes_0;
            &&& out.len() == if value_of(log[6]) < bytes_of(log[5]).len() {
                value_of(log[6]) as int
            } else {
                bytes_of(log[5]).len() as int
            }
            &&& out =~= bytes_of(log[5]).take(out.len() as int)
        }),
{
}

/// The encode hands the engine a staging copy equal to the caller's pixels,
/// and binds a zeroed destination of exactly the estimated size.
pub proof fn encode_buffers(frame_info: crate::frame::FrameInfo, near: i32, pixels: Seq<u8>, log: Seq<Reply>)
    ensures
        plan(Operation::Encode { frame_info, near }, pixels, log) matches Plan::Ask(c, b) ==> {
            &&& c is EncodeFromBuffer ==> b == pixels
            &&& c is SetDestinationBuffer ==> b == zeros(value_of(log[2]) as nat)
            &&& !(c is EncodeFromBuffer || c is SetDestinationBuffer) ==> b.len() == 0
        },
{
}

} // verus!
