//! The ordered native-call protocols of the transfer operations.
//!
//! Each operation is a fixed sequence of native calls. The session asks its
//! driver for one call at a time (a [`Request`]) and is told what the call
//! returned (a [`Reply`]). [`plan`] states, for the replies received so far,
//! what comes next: another call, or the operation's outcome.
use vstd::prelude::*;

use crate::error::{CharlsResult, Error};
use crate::frame::FrameInfo;

verus! {

/// A native call that the session asks its driver to make.
///
/// Handles are passed as addresses; zero stands for a null handle.
#[derive(Debug, Copy, Clone, PartialEq, Eq, Structural)]
pub enum Call {
    /// Create a decoder handle; answer with [`Reply::Handle`].
    CreateDecoder,
    /// Bind the encoded source bytes to the decoder; answer with [`Reply::Status`].
    SetSourceBuffer { decoder: usize },
    /// Parse the stream header; answer with [`Reply::Status`].
    ReadHeader { decoder: usize },
    /// Read the frame metadata of the parsed header; answer with [`Reply::Frame`].
    ReadFrameInfo { decoder: usize },
    /// Compute the decoded size for a stride; answer with [`Reply::Size`].
    GetDestinationSize { decoder: usize, stride: u32 },
    /// Decode into the request's buffer; answer with [`Reply::Buffer`], handing the buffer back.
    DecodeToBuffer { decoder: usize, stride: u32 },
    /// Create an encoder handle; answer with [`Reply::Handle`].
    CreateEncoder,
    /// Configure the frame to encode; answer with [`Reply::Status`].
    SetFrameInfo { encoder: usize, frame_info: FrameInfo },
    /// Estimate an upper bound of the encoded size; answer with [`Reply::Size`].
    GetEstimatedDestinationSize { encoder: usize },
    /// Bind the request's buffer as the encoder's destination and keep it until the
    /// encode call; answer with [`Reply::Status`].
    SetDestinationBuffer { encoder: usize },
    /// Set the near-lossless parameter; answer with [`Reply::Status`].
    SetNearLossless { encoder: usize, near: i32 },
    /// Encode the request's buffer (a staging copy of the pixels) into the bound
    /// destination; answer with [`Reply::Buffer`], handing the destination back.
    EncodeFromBuffer { encoder: usize },
    /// Query how many bytes the encoder wrote; answer with [`Reply::Size`].
    GetBytesWritten { encoder: usize },
    /// The operation has ended; its outcome can be taken from the session.
    Finished,
}

/// A native call together with the buffer it works on (empty where it takes none).
pub struct Request {
    pub call: Call,
    pub buffer: Vec<u8>,
}

/// What a native call returned.
pub enum Reply {
    /// A created handle's address, zero when creation failed.
    Handle { handle: usize },
    /// A status code: zero for success.
    Status { code: i32 },
    /// A status code and a size in bytes.
    Size { code: i32, size: usize },
    /// A status code and frame metadata.
    Frame { code: i32, frame_info: FrameInfo },
    /// A status code and the buffer the call wrote into.
    Buffer { code: i32, buffer: Vec<u8> },
}

/// A transfer operation of a session.
#[derive(Debug, Copy, Clone, PartialEq, Eq, Structural)]
pub enum Operation {
    /// Decode a stream; stride zero asks for the natural stride.
    Decode { stride: u32 },
    /// Read a stream's frame metadata only.
    ReadFrameInfo,
    /// Encode a frame with a near-lossless parameter.
    Encode { frame_info: FrameInfo, near: i32 },
}

/// What a successful operation yields.
pub enum Outcome {
    Bytes(Seq<u8>),
    Frame(FrameInfo),
}

/// What comes next in an operation.
pub enum Plan {
    /// Make a native call on a buffer with these bytes.
    Ask(Call, Seq<u8>),
    /// The operation has ended.
    Finish(CharlsResult<Outcome>),
}

impl Reply {
    /// The status code of this reply (zero where it carries none).
    pub fn code(&self) -> (c: i32)
        ensures
            c == code_of(*self),
    {
        match self {
            Reply::Handle { .. } => 0,
            Reply::Status { code } => *code,
            Reply::Size { code, .. } => *code,
            Reply::Frame { code, .. } => *code,
            Reply::Buffer { code, .. } => *code,
        }
    }

    /// The handle or size of this reply (zero where it carries none).
    pub fn value(&self) -> (v: usize)
        ensures
            v == value_of(*self),
    {
        match self {
            Reply::Handle { handle } => *handle,
            Reply::Size { size, .. } => *size,
            _ => 0,
        }
    }

    /// The frame metadata of this reply (all zero where it carries none).
    pub fn frame_info(&self) -> (f: FrameInfo)
        ensures
            f == frame_of(*self),
    {
        match self {
            Reply::Frame { frame_info, .. } => *frame_info,
            _ => FrameInfo { width: 0, height: 0, bits_per_sample: 0, component_count: 0 },
        }
    }

    /// The bytes of this reply (empty where it carries none).
    pub fn into_bytes(self) -> (b: Vec<u8>)
        ensures
            b@ == bytes_of(self),
    {
        match self {
            Reply::Buffer { buffer, .. } => buffer,
            _ => Vec::new(),
        }
    }
}

/// The status code of a reply (zero where the reply carries none).
pub open spec fn code_of(r: Reply) -> i32 {
    match r {
        Reply::Handle { .. } => 0,
        Reply::Status { code } => code,
        Reply::Size { code, .. } => code,
        Reply::Frame { code, .. } => code,
        Reply::Buffer { code, .. } => code,
    }
}

/// The handle or size of a reply (zero where the reply carries none).
pub open spec fn value_of(r: Reply) -> usize {
    match r {
        Reply::Handle { handle } => handle,
        Reply::Size { size, .. } => size,
        _ => 0,
    }
}

/// The frame metadata of a reply (all zero where the reply carries none).
pub open spec fn frame_of(r: Reply) -> FrameInfo {
    match r {
        Reply::Frame { frame_info, .. } => frame_info,
        _ => FrameInfo { width: 0, height: 0, bits_per_sample: 0, component_count: 0 },
    }
}

/// The bytes of a reply (empty where the reply carries none).
pub open spec fn bytes_of(r: Reply) -> Seq<u8> {
    match r {
        Reply::Buffer { buffer, .. } => buffer@,
        _ => Seq::empty(),
    }
}

/// `n` zero bytes.
pub open spec fn zeros(n: nat) -> Seq<u8> {
    Seq::new(n, |i: int| 0u8)
}

/// The first `n` bytes of `s`, or all of `s` where it is shorter.
pub open spec fn truncated(s: Seq<u8>, n: nat) -> Seq<u8> {
    if n < s.len() {
        s.take(n as int)
    } else {
        s
    }
}

/// The failure that a nonzero status code at step `i` of an operation stands for.
pub open spec fn failed_at(log: Seq<Reply>, i: int) -> Plan {
    Plan::Finish(Err(Error::JpegLsError { code: code_of(log[i]) }))
}

/// The protocol of the decoder operations: acquire a handle, bind the source,
/// parse the header, then either read the frame metadata, or compute the
/// destination size and decode into a zeroed buffer of exactly that size.
/// The first failing step ends the operation.
pub open spec fn decoder_plan(operation: Operation, log: Seq<Reply>) -> Plan {
    let h = value_of(log[0]);
    if log.len() == 0 {
        Plan::Ask(Call::CreateDecoder, Seq::empty())
    } else if h == 0 {
        Plan::Finish(Err(Error::InitCodec))
    } else if log.len() == 1 {
        Plan::Ask(Call::SetSourceBuffer { decoder: h }, Seq::empty())
    } else if code_of(log[1]) != 0 {
        failed_at(log, 1)
    } else if log.len() == 2 {
        Plan::Ask(Call::ReadHeader { decoder: h }, Seq::empty())
    } else if code_of(log[2]) != 0 {
        failed_at(log, 2)
    } else {
        match operation {
            Operation::Decode { stride } => {
                if log.len() == 3 {
                    Plan::Ask(Call::GetDestinationSize { decoder: h, stride }, Seq::empty())
                } else if code_of(log[3]) != 0 {
                    Plan::Finish(Err(Error::ComputeSize))
                } else if log.len() == 4 {
                    Plan::Ask(
                        Call::DecodeToBuffer { decoder: h, stride },
                        zeros(value_of(log[3]) as nat),
                    )
                } else if code_of(log[4]) != 0 {
                    failed_at(log, 4)
                } else {
                    Plan::Finish(Ok(Outcome::Bytes(bytes_of(log[4]))))
                }
            },
            _ => {
                if log.len() == 3 {
                    Plan::Ask(Call::ReadFrameInfo { decoder: h }, Seq::empty())
                } else if code_of(log[3]) != 0 {
                    failed_at(log, 3)
                } else {
                    Plan::Finish(Ok(Outcome::Frame(frame_of(log[3]))))
                }
            },
        }
    }
}

/// The protocol of the encode operation: acquire a handle, set the frame,
/// estimate the destination size, bind a zeroed destination of that size, set
/// the near-lossless parameter, encode a staging copy of the pixels, query the
/// bytes written and cut the destination to them. The first failing step ends
/// the operation.
pub open spec fn encoder_plan(frame_info: FrameInfo, near: i32, pixels: Seq<u8>, log: Seq<Reply>) -> Plan {
    let h = value_of(log[0]);
    if log.len() == 0 {
        Plan::Ask(Call::CreateEncoder, Seq::empty())
    } else if h == 0 {
        Plan::Finish(Err(Error::InitCodec))
    } else if log.len() == 1 {
        Plan::Ask(Call::SetFrameInfo { encoder: h, frame_info }, Seq::empty())
    } else if code_of(log[1]) != 0 {
        failed_at(log, 1)
    } else if log.len() == 2 {
        Plan::Ask(Call::GetEstimatedDestinationSize { encoder: h }, Seq::empty())
    } else if code_of(log[2]) != 0 {
        failed_at(log, 2)
    } else if log.len() == 3 {
        Plan::Ask(Call::SetDestinationBuffer { encoder: h }, zeros(value_of(log[2]) as nat))
    } else if code_of(log[3]) != 0 {
        failed_at(log, 3)
    } else if log.len() == 4 {
        Plan::Ask(Call::SetNearLossless { encoder: h, near }, Seq::empty())
    } else if code_of(log[4]) != 0 {
        failed_at(log, 4)
    } else if log.len() == 5 {
        Plan::Ask(Call::EncodeFromBuffer { encoder: h }, pixels)
    } else if code_of(log[5]) != 0 {
        failed_at(log, 5)
    } else if log.len() == 6 {
        Plan::Ask(Call::GetBytesWritten { encoder: h }, Seq::empty())
    } else if code_of(log[6]) != 0 {
        failed_at(log, 6)
    } else {
        Plan::Finish(Ok(Outcome::Bytes(truncated(bytes_of(log[5]), value_of(log[6]) as nat))))
    }
}

/// What comes next in `operation` after the replies in `log`; `pixels` are the
/// source pixels of an encode.
pub open spec fn plan(operation: Operation, pixels: Seq<u8>, log: Seq<Reply>) -> Plan {
    match operation {
        Operation::Encode { frame_info, near } => encoder_plan(frame_info, near, pixels, log),
        _ => decoder_plan(operation, log),
    }
}

/// Whether an operation works on the encoder handle.
pub open spec fn uses_encoder(operation: Operation) -> bool {
    operation is Encode
}

} // verus!
