//! The codec session: handle lifetimes and the running transfer operation.
use vstd::prelude::*;

use crate::error::{translate_error, CharlsResult, Error};
use crate::frame::FrameInfo;
use crate::protocol::{
    bytes_of, plan, truncated, uses_encoder, value_of, zeros, Call, Operation, Outcome,
    Plan, Reply, Request,
};

verus! {

/// The lifecycle of one native handle of a session.
#[derive(Debug, Copy, Clone, PartialEq, Eq, Structural)]
pub enum HandleState {
    /// Not created yet.
    Uninitialized,
    /// Created, with its address.
    Active { handle: usize },
    /// The session has ended.
    Destroyed,
}

/// The handle that a slot holds, if it is active.
pub open spec fn active_handle(s: HandleState) -> Option<usize> {
    match s {
        HandleState::Active { handle } => Some(handle),
        _ => None,
    }
}

/// The replies that an operation starts from: the handle already held by its
/// slot stands as the answer to the creation call, which is then not made.
pub open spec fn initial_log(slot: HandleState) -> Seq<Reply> {
    match slot {
        HandleState::Active { handle } => seq![Reply::Handle { handle }],
        _ => Seq::empty(),
    }
}

/// The native handles that a released session hands back for destruction.
pub struct Teardown {
    pub decoder: Option<usize>,
    pub encoder: Option<usize>,
}

/// How far the running operation has come.
enum Progress {
    Running,
    Failed(Error),
    Succeeded,
}

/// The state of one transfer operation.
struct Transfer {
    operation: Operation,
    /// Staging copy of the pixels to encode (empty for the decoder operations).
    pixels: Vec<u8>,
    /// Number of replies received so far.
    answered: usize,
    handle: usize,
    /// The computed or estimated destination size, once known.
    size: usize,
    /// Decoded pixels, or the encoder's destination once handed back.
    buffer: Vec<u8>,
    frame_info: FrameInfo,
    progress: Progress,
    log: Ghost<Seq<Reply>>,
}

impl Transfer {
    /// The next call, as the operation's position and the values received so far decide it.
    spec fn call(&self) -> Call {
        let h = self.handle;
        match self.operation {
            Operation::Encode { frame_info, near } => {
                if self.answered == 0 {
                    Call::CreateEncoder
                } else if self.answered == 1 {
                    Call::SetFrameInfo { encoder: h, frame_info }
                } else if self.answered == 2 {
                    Call::GetEstimatedDestinationSize { encoder: h }
                } else if self.answered == 3 {
                    Call::SetDestinationBuffer { encoder: h }
                } else if self.answered == 4 {
                    Call::SetNearLossless { encoder: h, near }
                } else if self.answered == 5 {
                    Call::EncodeFromBuffer { encoder: h }
                } else {
                    Call::GetBytesWritten { encoder: h }
                }
            },
            Operation::Decode { stride } => {
                if self.answered == 0 {
                    Call::CreateDecoder
                } else if self.answered == 1 {
                    Call::SetSourceBuffer { decoder: h }
                } else if self.answered == 2 {
                    Call::ReadHeader { decoder: h }
                } else if self.answered == 3 {
                    Call::GetDestinationSize { decoder: h, stride }
                } else {
                    Call::DecodeToBuffer { decoder: h, stride }
                }
            },
            Operation::ReadFrameInfo => {
                if self.answered == 0 {
                    Call::CreateDecoder
                } else if self.answered == 1 {
                    Call::SetSourceBuffer { decoder: h }
                } else if self.answered == 2 {
                    Call::ReadHeader { decoder: h }
                } else {
                    Call::ReadFrameInfo { decoder: h }
                }
            },
        }
    }

    /// The buffer that goes with the next call.
    spec fn payload(&self) -> Seq<u8> {
        match self.call() {
            Call::DecodeToBuffer { .. } => zeros(self.size as nat),
            Call::SetDestinationBuffer { .. } => zeros(self.size as nat),
            Call::EncodeFromBuffer { .. } => self.pixels@,
            _ => Seq::empty(),
        }
    }

    /// What comes next, as the exec state holds it.
    spec fn current(&self) -> Plan {
        match self.progress {
            Progress::Failed(e) => Plan::Finish(Err(e)),
            Progress::Succeeded => Plan::Finish(
                Ok(
                    match self.operation {
                        Operation::ReadFrameInfo => Outcome::Frame(self.frame_info),
                        _ => Outcome::Bytes(self.buffer@),
                    },
                ),
            ),
            Progress::Running => Plan::Ask(self.call(), self.payload()),
        }
    }

    /// Number of replies after which the operation has ended.
    spec fn steps(&self) -> nat {
        match self.operation {
            Operation::Encode { .. } => 7,
            Operation::Decode { .. } => 5,
            Operation::ReadFrameInfo => 4,
        }
    }

    spec fn wf(&self) -> bool {
        let log = self.log@;
        &&& self.answered == log.len()
        &&& (self.progress is Running ==> self.answered < self.steps())
        &&& (self.answered >= 1 ==> self.handle == value_of(log[0]))
        &&& (self.operation is Decode && self.answered >= 4 ==> self.size == value_of(log[3]))
        &&& (self.operation is Encode && self.answered >= 3 ==> self.size == value_of(log[2]))
        &&& (self.operation is Encode && self.progress is Running && self.answered >= 6
            ==> self.buffer@ == bytes_of(log[5]))
        &&& self.current() == plan(self.operation, self.pixels@, log)
    }

    /// Starts an operation whose handle slot is `slot`.
    fn start(operation: Operation, pixels: Vec<u8>, slot: HandleState) -> (t: Transfer)
        requires
            slot is Active ==> active_handle(slot).unwrap() != 0,
            !(operation is Encode) ==> pixels@.len() == 0,
        ensures
            t.wf(),
            t.operation == operation,
            t.pixels@ == pixels@,
            t.log@ == initial_log(slot),
    {
        let (answered, handle) = match slot {
            HandleState::Active { handle } => (1usize, handle),
            _ => (0usize, 0usize),
        };
        let t = Transfer {
            operation,
            pixels,
            answered,
            handle,
            size: 0,
            buffer: Vec::new(),
            frame_info: FrameInfo { width: 0, height: 0, bits_per_sample: 0, component_count: 0 },
            progress: Progress::Running,
            log: Ghost(initial_log(slot)),
        };
        assert(t.current() == plan(operation, pixels@, initial_log(slot)));
        t
    }

    /// The next request.
    fn request(&self) -> (r: Request)
        requires
            self.wf(),
        ensures
            plan(self.operation, self.pixels@, self.log@) matches Plan::Ask(c, b) ==> r.call == c
                && r.buffer@ == b,
            plan(self.operation, self.pixels@, self.log@) is Finish ==> r.call == Call::Finished
                && r.buffer@.len() == 0,
    {
        match self.progress {
            Progress::Running => {},
            _ => return Request { call: Call::Finished, buffer: Vec::new() },
        }
        let h = self.handle;
        let a = self.answered;
        let call = match self.operation {
            Operation::Encode { frame_info, near } => {
                if a == 0 {
                    Call::CreateEncoder
                } else if a == 1 {
                    Call::SetFrameInfo { encoder: h, frame_info }
                } else if a == 2 {
                    Call::GetEstimatedDestinationSize { encoder: h }
                } else if a == 3 {
                    Call::SetDestinationBuffer { encoder: h }
                } else if a == 4 {
                    Call::SetNearLossless { encoder: h, near }
                } else if a == 5 {
                    Call::EncodeFromBuffer { encoder: h }
                } else {
                    Call::GetBytesWritten { encoder: h }
                }
            },
            Operation::Decode { stride } => {
                if a == 0 {
                    Call::CreateDecoder
                } else if a == 1 {
                    Call::SetSourceBuffer { decoder: h }
                } else if a == 2 {
                    Call::ReadHeader { decoder: h }
                } else if a == 3 {
                    Call::GetDestinationSize { decoder: h, stride }
                } else {
                    Call::DecodeToBuffer { decoder: h, stride }
                }
            },
            Operation::ReadFrameInfo => {
                if a == 0 {
                    Call::CreateDecoder
                } else if a == 1 {
                    Call::SetSourceBuffer { decoder: h }
                } else if a == 2 {
                    Call::ReadHeader { decoder: h }
                } else {
                    Call::ReadFrameInfo { decoder: h }
                }
            },
        };
        let buffer = match call {
            Call::DecodeToBuffer { .. } => zeroed(self.size),
            Call::SetDestinationBuffer { .. } => zeroed(self.size),
            Call::EncodeFromBuffer { .. } => copy_bytes(self.pixels.as_slice()),
            _ => Vec::new(),
        };
        Request { call, buffer }
    }

    /// Takes the reply to the pending call; a finished operation ignores it.
    fn respond(&mut self, reply: Reply)
        requires
            old(self).wf(),
        ensures
            final(self).wf(),
            final(self).operation == old(self).operation,
            final(self).pixels@ == old(self).pixels@,
            old(self).progress is Running ==> final(self).log@ == old(self).log@.push(reply),
            !(old(self).progress is Running) ==> final(self).log@ == old(self).log@,
    {
        match self.progress {
            Progress::Running => {},
            _ => return,
        }
        let ghost log = self.log@.push(reply);
        let a = self.answered;
        let code = reply.code();
        let value = reply.value();
        if a == 0 {
            self.handle = value;
            if value == 0 {
                self.progress = Progress::Failed(Error::InitCodec);
            }
        } else {
            match self.operation {
                Operation::Encode { .. } => {
                    if a == 2 {
                        self.size = value;
                    }
                    match translate_error(code) {
                        Err(e) => self.progress = Progress::Failed(e),
                        Ok(()) => if a == 5 {
                            self.buffer = reply.into_bytes();
                        } else if a == 6 {
                            let ghost before = self.buffer@;
                            self.buffer.truncate(value);
                            assert(self.buffer@ =~= truncated(before, value as nat));
                            self.progress = Progress::Succeeded;
                        },
                    }
                },
                Operation::Decode { .. } => {
                    if a == 3 {
                        self.size = value;
                    }
                    if code != 0 && a == 3 {
                        self.progress = Progress::Failed(Error::ComputeSize);
                    } else if let Err(e) = translate_error(code) {
                        self.progress = Progress::Failed(e);
                    } else if a == 4 {
                        self.buffer = reply.into_bytes();
                        self.progress = Progress::Succeeded;
                    }
                },
                Operation::ReadFrameInfo => {
                    match translate_error(code) {
                        Err(e) => self.progress = Progress::Failed(e),
                        Ok(()) => if a == 3 {
                            self.frame_info = reply.frame_info();
                            self.progress = Progress::Succeeded;
                        },
                    }
                },
            }
        }
        self.answered = a + 1;
        self.log = Ghost(log);
        assert(forall|i: int| 0 <= i < a ==> log[i] == old(self).log@[i]);
    }
}

/// A codec session: at most one encoder and one decoder handle of the native
/// engine, each created on first use, and the transfer operation in progress.
///
/// An operation is started by [`CharLS::decode_with_stride`], [`CharLS::decode`],
/// [`CharLS::get_frame_info`] or [`CharLS::encode`]. A driver then makes each call
/// that [`CharLS::request`] names and hands what it returned to
/// [`CharLS::respond`], until the call is [`Call::Finished`]; the outcome is
/// taken with [`CharLS::take_bytes`] or [`CharLS::take_frame_info`]. When the
/// session ends, [`CharLS::release`] names the handles to destroy.
pub struct CharLS {
    encoder: HandleState,
    decoder: HandleState,
    transfer: Option<Transfer>,
}

impl CharLS {
    /// The lifecycle of the encoder handle.
    pub closed spec fn encoder_state(&self) -> HandleState {
        self.encoder
    }

    /// The lifecycle of the decoder handle.
    pub closed spec fn decoder_state(&self) -> HandleState {
        self.decoder
    }

    /// The operation in progress or finished, if any.
    pub closed spec fn operation(&self) -> Option<Operation> {
        match self.transfer {
            Some(t) => Some(t.operation),
            None => None,
        }
    }

    /// The pixels of the encode in progress (empty for the other operations).
    pub closed spec fn pixels(&self) -> Seq<u8> {
        match self.transfer {
            Some(t) => t.pixels@,
            None => Seq::empty(),
        }
    }

    /// The replies the operation has taken so far.
    pub closed spec fn log(&self) -> Seq<Reply> {
        match self.transfer {
            Some(t) => t.log@,
            None => Seq::empty(),
        }
    }

    /// What comes next in the operation.
    pub open spec fn next(&self) -> Plan {
        match self.operation() {
            Some(op) => plan(op, self.pixels(), self.log()),
            None => Plan::Ask(Call::Finished, Seq::empty()),
        }
    }

    /// The slot of the handle that an operation works on.
    pub open spec fn slot_for(&self, operation: Operation) -> HandleState {
        if uses_encoder(operation) {
            self.encoder_state()
        } else {
            self.decoder_state()
        }
    }

    /// Whether the session has ended.
    pub open spec fn is_released(&self) -> bool {
        self.decoder_state() is Destroyed
    }

    pub closed spec fn wf(&self) -> bool {
        &&& (self.decoder is Active ==> active_handle(self.decoder).unwrap() != 0)
        &&& (self.encoder is Active ==> active_handle(self.encoder).unwrap() != 0)
        &&& (self.decoder is Destroyed <==> self.encoder is Destroyed)
        &&& (self.decoder is Destroyed ==> self.transfer is None)
        &&& (self.transfer matches Some(t) ==> {
            let slot = if uses_encoder(t.operation) {
                self.encoder
            } else {
                self.decoder
            };
            &&& t.wf()
            &&& (t.answered == 0 ==> slot is Uninitialized)
            &&& (t.answered >= 1 && t.handle != 0 ==> slot == HandleState::Active { handle: t.handle })
        })
    }

    /// A session that holds no handle and runs no operation.
    pub fn new() -> (s: CharLS)
        ensures
            s.wf(),
            s.encoder_state() is Uninitialized,
            s.decoder_state() is Uninitialized,
            s.operation() is None,
    {
        CharLS { encoder: HandleState::Uninitialized, decoder: HandleState::Uninitialized, transfer: None }
    }

    /// Starts `operation` on its handle; `pixels` are the source of an encode.
    fn begin(&mut self, operation: Operation, pixels: Vec<u8>)
        requires
            old(self).wf(),
            !old(self).is_released(),
            !uses_encoder(operation) ==> pixels@.len() == 0,
        ensures
            final(self).wf(),
            final(self).encoder_state() == old(self).encoder_state(),
            final(self).decoder_state() == old(self).decoder_state(),
            final(self).operation() == Some(operation),
            final(self).pixels() == pixels@,
            final(self).log() == initial_log(old(self).slot_for(operation)),
    {
        let slot = if uses_encoder_exec(operation) {
            self.encoder
        } else {
            self.decoder
        };
        let t = Transfer::start(operation, pixels, slot);
        self.transfer = Some(t);
    }

    /// Starts decoding a stream into pixels laid out with `stride` bytes per
    /// line; zero asks for the natural stride.
    pub fn decode_with_stride(&mut self, stride: u32)
        requires
            old(self).wf(),
            !old(self).is_released(),
        ensures
            final(self).wf(),
            final(self).encoder_state() == old(self).encoder_state(),
            final(self).decoder_state() == old(self).decoder_state(),
            final(self).operation() == Some(Operation::Decode { stride }),
            final(self).pixels() == Seq::<u8>::empty(),
            final(self).log() == initial_log(old(self).decoder_state()),
    {
        self.begin(Operation::Decode { stride }, Vec::new());
    }

    /// Starts decoding a stream with the natural stride.
    pub fn decode(&mut self)
        requires
            old(self).wf(),
            !old(self).is_released(),
        ensures
            final(self).wf(),
            final(self).encoder_state() == old(self).encoder_state(),
            final(self).decoder_state() == old(self).decoder_state(),
            final(self).operation() == Some(Operation::Decode { stride: 0 }),
            final(self).pixels() == Seq::<u8>::empty(),
            final(self).log() == initial_log(old(self).decoder_state()),
    {
        self.decode_with_stride(0)
    }

    /// Starts reading a stream's frame metadata, without decoding its pixels.
    pub fn get_frame_info(&mut self)
        requires
            old(self).wf(),
            !old(self).is_released(),
        ensures
            final(self).wf(),
            final(self).encoder_state() == old(self).encoder_state(),
            final(self).decoder_state() == old(self).decoder_state(),
            final(self).operation() == Some(Operation::ReadFrameInfo),
            final(self).pixels() == Seq::<u8>::empty(),
            final(self).log() == initial_log(old(self).decoder_state()),
    {
        self.begin(Operation::ReadFrameInfo, Vec::new());
    }

    /// Starts encoding the pixels `src` of a frame with the near-lossless
    /// parameter `near` (zero for lossless). The pixels are copied into a
    /// staging buffer that the encode call reads.
    pub fn encode(&mut self, frame_info: FrameInfo, near: i32, src: &[u8])
        requires
            old(self).wf(),
            !old(self).is_released(),
        ensures
            final(self).wf(),
            final(self).encoder_state() == old(self).encoder_state(),
            final(self).decoder_state() == old(self).decoder_state(),
            final(self).operation() == Some(Operation::Encode { frame_info, near }),
            final(self).pixels() == src@,
            final(self).log() == initial_log(old(self).encoder_state()),
    {
        let pixels = copy_bytes(src);
        self.begin(Operation::Encode { frame_info, near }, pixels);
    }

    /// The native call to make next, with its buffer; [`Call::Finished`] once
    /// the operation has ended or where none runs.
    pub fn request(&self) -> (r: Request)
        requires
            self.wf(),
        ensures
            self.next() matches Plan::Ask(c, b) ==> r.call == c && r.buffer@ == b,
            self.next() is Finish ==> r.call == Call::Finished && r.buffer@.len() == 0,
    {
        match &self.transfer {
            Some(t) => t.request(),
            None => Request { call: Call::Finished, buffer: Vec::new() },
        }
    }

    /// Whether an operation has ended and its outcome can be taken.
    pub fn is_finished(&self) -> (r: bool)
        requires
            self.wf(),
        ensures
            r == (self.operation() is Some && self.next() is Finish),
    {
        match &self.transfer {
            Some(t) => match t.progress {
                Progress::Running => false,
                _ => true,
            },
            None => false,
        }
    }

    /// Takes what the pending native call returned. The operation advances by
    /// one step; a created handle is kept in its slot, a null one leaves the
    /// slot uninitialized so that a later operation tries again. An ended
    /// operation, or none, ignores the reply.
    pub fn respond(&mut self, reply: Reply)
        requires
            old(self).wf(),
        ensures
            final(self).wf(),
            final(self).operation() == old(self).operation(),
            final(self).pixels() == old(self).pixels(),
            old(self).operation() is Some && old(self).next() is Ask
                ==> final(self).log() == old(self).log().push(reply),
            !(old(self).operation() is Some && old(self).next() is Ask)
                ==> final(self).log() == old(self).log(),
            old(self).encoder_state() is Active ==> final(self).encoder_state() == old(
                self,
            ).encoder_state(),
            old(self).decoder_state() is Active ==> final(self).decoder_state() == old(
                self,
            ).decoder_state(),
            ({
                let op = old(self).operation().unwrap();
                let adopted = old(self).operation() is Some && old(self).next() is Ask
                    && old(self).log().len() == 0 && value_of(reply) != 0;
                &&& adopted && uses_encoder(op) ==> final(self).encoder_state()
                    == HandleState::Active { handle: value_of(reply) }
                &&& adopted && !uses_encoder(op) ==> final(self).decoder_state()
                    == HandleState::Active { handle: value_of(reply) }
                &&& !(adopted && uses_encoder(op)) ==> final(self).encoder_state()
                    == old(self).encoder_state()
                &&& !(adopted && !uses_encoder(op)) ==> final(self).decoder_state()
                    == old(self).decoder_state()
            }),
    {
        let mut transfer = self.transfer.take();
        match &mut transfer {
            Some(t) => {
                let running = match t.progress {
                    Progress::Running => true,
                    _ => false,
                };
                if running && t.answered == 0 {
                    let handle = reply.value();
                    if handle != 0 {
                        if uses_encoder_exec(t.operation) {
                            self.encoder = HandleState::Active { handle };
                        } else {
                            self.decoder = HandleState::Active { handle };
                        }
                    }
                }
                t.respond(reply);
            },
            None => {},
        }
        self.transfer = transfer;
    }

    /// Takes the outcome of an ended decode or encode: the decoded pixels, or
    /// the encoded stream, or the error that ended it. The session is then idle.
    pub fn take_bytes(&mut self) -> (r: CharlsResult<Vec<u8>>)
        requires
            old(self).wf(),
            old(self).operation() is Some,
            old(self).next() is Finish,
            !(old(self).operation() == Some(Operation::ReadFrameInfo)),
        ensures
            final(self).wf(),
            final(self).operation() is None,
            final(self).encoder_state() == old(self).encoder_state(),
            final(self).decoder_state() == old(self).decoder_state(),
            old(self).next() matches Plan::Finish(Ok(Outcome::Bytes(b))) ==> r is Ok
                && r.unwrap()@ == b,
            old(self).next() matches Plan::Finish(Err(e)) ==> r == Err::<Vec<u8>, Error>(e),
    {
        let transfer = self.transfer.take();
        match transfer {
            Some(t) => match t.progress {
                Progress::Failed(e) => Err(e),
                _ => Ok(t.buffer),
            },
            None => Ok(Vec::new()),
        }
    }

    /// Takes the outcome of an ended frame-metadata read. The session is then idle.
    pub fn take_frame_info(&mut self) -> (r: CharlsResult<FrameInfo>)
        requires
            old(self).wf(),
            old(self).operation() == Some(Operation::ReadFrameInfo),
            old(self).next() is Finish,
        ensures
            final(self).wf(),
            final(self).operation() is None,
            final(self).encoder_state() == old(self).encoder_state(),
            final(self).decoder_state() == old(self).decoder_state(),
            old(self).next() matches Plan::Finish(Ok(Outcome::Frame(f))) ==> r == Ok::<FrameInfo, Error>(f),
            old(self).next() matches Plan::Finish(Err(e)) ==> r == Err::<FrameInfo, Error>(e),
    {
        let transfer = self.transfer.take();
        match transfer {
            Some(t) => match t.progress {
                Progress::Failed(e) => Err(e),
                _ => Ok(t.frame_info),
            },
            None => Err(Error::InitCodec),
        }
    }

    /// Ends the session: names each created handle, once, for destruction, and
    /// leaves both slots destroyed. Handles never created are not named, nor
    /// anything by a session released before.
    pub fn release(&mut self) -> (t: Teardown)
        requires
            old(self).wf(),
        ensures
            final(self).wf(),
            final(self).is_released(),
            final(self).encoder_state() is Destroyed,
            final(self).operation() is None,
            t.decoder == active_handle(old(self).decoder_state()),
            t.encoder == active_handle(old(self).encoder_state()),
    {
        let decoder = match self.decoder {
            HandleState::Active { handle } => Some(handle),
            _ => None,
        };
        let encoder = match self.encoder {
            HandleState::Active { handle } => Some(handle),
            _ => None,
        };
        self.decoder = HandleState::Destroyed;
        self.encoder = HandleState::Destroyed;
        self.transfer = None;
        Teardown { decoder, encoder }
    }
}

impl Default for CharLS {
    fn default() -> (s: CharLS)
        ensures
            s.wf(),
            s.encoder_state() is Uninitialized,
            s.decoder_state() is Uninitialized,
            s.operation() is None,
    {
        CharLS::new()
    }
}

/// A released session holds no handle: releasing it again names nothing
/// for destruction, so each created handle is destroyed exactly once.
pub proof fn released_session_holds_no_handle(s: CharLS)
    requires
        s.wf(),
        s.is_released(),
    ensures
        active_handle(s.decoder_state()) is None,
        active_handle(s.encoder_state()) is None,
{
}

/// Whether an operation works on the encoder handle.
fn uses_encoder_exec(operation: Operation) -> (r: bool)
    ensures
        r == uses_encoder(operation),
{
    match operation {
        Operation::Encode { .. } => true,
        _ => false,
    }
}

/// A buffer of `n` zero bytes.
fn zeroed(n: usize) -> (v: Vec<u8>)
    ensures
        v@ == zeros(n as nat),
{
    let mut v: Vec<u8> = Vec::with_capacity(n);
    let mut i: usize = 0;
    while i < n
        invariant
            i <= n,
            v@ == zeros(i as nat),
        decreases n - i,
    {
        v.push(0u8);
        i = i + 1;
        assert(v@ =~= zeros(i as nat));
    }
    v
}

/// A copy of `s`.
fn copy_bytes(s: &[u8]) -> (v: Vec<u8>)
    ensures
        v@ == s@,
{
    let mut v: Vec<u8> = Vec::with_capacity(s.len());
    let mut i: usize = 0;
    while i < s.len()
        invariant
            i <= s@.len(),
            v@ == s@.take(i as int),
        decreases s@.len() - i,
    {
        v.push(s[i]);
        i = i + 1;
        assert(v@ =~= s@.take(i as int));
    }
    assert(v@ =~= s@);
    v
}

} // verus!
