use charls::error::{translate_error, Error};
use charls::frame::FrameInfo;
use charls::protocol::{Call, Reply, Request};
use charls::session::CharLS;

const DECODER: usize = 0x1000;
const ENCODER: usize = 0x2000;

/// Answers each request of the session as a well-behaved engine would for one
/// 2x2, 8-bit, single-component frame holding `pixels`, recording the calls.
fn run_engine(session: &mut CharLS, pixels: &[u8], encoded: &[u8], calls: &mut Vec<Call>) {
    let mut bound: Vec<u8> = Vec::new();
    loop {
        let Request { call, buffer } = session.request();
        calls.push(call);
        let reply = match call {
            Call::Finished => return,
            Call::CreateDecoder => Reply::Handle { handle: DECODER },
            Call::CreateEncoder => Reply::Handle { handle: ENCODER },
            Call::SetSourceBuffer { .. }
            | Call::ReadHeader { .. }
            | Call::SetFrameInfo { .. }
            | Call::SetNearLossless { .. } => Reply::Status { code: 0 },
            Call::ReadFrameInfo { .. } => Reply::Frame {
                code: 0,
                frame_info: FrameInfo::new(2, 2, 8, 1),
            },
            Call::GetDestinationSize { .. } => Reply::Size { code: 0, size: pixels.len() },
            Call::DecodeToBuffer { .. } => {
                assert_eq!(buffer, vec![0u8; pixels.len()]);
                let mut out = buffer;
                out.copy_from_slice(pixels);
                Reply::Buffer { code: 0, buffer: out }
            }
            Call::GetEstimatedDestinationSize { .. } => Reply::Size { code: 0, size: 64 },
            Call::SetDestinationBuffer { .. } => {
                assert_eq!(buffer, vec![0u8; 64]);
                bound = buffer;
                Reply::Status { code: 0 }
            }
            Call::EncodeFromBuffer { .. } => {
                assert_eq!(buffer, pixels.to_vec());
                let mut dst = std::mem::take(&mut bound);
                dst[..encoded.len()].copy_from_slice(encoded);
                Reply::Buffer { code: 0, buffer: dst }
            }
            Call::GetBytesWritten { .. } => Reply::Size { code: 0, size: encoded.len() },
        };
        session.respond(reply);
    }
}

const STREAM: [u8; 6] = [0xFF, 0xD8, 0x01, 0x02, 0xFF, 0xD9];

#[test]
fn round_trip_of_small_frame() {
    let pixels = [10u8, 20, 30, 40];
    let mut session = CharLS::new();
    let mut calls = Vec::new();
    session.encode(FrameInfo::new(2, 2, 8, 1), 0, &pixels);
    run_engine(&mut session, &pixels, &STREAM, &mut calls);
    assert_eq!(
        calls,
        vec![
            Call::CreateEncoder,
            Call::SetFrameInfo { encoder: ENCODER, frame_info: FrameInfo::new(2, 2, 8, 1) },
            Call::GetEstimatedDestinationSize { encoder: ENCODER },
            Call::SetDestinationBuffer { encoder: ENCODER },
            Call::SetNearLossless { encoder: ENCODER, near: 0 },
            Call::EncodeFromBuffer { encoder: ENCODER },
            Call::GetBytesWritten { encoder: ENCODER },
            Call::Finished,
        ]
    );
    let encoded = session.take_bytes().unwrap();
    assert_eq!(encoded, STREAM.to_vec());

    let mut calls = Vec::new();
    session.decode();
    run_engine(&mut session, &pixels, &encoded, &mut calls);
    assert_eq!(session.take_bytes(), Ok(vec![10, 20, 30, 40]));
    assert_eq!(calls[3], Call::GetDestinationSize { decoder: DECODER, stride: 0 });

    let mut calls = Vec::new();
    session.get_frame_info();
    run_engine(&mut session, &pixels, &encoded, &mut calls);
    assert_eq!(session.take_frame_info(), Ok(FrameInfo::new(2, 2, 8, 1)));
    // The decoder handle is reused and no destination is negotiated.
    assert_eq!(
        calls,
        vec![
            Call::SetSourceBuffer { decoder: DECODER },
            Call::ReadHeader { decoder: DECODER },
            Call::ReadFrameInfo { decoder: DECODER },
            Call::Finished,
        ]
    );
}

#[test]
fn frame_info_read_makes_no_destination() {
    let mut session = CharLS::new();
    let mut calls = Vec::new();
    session.get_frame_info();
    run_engine(&mut session, &[], &STREAM, &mut calls);
    assert_eq!(session.take_frame_info(), Ok(FrameInfo::new(2, 2, 8, 1)));
    assert!(calls.iter().all(|c| !matches!(
        c,
        Call::GetDestinationSize { .. } | Call::DecodeToBuffer { .. }
    )));
}

#[test]
fn zero_stride_decode_matches_decode() {
    let pixels = [1u8, 2, 3, 4];
    let mut a = CharLS::new();
    let mut calls_a = Vec::new();
    a.decode_with_stride(0);
    run_engine(&mut a, &pixels, &STREAM, &mut calls_a);
    let mut b = CharLS::default();
    let mut calls_b = Vec::new();
    b.decode();
    run_engine(&mut b, &pixels, &STREAM, &mut calls_b);
    assert_eq!(calls_a, calls_b);
    assert_eq!(a.take_bytes(), b.take_bytes());
}

#[test]
fn stride_is_passed_to_size_and_transfer() {
    let mut session = CharLS::new();
    session.decode_with_stride(8);
    session.respond(Reply::Handle { handle: DECODER });
    session.respond(Reply::Status { code: 0 });
    session.respond(Reply::Status { code: 0 });
    assert_eq!(
        session.request().call,
        Call::GetDestinationSize { decoder: DECODER, stride: 8 }
    );
    session.respond(Reply::Size { code: 0, size: 16 });
    let request = session.request();
    assert_eq!(request.call, Call::DecodeToBuffer { decoder: DECODER, stride: 8 });
    assert_eq!(request.buffer, vec![0u8; 16]);
}

#[test]
fn idle_session_ignores_replies() {
    let mut session = CharLS::new();
    assert!(!session.is_finished());
    assert_eq!(session.request().call, Call::Finished);
    session.respond(Reply::Handle { handle: DECODER });
    session.decode();
    assert_eq!(session.request().call, Call::CreateDecoder);
}

#[test]
fn corrupt_header_is_codec_error() {
    let mut session = CharLS::new();
    session.decode();
    session.respond(Reply::Handle { handle: DECODER });
    session.respond(Reply::Status { code: 0 });
    assert!(!session.is_finished());
    session.respond(Reply::Status { code: 9 });
    assert!(session.is_finished());
    assert_eq!(session.request().call, Call::Finished);
    assert_eq!(session.take_bytes(), Err(Error::JpegLsError { code: 9 }));
}

#[test]
fn truncated_source_is_codec_error() {
    let mut session = CharLS::new();
    session.decode();
    session.respond(Reply::Handle { handle: DECODER });
    session.respond(Reply::Status { code: 0 });
    session.respond(Reply::Status { code: 0 });
    session.respond(Reply::Size { code: 0, size: 4 });
    session.respond(Reply::Buffer { code: 3, buffer: vec![0; 4] });
    assert_eq!(session.take_bytes(), Err(Error::JpegLsError { code: 3 }));
}

#[test]
fn failed_size_computation_is_compute_size() {
    let mut session = CharLS::new();
    session.decode_with_stride(1);
    session.respond(Reply::Handle { handle: DECODER });
    session.respond(Reply::Status { code: 0 });
    session.respond(Reply::Status { code: 0 });
    session.respond(Reply::Size { code: 6, size: 0 });
    assert_eq!(session.take_bytes(), Err(Error::ComputeSize));
}

#[test]
fn null_handle_is_init_codec_and_retried() {
    let mut session = CharLS::new();
    session.decode();
    assert_eq!(session.request().call, Call::CreateDecoder);
    session.respond(Reply::Handle { handle: 0 });
    assert_eq!(session.take_bytes(), Err(Error::InitCodec));
    session.get_frame_info();
    assert_eq!(session.request().call, Call::CreateDecoder);
    session.respond(Reply::Handle { handle: DECODER });
    assert_eq!(session.request().call, Call::SetSourceBuffer { decoder: DECODER });
    let teardown = session.release();
    assert_eq!(teardown.decoder, Some(DECODER));
    assert_eq!(teardown.encoder, None);
}

#[test]
fn encode_failure_stops_at_first_error() {
    let mut session = CharLS::new();
    session.encode(FrameInfo::new(2, 2, 8, 1), 2, &[1, 2, 3, 4]);
    session.respond(Reply::Handle { handle: ENCODER });
    session.respond(Reply::Status { code: 0 });
    session.respond(Reply::Size { code: 0, size: 32 });
    session.respond(Reply::Status { code: 0 });
    assert_eq!(session.request().call, Call::SetNearLossless { encoder: ENCODER, near: 2 });
    session.respond(Reply::Status { code: 5 });
    assert_eq!(session.request().call, Call::Finished);
    session.respond(Reply::Status { code: 0 });
    assert_eq!(session.take_bytes(), Err(Error::JpegLsError { code: 5 }));
}

#[test]
fn encode_output_is_cut_to_bytes_written() {
    let mut session = CharLS::new();
    session.encode(FrameInfo::new(1, 1, 8, 1), 0, &[7]);
    session.respond(Reply::Handle { handle: ENCODER });
    session.respond(Reply::Status { code: 0 });
    session.respond(Reply::Size { code: 0, size: 8 });
    assert_eq!(session.request().buffer, vec![0u8; 8]);
    session.respond(Reply::Status { code: 0 });
    session.respond(Reply::Status { code: 0 });
    assert_eq!(session.request().buffer, vec![7u8]);
    session.respond(Reply::Buffer { code: 0, buffer: vec![1, 2, 3, 4, 5, 6, 7, 8] });
    session.respond(Reply::Size { code: 0, size: 3 });
    assert_eq!(session.take_bytes(), Ok(vec![1, 2, 3]));
}

#[test]
fn sessions_release_each_handle_once() {
    for _ in 0..5 {
        let pixels = [10u8, 20, 30, 40];
        let mut session = CharLS::new();
        let mut calls = Vec::new();
        session.encode(FrameInfo::new(2, 2, 8, 1), 0, &pixels);
        run_engine(&mut session, &pixels, &STREAM, &mut calls);
        let encoded = session.take_bytes().unwrap();
        session.decode();
        run_engine(&mut session, &pixels, &encoded, &mut calls);
        assert_eq!(session.take_bytes(), Ok(pixels.to_vec()));
        let first = session.release();
        assert_eq!(first.decoder, Some(DECODER));
        assert_eq!(first.encoder, Some(ENCODER));
        let second = session.release();
        assert_eq!(second.decoder, None);
        assert_eq!(second.encoder, None);
    }
}

#[test]
fn unused_session_releases_nothing() {
    let mut session = CharLS::new();
    let teardown = session.release();
    assert_eq!(teardown.decoder, None);
    assert_eq!(teardown.encoder, None);
}

#[test]
fn status_codes_translate() {
    assert_eq!(translate_error(0), Ok(()));
    assert_eq!(translate_error(-1), Err(Error::JpegLsError { code: -1 }));
}

#[test]
fn error_texts() {
    assert_eq!(Error::InitCodec.description(), Some("Unable to start the codec"));
    assert_eq!(
        Error::ComputeSize.description(),
        Some("Unable to compute decompressed size")
    );
    assert_eq!(Error::JpegLsError { code: 4 }.description(), None);
    assert_eq!(Error::JpegLsError { code: 4 }.native_code(), Some(4));
    assert_eq!(Error::InitCodec.native_code(), None);
}
