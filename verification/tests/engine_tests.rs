use wav_playback::engine::{
    EngineState, IoError, PlaybackError, SinkError, SinkParams, StreamingPlaybackEngine,
    DATA_OFFSET,
};
use wav_playback::header::{ParseError, TagField, RIFF_TAG};
use wav_playback::policy::{max98357a_policy, FormatFault};

fn session_header_bytes(sample_rate: u32, bits: u16, channels: u16, data_size: u32) -> Vec<u8> {
    let mut b: Vec<u8> = Vec::new();
    b.extend_from_slice(b"RIFF");
    b.extend_from_slice(&(36 + data_size).to_le_bytes());
    b.extend_from_slice(b"WAVE");
    b.extend_from_slice(b"fmt ");
    b.extend_from_slice(&16u32.to_le_bytes());
    b.extend_from_slice(&1u16.to_le_bytes());
    b.extend_from_slice(&channels.to_le_bytes());
    b.extend_from_slice(&sample_rate.to_le_bytes());
    let block_align = channels * (bits / 8);
    b.extend_from_slice(&(sample_rate * block_align as u32).to_le_bytes());
    b.extend_from_slice(&block_align.to_le_bytes());
    b.extend_from_slice(&bits.to_le_bytes());
    b.extend_from_slice(b"data");
    b.extend_from_slice(&data_size.to_le_bytes());
    b
}

fn streaming_session(data_size: u32, chunk_capacity: usize) -> StreamingPlaybackEngine {
    let mut e = StreamingPlaybackEngine::new(max98357a_policy(), chunk_capacity);
    let b = session_header_bytes(44100, 16, 1, data_size);
    e.on_header_read(&b).expect("header read");
    e.validate().expect("validate");
    assert_eq!(e.on_sink_armed(), DATA_OFFSET);
    e.on_seek_done();
    e
}

#[test]
fn full_scenario_2500_bytes_in_1024_chunks() {
    let mut e = StreamingPlaybackEngine::new(max98357a_policy(), 1024);
    assert_eq!(e.state, EngineState::Idle);

    let b = session_header_bytes(44100, 16, 1, 2500);
    e.on_header_read(&b).expect("header read");
    assert_eq!(e.state, EngineState::HeaderRead);

    let params = e.validate().expect("validate");
    assert_eq!(e.state, EngineState::Validated);
    assert_eq!(
        params,
        SinkParams { sample_rate_hz: 44100, bits_per_sample: 16, channel_count: 1 }
    );

    assert_eq!(e.on_sink_armed(), 44);
    assert_eq!(e.state, EngineState::SinkArmed);
    e.on_seek_done();
    assert_eq!(e.state, EngineState::Streaming);

    let mut read_sizes: Vec<usize> = Vec::new();
    let mut cumulative: Vec<u32> = Vec::new();
    let mut disables: usize = 0;
    while !e.transfer_done() {
        let n = e.next_read_len();
        read_sizes.push(n);
        let owed = e.on_chunk_read(n).expect("chunk read");
        assert_eq!(owed, n);
        e.on_chunk_written();
        cumulative.push(e.consumed);
    }
    e.on_sink_disabled();
    disables += 1;
    assert_eq!(e.state, EngineState::Drained);

    assert_eq!(read_sizes, vec![1024, 1024, 452]);
    assert_eq!(cumulative, vec![1024, 2048, 2500]);
    assert_eq!(disables, 1);
    assert_eq!(e.consumed, 2500);
    assert!(!e.sink_armed);

    e.finish(117);
    assert_eq!(e.state, EngineState::Finished);
    assert_eq!(e.elapsed_ms, Some(117));
}

#[test]
fn chunk_count_is_ceiling_and_sizes_sum_to_total() {
    // 2500 / 1024 -> 3 chunks; 2048 / 1024 -> 2 chunks, last one full;
    // 100 / 1024 -> 1 chunk; covering both the remainder and the exact case.
    for &(total, cap, expect_count, expect_last) in
        &[(2500u32, 1024usize, 3usize, 452usize), (2048, 1024, 2, 1024), (100, 1024, 1, 100)]
    {
        let mut e = streaming_session(total, cap);
        let mut sizes: Vec<usize> = Vec::new();
        while !e.transfer_done() {
            let n = e.next_read_len();
            sizes.push(n);
            e.on_chunk_read(n).expect("chunk read");
            e.on_chunk_written();
        }
        assert_eq!(sizes.len(), expect_count);
        assert_eq!(*sizes.last().unwrap(), expect_last);
        assert_eq!(sizes.iter().sum::<usize>() as u32, total);
        for &s in &sizes[..sizes.len() - 1] {
            assert_eq!(s, cap);
        }
    }
}

#[test]
fn short_read_aborts_with_unexpected_eof() {
    let mut e = streaming_session(2048, 1024);
    let n = e.next_read_len();
    assert_eq!(n, 1024);
    e.on_chunk_read(n).expect("first chunk");
    e.on_chunk_written();
    assert_eq!(e.consumed, 1024);

    // The source is exhausted early: the next read yields zero bytes.
    let r = e.on_chunk_read(0);
    assert_eq!(
        r,
        Err(PlaybackError::Io(IoError::UnexpectedEof { consumed: 1024, expected_total: 2048 }))
    );
    assert_eq!(e.state, EngineState::Aborted);
    assert_eq!(e.consumed, 1024);
    // The sink was armed, so the abort path still owes it a disable.
    assert!(e.needs_sink_cleanup());
    e.on_sink_cleanup();
    assert!(!e.sink_armed);
    assert_eq!(e.state, EngineState::Aborted);
}

#[test]
fn unsupported_sample_rate_rejected_before_sink_configuration() {
    let mut e = StreamingPlaybackEngine::new(max98357a_policy(), 1024);
    let b = session_header_bytes(22050, 16, 1, 1000);
    e.on_header_read(&b).expect("header read");
    let r = e.validate();
    assert_eq!(
        r,
        Err(PlaybackError::UnsupportedFormat(FormatFault::SampleRate { rate_hz: 22050 }))
    );
    assert_eq!(e.state, EngineState::Aborted);
    // No sink side effects: the transmit path was never armed, so the abort
    // path owes no cleanup either.
    assert!(!e.sink_armed);
    assert!(!e.needs_sink_cleanup());
}

#[test]
fn unsupported_bit_depth_rejected() {
    let mut e = StreamingPlaybackEngine::new(max98357a_policy(), 1024);
    let b = session_header_bytes(44100, 8, 1, 1000);
    e.on_header_read(&b).expect("header read");
    let r = e.validate();
    assert_eq!(r, Err(PlaybackError::UnsupportedFormat(FormatFault::BitsPerSample { bits: 8 })));
    assert_eq!(e.state, EngineState::Aborted);
}

#[test]
fn unsupported_channel_count_rejected() {
    let mut e = StreamingPlaybackEngine::new(max98357a_policy(), 1024);
    let b = session_header_bytes(44100, 16, 3, 1000);
    e.on_header_read(&b).expect("header read");
    let r = e.validate();
    assert_eq!(
        r,
        Err(PlaybackError::UnsupportedFormat(FormatFault::ChannelCount { channels: 3 }))
    );
    assert_eq!(e.state, EngineState::Aborted);
}

#[test]
fn bad_tag_aborts_validation() {
    let mut e = StreamingPlaybackEngine::new(max98357a_policy(), 1024);
    let mut b = session_header_bytes(44100, 16, 1, 1000);
    b[2] = b'!';
    e.on_header_read(&b).expect("header read");
    let r = e.validate();
    match r {
        Err(PlaybackError::Parse(ParseError::BadTag { field, expected, actual })) => {
            assert_eq!(field, TagField::RiffId);
            assert_eq!(expected, RIFF_TAG);
            assert_ne!(actual, expected);
        }
        other => panic!("expected BadTag, got {:?}", other),
    }
    assert_eq!(e.state, EngineState::Aborted);
}

#[test]
fn truncated_header_aborts() {
    let mut e = StreamingPlaybackEngine::new(max98357a_policy(), 1024);
    let b = vec![0u8; 10];
    let r = e.on_header_read(&b);
    assert_eq!(r, Err(PlaybackError::Io(IoError::TruncatedHeader { actual_len: 10 })));
    assert_eq!(e.state, EngineState::Aborted);
    assert_eq!(e.error, Some(PlaybackError::Io(IoError::TruncatedHeader { actual_len: 10 })));
}

#[test]
fn write_timeout_aborts_mid_stream() {
    let mut e = streaming_session(2048, 1024);
    let n = e.next_read_len();
    e.on_chunk_read(n).expect("chunk read");
    // The blocking write misses its timeout.
    let err = e.on_sink_fault(SinkError::Timeout);
    assert_eq!(err, PlaybackError::Sink(SinkError::Timeout));
    assert_eq!(e.state, EngineState::Aborted);
    assert!(e.needs_sink_cleanup());
}

#[test]
fn configure_rejection_aborts_before_arming() {
    let mut e = StreamingPlaybackEngine::new(max98357a_policy(), 1024);
    let b = session_header_bytes(96000, 16, 2, 4096);
    e.on_header_read(&b).expect("header read");
    e.validate().expect("validate");
    // The hardware rejects the parameters during configuration.
    let err = e.on_sink_fault(SinkError::Configure);
    assert_eq!(err, PlaybackError::Sink(SinkError::Configure));
    assert_eq!(e.state, EngineState::Aborted);
    assert!(!e.needs_sink_cleanup());
}

#[test]
fn storage_fault_mid_stream_aborts() {
    let mut e = streaming_session(4096, 1024);
    let n = e.next_read_len();
    e.on_chunk_read(n).expect("chunk read");
    e.on_chunk_written();
    let err = e.on_storage_fault();
    assert_eq!(err, PlaybackError::Io(IoError::Storage));
    assert_eq!(e.state, EngineState::Aborted);
    assert_eq!(e.error, Some(PlaybackError::Io(IoError::Storage)));
}

#[test]
fn empty_data_section_drains_without_reads() {
    let mut e = streaming_session(0, 1024);
    assert!(e.transfer_done());
    e.on_sink_disabled();
    assert_eq!(e.state, EngineState::Drained);
    e.finish(0);
    assert_eq!(e.state, EngineState::Finished);
    assert_eq!(e.consumed, 0);
}

#[test]
fn reads_never_exceed_remaining_bytes() {
    let mut e = streaming_session(1500, 1024);
    assert_eq!(e.next_read_len(), 1024);
    e.on_chunk_read(1024).expect("chunk read");
    e.on_chunk_written();
    // Only 476 bytes are still owed, so the engine asks for exactly those.
    assert_eq!(e.next_read_len(), 476);
}
